//! Local development database containers: their errors, where their compose
//! file lives, and how the container tool's output is read.

use crate::text::{
    find_char, index_of, lemma_index_of, lines, split_on, starts_with_up, starts_with_up_str,
    strip_cr, trim, trim_str,
};
use vstd::prelude::*;
use vstd::string::*;

pub mod converter;
mod types;

pub use types::{container_name_prefix, status_text, ContainerInfo, ContainerStatus};

verus! {

/// Errors that can occur during container operations.
#[derive(Debug)]
pub enum ContainerError {
    PodmanNotAvailable,
    ContainerNotFound(String),
    OperationFailed(String),
    ComposeFileNotFound(String),
    CommandFailed(String),
    ParseError(String),
    IoError(String),
}

/// The message that describes a container error.
pub open spec fn container_error_text(e: ContainerError) -> Seq<char> {
    match e {
        ContainerError::PodmanNotAvailable => "Podman command not found. Please install podman."@,
        ContainerError::ContainerNotFound(n) => "Container '"@ + n@ + "' not found"@,
        ContainerError::OperationFailed(m) => "Container operation failed: "@ + m@,
        ContainerError::ComposeFileNotFound(p) => "Compose file not found at "@ + p@,
        ContainerError::CommandFailed(m) => "Failed to execute command: "@ + m@,
        ContainerError::ParseError(m) => "Failed to parse command output: "@ + m@,
        ContainerError::IoError(m) => "IO error: "@ + m@,
    }
}

impl ContainerError {
    /// The message that describes this error.
    pub fn message(&self) -> (s: String)
        ensures
            s@ == container_error_text(*self),
    {
        match self {
            ContainerError::PodmanNotAvailable => "Podman command not found. Please install podman.".to_string(),
            ContainerError::ContainerNotFound(n) => "Container '".to_string().concat(n.as_str()).concat(
                "' not found",
            ),
            ContainerError::OperationFailed(m) => "Container operation failed: ".to_string().concat(
                m.as_str(),
            ),
            ContainerError::ComposeFileNotFound(p) => "Compose file not found at ".to_string().concat(
                p.as_str(),
            ),
            ContainerError::CommandFailed(m) => "Failed to execute command: ".to_string().concat(
                m.as_str(),
            ),
            ContainerError::ParseError(m) => "Failed to parse command output: ".to_string().concat(
                m.as_str(),
            ),
            ContainerError::IoError(m) => "IO error: ".to_string().concat(m.as_str()),
        }
    }
}

/// Result of a container operation.
pub type Result<T> = std::result::Result<T, ContainerError>;

/// A container operation that the compose tool carries out.
#[derive(Debug, Clone, Copy, PartialEq, Eq, Structural)]
pub enum ComposeOperation {
    Start,
    Stop,
    StartAll,
    StopAll,
}

/// What is reported when a compose operation fails on `name` with `stderr`.
pub open spec fn failure_text(op: ComposeOperation, name: Seq<char>, stderr: Seq<char>) -> Seq<char> {
    match op {
        ComposeOperation::Start => "Failed to start container '"@ + name + "': "@ + stderr,
        ComposeOperation::Stop => "Failed to stop container '"@ + name + "': "@ + stderr,
        ComposeOperation::StartAll => "Failed to start all containers: "@ + stderr,
        ComposeOperation::StopAll => "Failed to stop all containers: "@ + stderr,
    }
}

/// The error for a compose operation on `container_name` that failed with
/// `stderr`.
pub fn operation_failure(op: ComposeOperation, container_name: &str, stderr: &str) -> (e:
    ContainerError)
    ensures
        e matches ContainerError::OperationFailed(m) && m@ == failure_text(
            op,
            container_name@,
            stderr@,
        ),
{
    let m = match op {
        ComposeOperation::Start => "Failed to start container '".to_string().concat(
            container_name,
        ).concat("': ").concat(stderr),
        ComposeOperation::Stop => "Failed to stop container '".to_string().concat(
            container_name,
        ).concat("': ").concat(stderr),
        ComposeOperation::StartAll => "Failed to start all containers: ".to_string().concat(stderr),
        ComposeOperation::StopAll => "Failed to stop all containers: ".to_string().concat(stderr),
    };
    ContainerError::OperationFailed(m)
}

/// Container manager for the development database containers defined in the
/// compose file of `compose_dir`.
pub struct ContainerManager {
    compose_dir: String,
}

impl ContainerManager {
    /// The directory holding the compose file.
    pub closed spec fn dir(&self) -> Seq<char> {
        self.compose_dir@
    }

    /// Create a manager for the compose file in `compose_dir`.
    pub fn new(compose_dir: String) -> (m: Self)
        ensures
            m.dir() == compose_dir@,
    {
        ContainerManager { compose_dir }
    }

    /// The directory holding the compose file.
    pub fn compose_dir(&self) -> (d: &str)
        ensures
            d@ == self.dir(),
    {
        self.compose_dir.as_str()
    }
}

impl Default for ContainerManager {
    fn default() -> (m: Self)
        ensures
            m.dir() == "rusty-data"@,
    {
        Self::new("rusty-data".to_string())
    }
}

/// A container row as name, status and ports.
pub type ContainerRow = (Seq<char>, ContainerStatus, Seq<char>);

/// The status a listing reports: running when the status column begins with
/// "up", ignoring case.
pub open spec fn listed_status(s: Seq<char>) -> ContainerStatus {
    if starts_with_up(s) {
        ContainerStatus::Running
    } else {
        ContainerStatus::Stopped
    }
}

/// The container that one line of a tab-separated listing describes: blank
/// lines and lines with fewer than two columns describe none; the columns are
/// name, status and, when present, ports.
pub open spec fn row_of_line(l: Seq<char>) -> Option<ContainerRow> {
    if trim(l).len() == 0 {
        None
    } else {
        let parts = split_on(l, '\t');
        if parts.len() >= 2 {
            Some(
                (
                    parts[0],
                    listed_status(parts[1]),
                    if parts.len() >= 3 {
                        parts[2]
                    } else {
                        Seq::empty()
                    },
                ),
            )
        } else {
            None
        }
    }
}

/// The containers that a sequence of listing lines describes, in order.
pub open spec fn rows_of_lines(ls: Seq<Seq<char>>) -> Seq<ContainerRow>
    decreases ls.len(),
{
    if ls.len() == 0 {
        Seq::empty()
    } else {
        let rest = rows_of_lines(ls.drop_first());
        match row_of_line(ls[0]) {
            Some(r) => seq![r] + rest,
            None => rest,
        }
    }
}

/// A container as name, status and ports.
pub open spec fn info_row(c: ContainerInfo) -> ContainerRow {
    (c.name@, c.status, c.ports@)
}

/// The status that `podman ps --format {{.Status}}` output reports for one
/// container: not found when it is blank, running when its trimmed text
/// begins with "up" ignoring case, stopped otherwise.
pub open spec fn reported_status(out: Seq<char>) -> ContainerStatus {
    let t = trim(out);
    if t.len() == 0 {
        ContainerStatus::NotFound
    } else if starts_with_up(t) {
        ContainerStatus::Running
    } else {
        ContainerStatus::Stopped
    }
}

proof fn lemma_split_once(s: Seq<char>, k: int)
    requires
        0 <= k < s.len(),
        index_of(s, '\t') == k,
    ensures
        split_on(s, '\t') == seq![s.subrange(0, k)] + split_on(
            s.subrange(k + 1, s.len() as int),
            '\t',
        ),
{
}

proof fn lemma_split_none(s: Seq<char>)
    requires
        index_of(s, '\t') == -1,
    ensures
        split_on(s, '\t') == seq![s],
{
}

/// Reads one line of a tab-separated container listing.
pub fn parse_container_row(line: &str) -> (r: Option<ContainerInfo>)
    ensures
        r is None <==> row_of_line(line@) is None,
        r matches Some(c) ==> row_of_line(line@) == Some(info_row(c)),
{
    if trim_str(line).unicode_len() == 0 {
        return None;
    }
    let n = line.unicode_len();
    match find_char(line, '\t') {
        None => {
            proof {
                lemma_split_none(line@);
            }
            None
        },
        Some(k) => {
            let name = line.substring_char(0, k);
            let rest = line.substring_char(k + 1, n);
            proof {
                lemma_split_once(line@, k as int);
            }
            let m = rest.unicode_len();
            match find_char(rest, '\t') {
                None => {
                    proof {
                        lemma_split_none(rest@);
                        assert(split_on(line@, '\t') =~= seq![name@, rest@]);
                    }
                    let status = if starts_with_up_str(rest) {
                        ContainerStatus::Running
                    } else {
                        ContainerStatus::Stopped
                    };
                    Some(ContainerInfo { name: name.to_string(), status, ports: String::new() })
                },
                Some(k2) => {
                    let status_text = rest.substring_char(0, k2);
                    let rest2 = rest.substring_char(k2 + 1, m);
                    proof {
                        lemma_split_once(rest@, k2 as int);
                    }
                    let ports = match find_char(rest2, '\t') {
                        None => {
                            proof {
                                lemma_split_none(rest2@);
                            }
                            rest2
                        },
                        Some(k3) => {
                            proof {
                                lemma_split_once(rest2@, k3 as int);
                            }
                            rest2.substring_char(0, k3)
                        },
                    };
                    proof {
                        let parts = split_on(line@, '\t');
                        assert(parts[0] == name@);
                        assert(parts[1] == status_text@);
                        assert(parts[2] == ports@);
                        assert(parts.len() >= 3);
                    }
                    let status = if starts_with_up_str(status_text) {
                        ContainerStatus::Running
                    } else {
                        ContainerStatus::Stopped
                    };
                    Some(ContainerInfo { name: name.to_string(), status, ports: ports.to_string() })
                },
            }
        },
    }
}

/// Reads the output of
/// `podman ps -a --format "{{.Names}}\t{{.Status}}\t{{.Ports}}"`: one
/// container per non-blank line with at least two columns, in order.
pub fn parse_container_list(stdout: &str) -> (r: Vec<ContainerInfo>)
    ensures
        r@.map_values(|c: ContainerInfo| info_row(c)) == rows_of_lines(lines(stdout@)),
{
    let n = stdout.unicode_len();
    let mut r: Vec<ContainerInfo> = Vec::new();
    let mut start: usize = 0;
    let mut i: usize = 0;
    assert(stdout@.subrange(0, n as int) =~= stdout@);
    while i < n
        invariant
            n == stdout@.len(),
            start <= i <= n,
            forall|k: int| start <= k < i ==> stdout@[k] != '\n',
            rows_of_lines(lines(stdout@)) == r@.map_values(|c: ContainerInfo| info_row(c))
                + rows_of_lines(lines(stdout@.subrange(start as int, n as int))),
        decreases n - i,
    {
        if stdout.get_char(i) == '\n' {
            let ghost t = stdout@.subrange(start as int, n as int);
            let end = if i > start && stdout.get_char(i - 1) == '\r' {
                i - 1
            } else {
                i
            };
            let line = stdout.substring_char(start, end);
            proof {
                lemma_index_of(t, '\n', (i - start) as int);
                assert(t.subrange(0, (i - start) as int) =~= stdout@.subrange(
                    start as int,
                    i as int,
                ));
                assert(t.subrange((i - start + 1) as int, t.len() as int) =~= stdout@.subrange(
                    i + 1,
                    n as int,
                ));
                assert(line@ =~= strip_cr(stdout@.subrange(start as int, i as int)));
                let ls = lines(stdout@.subrange(i + 1, n as int));
                assert(lines(t) == seq![line@] + ls);
                assert((seq![line@] + ls)[0] == line@);
                assert((seq![line@] + ls).drop_first() =~= ls);
            }
            let row = parse_container_row(line);
            match row {
                Some(c) => {
                    let ghost before = r@;
                    r.push(c);
                    proof {
                        assert(r@.map_values(|c: ContainerInfo| info_row(c)) =~= before.map_values(
                            |c: ContainerInfo| info_row(c),
                        ).push(info_row(c)));
                    }
                },
                None => {},
            }
            start = i + 1;
        }
        i = i + 1;
    }
    if start < n {
        let line = stdout.substring_char(start, n);
        proof {
            let t = stdout@.subrange(start as int, n as int);
            lemma_index_of(t, '\n', t.len() as int);
            assert(line@ == t);
            assert(lines(t) == seq![t]);
            assert(seq![t].drop_first() =~= Seq::<Seq<char>>::empty());
            assert(rows_of_lines(seq![t].drop_first()) == Seq::<ContainerRow>::empty());
        }
        let ghost before = r@;
        match parse_container_row(line) {
            Some(c) => {
                r.push(c);
                proof {
                    assert(r@.map_values(|c: ContainerInfo| info_row(c)) =~= before.map_values(
                        |c: ContainerInfo| info_row(c),
                    ).push(info_row(c)));
                    assert(before.map_values(|c: ContainerInfo| info_row(c)) + (seq![info_row(c)]
                        + Seq::<ContainerRow>::empty()) =~= r@.map_values(
                        |c: ContainerInfo| info_row(c),
                    ));
                }
            },
            None => {
                assert(before.map_values(|c: ContainerInfo| info_row(c))
                    + Seq::<ContainerRow>::empty() =~= r@.map_values(
                    |c: ContainerInfo| info_row(c),
                ));
            },
        }
    } else {
        assert(stdout@.subrange(start as int, n as int) =~= Seq::<char>::empty());
        assert(lines(Seq::<char>::empty()) == Seq::<Seq<char>>::empty());
        assert(r@.map_values(|c: ContainerInfo| info_row(c)) + Seq::<ContainerRow>::empty()
            =~= r@.map_values(|c: ContainerInfo| info_row(c)));
    }
    r
}

/// Reads the output of `podman ps -a --format "{{.Status}}"` for one
/// container.
pub fn parse_container_status(stdout: &str) -> (s: ContainerStatus)
    ensures
        s == reported_status(stdout@),
{
    let t = trim_str(stdout);
    if t.unicode_len() == 0 {
        ContainerStatus::NotFound
    } else if starts_with_up_str(t) {
        ContainerStatus::Running
    } else {
        ContainerStatus::Stopped
    }
}

} // verus!
