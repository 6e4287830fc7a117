//! Containers of local development databases and their states.

use crate::text::{strip_prefix, strip_prefix_str};
use vstd::prelude::*;
use vstd::string::*;

verus! {

/// Status of a container.
#[derive(Debug, Clone, Copy, PartialEq, Eq, Structural)]
pub enum ContainerStatus {
    /// Container is running
    Running,
    /// Container exists but is stopped
    Stopped,
    /// Container does not exist
    NotFound,
}

/// How a container status is written for people.
pub open spec fn status_text(s: ContainerStatus) -> Seq<char> {
    match s {
        ContainerStatus::Running => "Running"@,
        ContainerStatus::Stopped => "Stopped"@,
        ContainerStatus::NotFound => "Not Found"@,
    }
}

impl ContainerStatus {
    /// The status as it is shown to people.
    pub fn display_string(&self) -> (s: String)
        ensures
            s@ == status_text(*self),
    {
        match self {
            ContainerStatus::Running => "Running".to_string(),
            ContainerStatus::Stopped => "Stopped".to_string(),
            ContainerStatus::NotFound => "Not Found".to_string(),
        }
    }
}

/// The prefix that names the development database containers.
pub open spec fn container_name_prefix() -> Seq<char> {
    "icitadel-dev-"@
}

/// Information about a container.
#[derive(Debug, PartialEq, Eq)]
pub struct ContainerInfo {
    /// Container name (e.g., "icitadel-dev-postgres")
    pub name: String,
    /// Current status
    pub status: ContainerStatus,
    /// Port mappings (e.g., "0.0.0.0:5432->5432/tcp")
    pub ports: String,
}

impl Clone for ContainerInfo {
    fn clone(&self) -> (r: Self)
        ensures
            r == *self,
    {
        ContainerInfo { name: self.name.clone(), status: self.status, ports: self.ports.clone() }
    }
}

impl ContainerInfo {
    /// Create a new ContainerInfo.
    pub fn new(name: String, status: ContainerStatus, ports: String) -> (c: Self)
        ensures
            c == (ContainerInfo { name, status, ports }),
    {
        ContainerInfo { name, status, ports }
    }

    /// Check if the container is running.
    pub fn is_running(&self) -> (b: bool)
        ensures
            b == (self.status == ContainerStatus::Running),
    {
        self.status == ContainerStatus::Running
    }

    /// The database type named after the `icitadel-dev-` prefix of the
    /// container's name, e.g. `postgres` for `icitadel-dev-postgres`.
    pub fn database_type(&self) -> (t: Option<&str>)
        ensures
            t is None <==> strip_prefix(self.name@, container_name_prefix()) is None,
            t matches Some(s) ==> strip_prefix(self.name@, container_name_prefix()) == Some(s@),
    {
        strip_prefix_str(self.name.as_str(), "icitadel-dev-")
    }
}

} // verus!
