//! How logging settings become a logging configuration: the builder calls
//! they ask for, in order.

use crate::settings::types::{ConsoleFormat, ConsoleWriter, FileFormat, LoggingSettings, RotationPolicy};
use vstd::prelude::*;

verus! {

/// One call on the logging configuration builder.
#[derive(Debug, PartialEq)]
pub enum LoggingStep {
    /// Set the global filter.
    Filter(String),
    ConsolePretty,
    ConsoleCompact,
    ConsoleStdout,
    ConsoleStderr,
    /// Set the console-specific filter.
    ConsoleFilter(String),
    WithoutConsole,
    FileText,
    FileJson,
    /// Set the log directory, as written in the settings (a leading `~/` is
    /// still to be expanded).
    FileDirectory(String),
    FilePrefix(String),
    Rotation(RotationPolicy),
    /// Set the file-specific filter.
    FileFilter(String),
    WithoutFile,
}

/// The builder calls for console output.
pub open spec fn console_steps(s: LoggingSettings) -> Seq<LoggingStep> {
    if s.console_enabled {
        seq![
            match s.console_format {
                ConsoleFormat::Pretty => LoggingStep::ConsolePretty,
                ConsoleFormat::Compact => LoggingStep::ConsoleCompact,
            },
            match s.console_writer {
                ConsoleWriter::Stdout => LoggingStep::ConsoleStdout,
                ConsoleWriter::Stderr => LoggingStep::ConsoleStderr,
            },
        ] + match s.console_filter {
            Some(f) => seq![LoggingStep::ConsoleFilter(f)],
            None => Seq::empty(),
        }
    } else {
        seq![LoggingStep::WithoutConsole]
    }
}

/// The builder calls for file output.
pub open spec fn file_steps(s: LoggingSettings) -> Seq<LoggingStep> {
    if s.file_enabled {
        seq![
            match s.file_format {
                FileFormat::Text => LoggingStep::FileText,
                FileFormat::Json => LoggingStep::FileJson,
            },
            LoggingStep::FileDirectory(s.file_directory),
            LoggingStep::FilePrefix(s.file_prefix),
            LoggingStep::Rotation(s.rotation_policy),
        ] + match s.file_filter {
            Some(f) => seq![LoggingStep::FileFilter(f)],
            None => Seq::empty(),
        }
    } else {
        seq![LoggingStep::WithoutFile]
    }
}

/// The builder calls that logging settings ask for: the global filter, then
/// console output, then file output.
pub open spec fn spec_logging_steps(s: LoggingSettings) -> Seq<LoggingStep> {
    seq![LoggingStep::Filter(s.filter)] + console_steps(s) + file_steps(s)
}

/// The builder calls, in order, that configure logging as `settings` ask.
pub fn logging_steps(settings: &LoggingSettings) -> (steps: Vec<LoggingStep>)
    ensures
        steps@ == spec_logging_steps(*settings),
{
    let mut steps: Vec<LoggingStep> = Vec::new();
    steps.push(LoggingStep::Filter(settings.filter.clone()));
    let ghost after_filter = steps@;
    if settings.console_enabled {
        steps.push(
            match settings.console_format {
                ConsoleFormat::Pretty => LoggingStep::ConsolePretty,
                ConsoleFormat::Compact => LoggingStep::ConsoleCompact,
            },
        );
        steps.push(
            match settings.console_writer {
                ConsoleWriter::Stdout => LoggingStep::ConsoleStdout,
                ConsoleWriter::Stderr => LoggingStep::ConsoleStderr,
            },
        );
        match &settings.console_filter {
            Some(f) => steps.push(LoggingStep::ConsoleFilter(f.clone())),
            None => {},
        }
    } else {
        steps.push(LoggingStep::WithoutConsole);
    }
    assert(steps@ =~= after_filter + console_steps(*settings));
    let ghost after_console = steps@;
    if settings.file_enabled {
        steps.push(
            match settings.file_format {
                FileFormat::Text => LoggingStep::FileText,
                FileFormat::Json => LoggingStep::FileJson,
            },
        );
        steps.push(LoggingStep::FileDirectory(settings.file_directory.clone()));
        steps.push(LoggingStep::FilePrefix(settings.file_prefix.clone()));
        steps.push(LoggingStep::Rotation(settings.rotation_policy));
        match &settings.file_filter {
            Some(f) => steps.push(LoggingStep::FileFilter(f.clone())),
            None => {},
        }
    } else {
        steps.push(LoggingStep::WithoutFile);
    }
    assert(steps@ =~= after_console + file_steps(*settings));
    assert(spec_logging_steps(*settings) =~= after_filter + console_steps(*settings) + file_steps(
        *settings,
    ));
    steps
}

/// What the steps for `s` hold, whatever else the settings say: the global
/// filter comes first; with console output on, its format, its writer and then
/// its filter, when one is set, come next, whatever the file settings; with it
/// off, a single step turns it off. A console or file filter step appears
/// exactly when that output is on and has that filter, and the steps end with
/// the file filter, when file output is on and has one, or with turning file
/// output off.
pub proof fn law_logging_steps(s: LoggingSettings)
    ensures
        spec_logging_steps(s)[0] == LoggingStep::Filter(s.filter),
        s.console_enabled ==> spec_logging_steps(s)[1] == match s.console_format {
            ConsoleFormat::Pretty => LoggingStep::ConsolePretty,
            ConsoleFormat::Compact => LoggingStep::ConsoleCompact,
        },
        s.console_enabled ==> spec_logging_steps(s)[2] == match s.console_writer {
            ConsoleWriter::Stdout => LoggingStep::ConsoleStdout,
            ConsoleWriter::Stderr => LoggingStep::ConsoleStderr,
        },
        s.console_enabled && s.console_filter is Some ==> spec_logging_steps(s)[3]
            == LoggingStep::ConsoleFilter(s.console_filter->0),
        !s.console_enabled ==> spec_logging_steps(s)[1] == LoggingStep::WithoutConsole,
        forall|i: int|
            0 <= i < spec_logging_steps(s).len() && #[trigger] spec_logging_steps(s)[i] is ConsoleFilter
                ==> s.console_enabled && s.console_filter == Some(spec_logging_steps(s)[i]->ConsoleFilter_0),
        forall|i: int|
            0 <= i < spec_logging_steps(s).len() && #[trigger] spec_logging_steps(s)[i] is FileFilter
                ==> s.file_enabled && s.file_filter == Some(spec_logging_steps(s)[i]->FileFilter_0),
        s.file_enabled && s.file_filter is Some ==> spec_logging_steps(s).last()
            == LoggingStep::FileFilter(s.file_filter->0),
        !s.file_enabled ==> spec_logging_steps(s).last() == LoggingStep::WithoutFile,
{
    let head = seq![LoggingStep::Filter(s.filter)];
    let c = console_steps(s);
    let f = file_steps(s);
    let all = spec_logging_steps(s);
    assert(all == head + c + f);
    assert forall|i: int| 0 <= i < c.len() && #[trigger] c[i] is ConsoleFilter implies s.console_enabled
        && s.console_filter == Some(c[i]->ConsoleFilter_0) by {}
    assert forall|i: int| 0 <= i < f.len() && #[trigger] f[i] is FileFilter implies s.file_enabled
        && s.file_filter == Some(f[i]->FileFilter_0) by {}
    assert forall|i: int|
        0 <= i < all.len() && #[trigger] all[i] is ConsoleFilter implies s.console_enabled
            && s.console_filter == Some(all[i]->ConsoleFilter_0) by {
        if 1 <= i < 1 + c.len() {
            assert(all[i] == c[i - 1]);
        } else if i >= 1 + c.len() {
            assert(all[i] == f[i - 1 - c.len()]);
        }
    }
    assert forall|i: int|
        0 <= i < all.len() && #[trigger] all[i] is FileFilter implies s.file_enabled && s.file_filter
            == Some(all[i]->FileFilter_0) by {
        if 1 <= i < 1 + c.len() {
            assert(all[i] == c[i - 1]);
        } else if i >= 1 + c.len() {
            assert(all[i] == f[i - 1 - c.len()]);
        }
    }
    assert(all.last() == f.last());
    if s.console_enabled {
        assert(all[1] == c[0]);
        assert(all[2] == c[1]);
        if s.console_filter is Some {
            assert(all[3] == c[2]);
        }
    } else {
        assert(all[1] == c[0]);
    }
}

} // verus!
