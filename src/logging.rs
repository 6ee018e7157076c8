//! The decisions behind the process-wide log setup: which filter directives are
//! in force, and how each log level is reported to the crash reporter.
use vstd::prelude::*;

verus! {

broadcast use vstd::string::group_string_axioms;

/// The directives in force for the user's `directives`.
pub open spec fn spec_filter_directives(directives: Seq<char>) -> Seq<char> {
    "netlink_proto=warn,os_info=warn,rustls=warn,"@ + directives
}

/// A directive that silences noisy crates, a comma, then the user's
/// `directives`. Put first, it lets a plain `debug` yield useful logs; a
/// directive such as `netlink_proto=debug` still turns one of them back on.
pub fn filter_directives(directives: &str) -> (r: String)
    ensures
        r@ == spec_filter_directives(directives@),
{
    let mut s = "netlink_proto=warn,os_info=warn,rustls=warn".to_string();
    s.append(",");
    s.append(directives);
    proof {
        reveal_strlit("netlink_proto=warn,os_info=warn,rustls=warn");
        reveal_strlit(",");
        reveal_strlit("netlink_proto=warn,os_info=warn,rustls=warn,");
    }
    s
}

/// Severity of a log event.
#[derive(Debug, Clone, Copy, PartialEq, Eq, Hash, Structural)]
pub enum Level {
    Error,
    Warn,
    Info,
    Debug,
    Trace,
}

/// How the crash reporter records an event.
#[derive(Debug, Clone, Copy, PartialEq, Eq, Hash, Structural)]
pub enum Report {
    /// Reported as an exception.
    Exception,
    /// Reported as a message.
    Event,
    /// Kept as a breadcrumb, sent along with later reports.
    Breadcrumb,
    /// Not recorded.
    Ignore,
}

/// Errors become exceptions, warnings messages, infos breadcrumbs; the rest is
/// ignored.
pub fn report_for(level: Level) -> (r: Report)
    ensures
        r == match level {
            Level::Error => Report::Exception,
            Level::Warn => Report::Event,
            Level::Info => Report::Breadcrumb,
            _ => Report::Ignore,
        },
{
    match level {
        Level::Error => Report::Exception,
        Level::Warn => Report::Event,
        Level::Info => Report::Breadcrumb,
        _ => Report::Ignore,
    }
}

} // verus!
