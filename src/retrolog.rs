//! Choice of where log messages go.

use vstd::prelude::*;

verus! {

/// Where log records are written.
#[derive(Clone, Copy, Debug, PartialEq, Eq, Structural)]
pub enum LogBackend {
    /// The host's logging interface.
    Host,
    /// The process's standard error stream.
    StdErr,
}

/// Picks the log destination once at start-up: the host's interface when it
/// offered one, standard error otherwise.
pub fn init(host_logging: bool) -> (r: LogBackend)
    ensures
        host_logging ==> r == LogBackend::Host,
        !host_logging ==> r == LogBackend::StdErr,
{
    if host_logging {
        LogBackend::Host
    } else {
        LogBackend::StdErr
    }
}

} // verus!
