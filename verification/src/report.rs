//! What the operations of the controller answer: the reports of `initialize`
//! and `status`, and the acknowledgments of `run`, `stop` and `restore`.

use vstd::prelude::*;

verus! {

/// The snapshot that `initialize` takes at start-up. It says what the hosts
/// table holds on disk; it does not look at what the controller runs.
#[derive(Clone, Copy, Debug, PartialEq, Eq, Structural)]
pub struct InitReport {
    /// Whether the hosts table redirects the target domain.
    pub hosts_modified: bool,
    /// Always `false`: at start-up nothing is taken to run.
    pub proxy_running: bool,
    /// Always `true`: installing the certificate is done elsewhere, before.
    pub cert_installed: bool,
}

/// What `status` reports.
#[derive(Clone, Copy, Debug, PartialEq, Eq, Structural)]
pub struct StatusReport {
    /// Whether the hosts table redirects the target domain.
    pub hosts_modified: bool,
    /// The running flag: `run` has completed, and neither `stop` nor
    /// `restore` has followed. The process itself is not probed.
    pub proxy_running: bool,
    /// Whether the controller holds the handle of a proxy process. With the
    /// running flag set and this one clear, `run` found no entry script and
    /// spawned nothing.
    pub process_supervised: bool,
}

/// The acknowledgment of an operation that reports nothing else.
#[derive(Clone, Copy, Debug, PartialEq, Eq, Structural)]
pub enum Ack {
    Started,
    Stopped,
    Restored,
}

/// What an operation that succeeded hands to its caller.
#[derive(Clone, Copy, Debug, PartialEq, Eq, Structural)]
pub enum Payload {
    Initialized(InitReport),
    Status(StatusReport),
    Done(Ack),
}

impl Ack {
    /// The message that goes with the acknowledgment.
    pub open spec fn text(self) -> Seq<char> {
        match self {
            Ack::Started => "Proxy started"@,
            Ack::Stopped => "Proxy stopped"@,
            Ack::Restored => "Restored"@,
        }
    }

    /// The message that goes with the acknowledgment.
    pub fn message(&self) -> (message: &'static str)
        ensures
            message@ == self.text(),
    {
        match self {
            Ack::Started => "Proxy started",
            Ack::Stopped => "Proxy stopped",
            Ack::Restored => "Restored",
        }
    }
}

/// The report of `initialize` on a hosts table that redirects the target
/// domain, or does not.
pub open spec fn init_report(hosts_modified: bool) -> InitReport {
    InitReport { hosts_modified, proxy_running: false, cert_installed: true }
}

} // verus!
