//! The process supervisor's bookkeeping: the handle of the one proxy process
//! that may be alive, the running flag, and the command line of the proxy.
//!
//! Spawning and killing are the caller's part. What is kept here is which
//! process the caller holds, so that no second one is started beside it and
//! none is forgotten without a request to terminate it.

use vstd::prelude::*;
use vstd::string::StringExecFns;

verus! {

/// Names one child process that the caller has spawned and still holds.
#[derive(Clone, Copy, Debug, PartialEq, Eq, Structural)]
pub struct ProcessHandle {
    /// The identifier that the operating system gave the process.
    pub pid: u32,
}

/// What [`ProxyState`] stands for: the handle of the live proxy process, if
/// there is one, and the running flag.
pub struct StateView {
    pub handle: Option<ProcessHandle>,
    pub running: bool,
}

impl StateView {
    /// A handle is held only while the running flag is set.
    pub open spec fn consistent(self) -> bool {
        self.handle is Some ==> self.running
    }

    /// The state in which nothing runs.
    pub open spec fn stopped() -> StateView {
        StateView { handle: None, running: false }
    }
}

/// The shared state of the controller: at most one process handle, and the
/// flag that says whether `run` has completed and neither `stop` nor
/// `restore` has followed.
///
/// The flag does not say that the process is alive: it stays set when the
/// process exits by itself, and it is set when the entry script was missing
/// and nothing was spawned. [`ProxyState::is_supervised`] tells the two apart.
#[derive(Debug)]
pub struct ProxyState {
    handle: Option<ProcessHandle>,
    running: bool,
}

impl View for ProxyState {
    type V = StateView;

    closed spec fn view(&self) -> StateView {
        StateView { handle: self.handle, running: self.running }
    }
}

impl ProxyState {
    /// Holds of every value of the type: a handle is held only while the
    /// running flag is set.
    #[verifier::type_invariant]
    pub open spec fn is_consistent(self) -> bool {
        self@.consistent()
    }

    /// The state of a controller that has run nothing yet.
    pub fn new() -> (state: ProxyState)
        ensures
            state@ == StateView::stopped(),
    {
        ProxyState { handle: None, running: false }
    }

    /// The running flag.
    pub fn is_running(&self) -> (running: bool)
        ensures
            running == self@.running,
            self@.consistent(),
    {
        proof {
            use_type_invariant(self);
        }
        self.running
    }

    /// Whether a process handle is held.
    pub fn is_supervised(&self) -> (supervised: bool)
        ensures
            supervised == (self@.handle is Some),
            supervised ==> self@.running,
    {
        proof {
            use_type_invariant(self);
        }
        self.handle.is_some()
    }

    /// The handle that is held, if any.
    pub fn handle(&self) -> (handle: Option<ProcessHandle>)
        ensures
            handle == self@.handle,
            self@.consistent(),
    {
        proof {
            use_type_invariant(self);
        }
        self.handle
    }

    /// Gives up the handle and leaves the running flag as it is; returns the
    /// handle that was held.
    pub(crate) fn release(&mut self) -> (released: Option<ProcessHandle>)
        ensures
            released == old(self)@.handle,
            final(self)@ == (StateView { handle: None, running: old(self)@.running }),
            final(self)@.consistent(),
    {
        let released = self.handle;
        self.handle = None;
        released
    }

    /// Gives up the handle and clears the running flag; returns the handle
    /// that was held.
    pub(crate) fn clear(&mut self) -> (released: Option<ProcessHandle>)
        ensures
            released == old(self)@.handle,
            final(self)@ == StateView::stopped(),
    {
        let released = self.handle;
        self.handle = None;
        self.running = false;
        released
    }

    /// Sets the running flag.
    pub(crate) fn mark_running(&mut self)
        ensures
            final(self)@ == (StateView { handle: old(self)@.handle, running: true }),
            final(self)@.consistent(),
    {
        self.running = true;
    }

    /// Takes `handle` as the one process handle and sets the running flag;
    /// returns the handle that was held before.
    pub(crate) fn adopt(&mut self, handle: ProcessHandle) -> (displaced: Option<ProcessHandle>)
        ensures
            displaced == old(self)@.handle,
            final(self)@ == (StateView { handle: Some(handle), running: true }),
            final(self)@.consistent(),
    {
        let displaced = self.handle;
        self.running = true;
        self.handle = Some(handle);
        displaced
    }
}

/// The program that runs the proxy's entry script.
pub const PROXY_PROGRAM: &'static str = "node";

/// The flag that precedes the gateway URL on the proxy's command line.
pub const GATEWAY_FLAG: &'static str = "--gateway";

/// The flag that precedes the certificate directory on the proxy's command
/// line.
pub const CERT_DIR_FLAG: &'static str = "--cert-dir";

/// One argument on the proxy's command line.
#[derive(Debug, PartialEq, Eq)]
pub enum LaunchArg {
    /// Passed as it stands.
    Literal(String),
    /// A path below the install directory, given by its components.
    UnderInstallDir(Vec<String>),
}

/// What a [`LaunchArg`] stands for.
pub enum LaunchArgView {
    Literal(Seq<char>),
    UnderInstallDir(Seq<Seq<char>>),
}

impl View for LaunchArg {
    type V = LaunchArgView;

    open spec fn view(&self) -> LaunchArgView {
        match *self {
            LaunchArg::Literal(text) => LaunchArgView::Literal(text@),
            LaunchArg::UnderInstallDir(path) => LaunchArgView::UnderInstallDir(path.deep_view()),
        }
    }
}

/// Where the proxy's entry script lies below the install directory.
pub open spec fn entry_script() -> Seq<Seq<char>> {
    seq!["resources"@, "proxy"@, "local-proxy.js"@]
}

/// Where the certificates lie below the install directory.
pub open spec fn cert_dir() -> Seq<Seq<char>> {
    seq!["resources"@, "certs"@]
}

/// The arguments with which the proxy is spawned: its entry script, then the
/// gateway URL and the certificate directory, each behind its flag.
pub open spec fn launch_line(gateway_url: Seq<char>) -> Seq<LaunchArgView> {
    seq![
        LaunchArgView::UnderInstallDir(entry_script()),
        LaunchArgView::Literal(GATEWAY_FLAG@),
        LaunchArgView::Literal(gateway_url),
        LaunchArgView::Literal(CERT_DIR_FLAG@),
        LaunchArgView::UnderInstallDir(cert_dir()),
    ]
}

/// What the arguments `args` stand for, one by one.
pub open spec fn arg_views(args: Seq<LaunchArg>) -> Seq<LaunchArgView> {
    args.map_values(|arg: LaunchArg| arg@)
}

/// The components of the path of the proxy's entry script below the install
/// directory. Where no file lies there, `run` spawns nothing.
pub fn entry_script_path() -> (path: Vec<String>)
    ensures
        path.deep_view() == entry_script(),
{
    let mut path: Vec<String> = Vec::new();
    path.push(String::from_str("resources"));
    path.push(String::from_str("proxy"));
    path.push(String::from_str("local-proxy.js"));
    assert(path.deep_view() =~= entry_script());
    path
}

/// The components of the path of the certificate directory below the install
/// directory.
pub fn cert_dir_path() -> (path: Vec<String>)
    ensures
        path.deep_view() == cert_dir(),
{
    let mut path: Vec<String> = Vec::new();
    path.push(String::from_str("resources"));
    path.push(String::from_str("certs"));
    assert(path.deep_view() =~= cert_dir());
    path
}

/// The arguments with which [`PROXY_PROGRAM`] is spawned for the gateway
/// `gateway_url`. The URL is passed on unchanged and unexamined.
pub fn launch_arguments(gateway_url: &str) -> (args: Vec<LaunchArg>)
    ensures
        arg_views(args@) == launch_line(gateway_url@),
{
    let mut args: Vec<LaunchArg> = Vec::new();
    args.push(LaunchArg::UnderInstallDir(entry_script_path()));
    args.push(LaunchArg::Literal(String::from_str(GATEWAY_FLAG)));
    args.push(LaunchArg::Literal(String::from_str(gateway_url)));
    args.push(LaunchArg::Literal(String::from_str(CERT_DIR_FLAG)));
    args.push(LaunchArg::UnderInstallDir(cert_dir_path()));
    assert(arg_views(args@) =~= launch_line(gateway_url@));
    args
}

} // verus!
