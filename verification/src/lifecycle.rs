//! The lifecycle controller: the operations `initialize`, `run`, `stop`,
//! `restore` and `status` as a state machine.
//!
//! The controller touches neither the hosts file nor a process. An operation
//! begins with [`start`], which answers with a [`Progress`]: either the
//! operation is done, or the caller is asked for one effect (read the hosts
//! file, write it, terminate a process, spawn the proxy). The caller carries
//! the effect out and hands the result to the function that belongs to it
//! ([`on_hosts_read`], [`on_hosts_written`], [`on_terminated`],
//! [`on_spawned`]), which answers with the next `Progress`.
//!
//! The shared [`ProxyState`] is passed to each step and is needed only for
//! the length of the call, so a caller that guards it by a lock holds the
//! lock for no file access and no system call. Every step leaves the state
//! consistent, hands back each handle that leaves the state in a request to
//! terminate it, and asks for a spawn only while no handle is held.

use crate::hosts::{
    add_redirect, has_canonical_line, has_exact_redirect_line, has_redirect_entry, redirects,
    remove_redirect, with_redirect, without_redirect,
};
use crate::report::{init_report, Ack, InitReport, Payload, StatusReport};
use crate::supervisor::{ProcessHandle, ProxyState, StateView};
use vstd::prelude::*;
use vstd::string::StringExecFns;

verus! {

/// What precedes the cause when `initialize` cannot read the hosts file.
pub const INITIALIZE_READ_FAILED: &'static str = "Failed to read hosts: ";

/// What precedes the cause when another operation cannot read the hosts file.
pub const READ_FAILED: &'static str = "Read hosts failed: ";

/// What precedes the cause when the hosts file cannot be written.
pub const WRITE_FAILED: &'static str = "Write hosts failed: ";

/// What precedes the cause when the operating system refuses to spawn the
/// proxy.
pub const SPAWN_FAILED: &'static str = "Failed to start proxy: ";

/// An operation of the controller. `T` is the type of text: `String` in
/// running code, `Seq<char>` in specifications.
#[derive(Debug, PartialEq, Eq)]
pub enum Command<T> {
    Initialize,
    /// Start redirecting and proxying towards `gateway_url`. The URL is
    /// passed to the proxy as it is; nothing here inspects it.
    Run { gateway_url: T },
    Stop,
    Restore,
    Status,
}

/// What an operation goes on to do once the hosts file has been read.
#[derive(Debug, PartialEq, Eq)]
pub enum ReadWait<T> {
    Initialize,
    /// `status`, with the flags as they stood when it began.
    Status { proxy_running: bool, process_supervised: bool },
    Run { gateway_url: T },
    Restore,
}

/// What an operation goes on to do once the hosts file has been written.
#[derive(Debug, PartialEq, Eq)]
pub enum WriteWait<T> {
    Run { gateway_url: T },
    Restore,
}

/// What an operation goes on to do once a process has been asked to
/// terminate.
#[derive(Debug, PartialEq, Eq)]
pub enum TerminateWait<T> {
    /// `run`, before it spawns: the process that was supervised until now.
    BeforeSpawn { gateway_url: T },
    /// `run`, after it has spawned: a process that another `run` had put in
    /// place meanwhile.
    AfterSpawn,
    Stop,
    Restore,
}

/// How an attempt to spawn the proxy ended.
#[derive(Debug, PartialEq, Eq)]
pub enum SpawnOutcome<T> {
    /// The entry script is not there; nothing was spawned.
    ScriptMissing,
    /// The process runs.
    Started(ProcessHandle),
    /// The operating system refused; the text is its reason.
    Failed(T),
    /// The install directory could not be found; the text is the reason.
    NoInstallDir(T),
}

/// Where an operation stands: the one effect that it waits for, or its end.
#[derive(Debug, PartialEq, Eq)]
pub enum Progress<T> {
    /// Read the hosts file, then call [`on_hosts_read`].
    ReadHosts(ReadWait<T>),
    /// Replace the content of the hosts file by `table`, then call
    /// [`on_hosts_written`].
    WriteHosts(T, WriteWait<T>),
    /// Ask the process to terminate and forget it, then call
    /// [`on_terminated`]. Whether the request succeeds does not matter.
    Terminate(ProcessHandle, TerminateWait<T>),
    /// Spawn the proxy with the arguments of
    /// [`crate::supervisor::launch_arguments`], unless its entry script is
    /// missing, then call [`on_spawned`].
    Spawn { gateway_url: T },
    /// The operation has ended, with its payload or with an error message.
    Done(Result<Payload, T>),
}

impl View for Command<String> {
    type V = Command<Seq<char>>;

    open spec fn view(&self) -> Command<Seq<char>> {
        match *self {
            Command::Initialize => Command::Initialize,
            Command::Run { gateway_url } => Command::Run { gateway_url: gateway_url@ },
            Command::Stop => Command::Stop,
            Command::Restore => Command::Restore,
            Command::Status => Command::Status,
        }
    }
}

impl View for ReadWait<String> {
    type V = ReadWait<Seq<char>>;

    open spec fn view(&self) -> ReadWait<Seq<char>> {
        match *self {
            ReadWait::Initialize => ReadWait::Initialize,
            ReadWait::Status { proxy_running, process_supervised } => ReadWait::Status {
                proxy_running,
                process_supervised,
            },
            ReadWait::Run { gateway_url } => ReadWait::Run { gateway_url: gateway_url@ },
            ReadWait::Restore => ReadWait::Restore,
        }
    }
}

impl View for WriteWait<String> {
    type V = WriteWait<Seq<char>>;

    open spec fn view(&self) -> WriteWait<Seq<char>> {
        match *self {
            WriteWait::Run { gateway_url } => WriteWait::Run { gateway_url: gateway_url@ },
            WriteWait::Restore => WriteWait::Restore,
        }
    }
}

impl View for TerminateWait<String> {
    type V = TerminateWait<Seq<char>>;

    open spec fn view(&self) -> TerminateWait<Seq<char>> {
        match *self {
            TerminateWait::BeforeSpawn { gateway_url } => TerminateWait::BeforeSpawn {
                gateway_url: gateway_url@,
            },
            TerminateWait::AfterSpawn => TerminateWait::AfterSpawn,
            TerminateWait::Stop => TerminateWait::Stop,
            TerminateWait::Restore => TerminateWait::Restore,
        }
    }
}

impl View for SpawnOutcome<String> {
    type V = SpawnOutcome<Seq<char>>;

    open spec fn view(&self) -> SpawnOutcome<Seq<char>> {
        match *self {
            SpawnOutcome::ScriptMissing => SpawnOutcome::ScriptMissing,
            SpawnOutcome::Started(handle) => SpawnOutcome::Started(handle),
            SpawnOutcome::Failed(reason) => SpawnOutcome::Failed(reason@),
            SpawnOutcome::NoInstallDir(reason) => SpawnOutcome::NoInstallDir(reason@),
        }
    }
}

impl View for Progress<String> {
    type V = Progress<Seq<char>>;

    open spec fn view(&self) -> Progress<Seq<char>> {
        match *self {
            Progress::ReadHosts(then) => Progress::ReadHosts(then@),
            Progress::WriteHosts(table, then) => Progress::WriteHosts(table@, then@),
            Progress::Terminate(handle, then) => Progress::Terminate(handle, then@),
            Progress::Spawn { gateway_url } => Progress::Spawn { gateway_url: gateway_url@ },
            Progress::Done(Ok(payload)) => Progress::Done(Ok(payload)),
            Progress::Done(Err(message)) => Progress::Done(Err(message@)),
        }
    }
}

/// The result of reading the hosts file, as text: its content, or the reason
/// why it could not be read.
pub open spec fn read_view(result: Result<String, String>) -> Result<Seq<char>, Seq<char>> {
    match result {
        Ok(table) => Ok(table@),
        Err(reason) => Err(reason@),
    }
}

/// The result of writing the hosts file, as text: nothing, or the reason why
/// it could not be written.
pub open spec fn write_view(result: Result<(), String>) -> Result<(), Seq<char>> {
    match result {
        Ok(()) => Ok(()),
        Err(reason) => Err(reason@),
    }
}

/// What `run` does once the hosts table holds the redirect line: it asks for
/// the supervised process to be terminated if there is one, and for the spawn
/// if there is none.
pub open spec fn ready_to_spawn(state: StateView, gateway_url: Seq<char>) -> (
    StateView,
    Progress<Seq<char>>,
) {
    match state.handle {
        Some(handle) => (
            StateView { handle: None, running: state.running },
            Progress::Terminate(handle, TerminateWait::BeforeSpawn { gateway_url }),
        ),
        None => (state, Progress::Spawn { gateway_url }),
    }
}

/// The first step of each operation.
///
/// `stop` and `restore` clear the state at once and ask for the process that
/// was supervised to be terminated; `stop` ends there, `restore` goes on to
/// the hosts file. The other operations begin by reading the hosts file and
/// leave the state as it is.
pub open spec fn start_model(command: Command<Seq<char>>, state: StateView) -> (
    StateView,
    Progress<Seq<char>>,
) {
    match command {
        Command::Initialize => (state, Progress::ReadHosts(ReadWait::Initialize)),
        Command::Status => (
            state,
            Progress::ReadHosts(
                ReadWait::Status {
                    proxy_running: state.running,
                    process_supervised: state.handle is Some,
                },
            ),
        ),
        Command::Run { gateway_url } => (state, Progress::ReadHosts(ReadWait::Run { gateway_url })),
        Command::Stop => (
            StateView::stopped(),
            match state.handle {
                Some(handle) => Progress::Terminate(handle, TerminateWait::Stop),
                None => Progress::Done(Ok(Payload::Done(Ack::Stopped))),
            },
        ),
        Command::Restore => (
            StateView::stopped(),
            match state.handle {
                Some(handle) => Progress::Terminate(handle, TerminateWait::Restore),
                None => Progress::ReadHosts(ReadWait::Restore),
            },
        ),
    }
}

/// The step after the hosts file has been read.
///
/// A failure ends the operation with the reason behind the operation's
/// prefix. On success `initialize` and `status` report whether the table
/// redirects; `run` asks for the table with the redirect line to be written,
/// or goes on to the spawn where the table holds the line already; `restore`
/// asks for the table without the lines that mention the domain to be
/// written.
pub open spec fn read_model(
    wait: ReadWait<Seq<char>>,
    state: StateView,
    result: Result<Seq<char>, Seq<char>>,
) -> (StateView, Progress<Seq<char>>) {
    match wait {
        ReadWait::Initialize => (
            state,
            Progress::Done(
                match result {
                    Ok(table) => Ok(Payload::Initialized(init_report(redirects(table)))),
                    Err(reason) => Err(INITIALIZE_READ_FAILED@ + reason),
                },
            ),
        ),
        ReadWait::Status { proxy_running, process_supervised } => (
            state,
            Progress::Done(
                match result {
                    Ok(table) => Ok(
                        Payload::Status(
                            StatusReport {
                                hosts_modified: redirects(table),
                                proxy_running,
                                process_supervised,
                            },
                        ),
                    ),
                    Err(reason) => Err(READ_FAILED@ + reason),
                },
            ),
        ),
        ReadWait::Run { gateway_url } => match result {
            Ok(table) => if has_canonical_line(table) {
                ready_to_spawn(state, gateway_url)
            } else {
                (state, Progress::WriteHosts(with_redirect(table), WriteWait::Run { gateway_url }))
            },
            Err(reason) => (state, Progress::Done(Err(READ_FAILED@ + reason))),
        },
        ReadWait::Restore => (
            state,
            match result {
                Ok(table) => Progress::WriteHosts(without_redirect(table), WriteWait::Restore),
                Err(reason) => Progress::Done(Err(READ_FAILED@ + reason)),
            },
        ),
    }
}

/// The step after the hosts file has been written.
///
/// A failure ends the operation with the reason behind [`WRITE_FAILED`]. On
/// success `run` goes on to the spawn and `restore` is done.
pub open spec fn written_model(
    wait: WriteWait<Seq<char>>,
    state: StateView,
    result: Result<(), Seq<char>>,
) -> (StateView, Progress<Seq<char>>) {
    match result {
        Err(reason) => (state, Progress::Done(Err(WRITE_FAILED@ + reason))),
        Ok(()) => match wait {
            WriteWait::Run { gateway_url } => ready_to_spawn(state, gateway_url),
            WriteWait::Restore => (state, Progress::Done(Ok(Payload::Done(Ack::Restored)))),
        },
    }
}

/// The step after a process has been asked to terminate.
///
/// `stop` is done and `restore` goes on to the hosts file. `run` looks at
/// the state again before it spawns, and is done where it had spawned
/// already.
pub open spec fn terminated_model(wait: TerminateWait<Seq<char>>, state: StateView) -> (
    StateView,
    Progress<Seq<char>>,
) {
    match wait {
        TerminateWait::BeforeSpawn { gateway_url } => ready_to_spawn(state, gateway_url),
        TerminateWait::AfterSpawn => (state, Progress::Done(Ok(Payload::Done(Ack::Started)))),
        TerminateWait::Stop => (state, Progress::Done(Ok(Payload::Done(Ack::Stopped)))),
        TerminateWait::Restore => (state, Progress::ReadHosts(ReadWait::Restore)),
    }
}

/// The step after the attempt to spawn the proxy.
///
/// With the entry script missing, `run` succeeds all the same: the running
/// flag is set and no handle is held. With a process started, its handle is
/// taken and the flag is set; a handle that was held beside it is handed back
/// to be terminated first. A refusal by the operating system, or an install
/// directory that cannot be found, ends `run` with an error and leaves the
/// state as it was.
pub open spec fn spawned_model(state: StateView, outcome: SpawnOutcome<Seq<char>>) -> (
    StateView,
    Progress<Seq<char>>,
) {
    match outcome {
        SpawnOutcome::ScriptMissing => (
            StateView { handle: state.handle, running: true },
            Progress::Done(Ok(Payload::Done(Ack::Started))),
        ),
        SpawnOutcome::Started(handle) => (
            StateView { handle: Some(handle), running: true },
            match state.handle {
                Some(displaced) if displaced != handle => Progress::Terminate(
                    displaced,
                    TerminateWait::AfterSpawn,
                ),
                _ => Progress::Done(Ok(Payload::Done(Ack::Started))),
            },
        ),
        SpawnOutcome::Failed(reason) => (state, Progress::Done(Err(SPAWN_FAILED@ + reason))),
        SpawnOutcome::NoInstallDir(reason) => (state, Progress::Done(Err(reason))),
    }
}

/// The message of a failure: `prefix`, then `reason`.
fn failure(prefix: &str, reason: String) -> (message: String)
    ensures
        message@ == prefix@ + reason@,
{
    let mut message = String::from_str(prefix);
    message.append(reason.as_str());
    message
}

/// Goes on to the spawn, or first to the termination of the process that is
/// supervised.
fn proceed_to_spawn(state: &mut ProxyState, gateway_url: String) -> (next: Progress<String>)
    ensures
        (final(state)@, next@) == ready_to_spawn(old(state)@, gateway_url@),
{
    match state.release() {
        Some(handle) => Progress::Terminate(handle, TerminateWait::BeforeSpawn { gateway_url }),
        None => Progress::Spawn { gateway_url },
    }
}

/// Begins the operation `command`.
pub fn start(command: Command<String>, state: &mut ProxyState) -> (next: Progress<String>)
    ensures
        (final(state)@, next@) == start_model(command@, old(state)@),
        final(state)@.consistent(),
{
    proof {
        use_type_invariant(&*state);
    }
    match command {
        Command::Initialize => Progress::ReadHosts(ReadWait::Initialize),
        Command::Status => Progress::ReadHosts(
            ReadWait::Status {
                proxy_running: state.is_running(),
                process_supervised: state.is_supervised(),
            },
        ),
        Command::Run { gateway_url } => Progress::ReadHosts(ReadWait::Run { gateway_url }),
        Command::Stop => match state.clear() {
            Some(handle) => Progress::Terminate(handle, TerminateWait::Stop),
            None => Progress::Done(Ok(Payload::Done(Ack::Stopped))),
        },
        Command::Restore => match state.clear() {
            Some(handle) => Progress::Terminate(handle, TerminateWait::Restore),
            None => Progress::ReadHosts(ReadWait::Restore),
        },
    }
}

/// Continues an operation with the result of reading the hosts file: its
/// content, or the reason why it could not be read.
pub fn on_hosts_read(
    wait: ReadWait<String>,
    state: &mut ProxyState,
    result: Result<String, String>,
) -> (next: Progress<String>)
    ensures
        (final(state)@, next@) == read_model(wait@, old(state)@, read_view(result)),
        final(state)@.consistent(),
{
    proof {
        use_type_invariant(&*state);
    }
    match wait {
        ReadWait::Initialize => match result {
            Ok(table) => {
                let hosts_modified = has_redirect_entry(table.as_str());
                Progress::Done(
                    Ok(
                        Payload::Initialized(
                            InitReport {
                                hosts_modified,
                                proxy_running: false,
                                cert_installed: true,
                            },
                        ),
                    ),
                )
            },
            Err(reason) => Progress::Done(Err(failure(INITIALIZE_READ_FAILED, reason))),
        },
        ReadWait::Status { proxy_running, process_supervised } => match result {
            Ok(table) => {
                let hosts_modified = has_redirect_entry(table.as_str());
                Progress::Done(
                    Ok(
                        Payload::Status(
                            StatusReport { hosts_modified, proxy_running, process_supervised },
                        ),
                    ),
                )
            },
            Err(reason) => Progress::Done(Err(failure(READ_FAILED, reason))),
        },
        ReadWait::Run { gateway_url } => match result {
            Ok(table) => {
                if has_exact_redirect_line(table.as_str()) {
                    proceed_to_spawn(state, gateway_url)
                } else {
                    Progress::WriteHosts(
                        add_redirect(table.as_str()),
                        WriteWait::Run { gateway_url },
                    )
                }
            },
            Err(reason) => Progress::Done(Err(failure(READ_FAILED, reason))),
        },
        ReadWait::Restore => match result {
            Ok(table) => Progress::WriteHosts(remove_redirect(table.as_str()), WriteWait::Restore),
            Err(reason) => Progress::Done(Err(failure(READ_FAILED, reason))),
        },
    }
}

/// Continues an operation with the result of writing the hosts file:
/// nothing, or the reason why it could not be written.
pub fn on_hosts_written(
    wait: WriteWait<String>,
    state: &mut ProxyState,
    result: Result<(), String>,
) -> (next: Progress<String>)
    ensures
        (final(state)@, next@) == written_model(wait@, old(state)@, write_view(result)),
        final(state)@.consistent(),
{
    proof {
        use_type_invariant(&*state);
    }
    match result {
        Err(reason) => Progress::Done(Err(failure(WRITE_FAILED, reason))),
        Ok(()) => match wait {
            WriteWait::Run { gateway_url } => proceed_to_spawn(state, gateway_url),
            WriteWait::Restore => Progress::Done(Ok(Payload::Done(Ack::Restored))),
        },
    }
}

/// Continues an operation after a process has been asked to terminate.
pub fn on_terminated(wait: TerminateWait<String>, state: &mut ProxyState) -> (next: Progress<
    String,
>)
    ensures
        (final(state)@, next@) == terminated_model(wait@, old(state)@),
        final(state)@.consistent(),
{
    proof {
        use_type_invariant(&*state);
    }
    match wait {
        TerminateWait::BeforeSpawn { gateway_url } => proceed_to_spawn(state, gateway_url),
        TerminateWait::AfterSpawn => Progress::Done(Ok(Payload::Done(Ack::Started))),
        TerminateWait::Stop => Progress::Done(Ok(Payload::Done(Ack::Stopped))),
        TerminateWait::Restore => Progress::ReadHosts(ReadWait::Restore),
    }
}

/// Ends `run` with the outcome of the attempt to spawn the proxy.
pub fn on_spawned(state: &mut ProxyState, outcome: SpawnOutcome<String>) -> (next: Progress<
    String,
>)
    ensures
        (final(state)@, next@) == spawned_model(old(state)@, outcome@),
        final(state)@.consistent(),
{
    proof {
        use_type_invariant(&*state);
    }
    match outcome {
        SpawnOutcome::ScriptMissing => {
            state.mark_running();
            Progress::Done(Ok(Payload::Done(Ack::Started)))
        },
        SpawnOutcome::Started(handle) => {
            match state.adopt(handle) {
                Some(displaced) => {
                    if displaced.pid != handle.pid {
                        Progress::Terminate(displaced, TerminateWait::AfterSpawn)
                    } else {
                        Progress::Done(Ok(Payload::Done(Ack::Started)))
                    }
                },
                None => Progress::Done(Ok(Payload::Done(Ack::Started))),
            }
        },
        SpawnOutcome::Failed(reason) => Progress::Done(Err(failure(SPAWN_FAILED, reason))),
        SpawnOutcome::NoInstallDir(reason) => Progress::Done(Err(reason)),
    }
}

} // verus!
