//! What holds of the controller's state whatever steps are taken, in
//! whatever order: the steps of operations that several callers run at once
//! interleave, and each step is taken on the shared state alone.

use crate::hosts::{has_canonical_line, redirects};
use crate::hosts_laws::{lemma_add_redirects, lemma_remove_clears};
use crate::lifecycle::{
    read_model, spawned_model, start_model, terminated_model, written_model, Command, Progress,
    ReadWait, SpawnOutcome, TerminateWait, WriteWait,
};
use crate::report::{Ack, Payload};
use crate::supervisor::{ProcessHandle, StateView};
use vstd::prelude::*;

verus! {

/// One step of some operation, with what the caller hands to it.
pub enum Step {
    Start(Command<Seq<char>>),
    HostsRead(ReadWait<Seq<char>>, Result<Seq<char>, Seq<char>>),
    HostsWritten(WriteWait<Seq<char>>, Result<(), Seq<char>>),
    Terminated(TerminateWait<Seq<char>>),
    Spawned(SpawnOutcome<Seq<char>>),
}

/// The state after `step` is taken in `state`, and what the step answers.
pub open spec fn step_model(state: StateView, step: Step) -> (StateView, Progress<Seq<char>>) {
    match step {
        Step::Start(command) => start_model(command, state),
        Step::HostsRead(wait, result) => read_model(wait, state, result),
        Step::HostsWritten(wait, result) => written_model(wait, state, result),
        Step::Terminated(wait) => terminated_model(wait, state),
        Step::Spawned(outcome) => spawned_model(state, outcome),
    }
}

/// The state after the steps `steps` are taken one after the other, the
/// first of them in `state`.
pub open spec fn state_after(state: StateView, steps: Seq<Step>) -> StateView
    decreases steps.len(),
{
    if steps.len() == 0 {
        state
    } else {
        step_model(state_after(state, steps.drop_last()), steps.last()).0
    }
}

/// Every step keeps the state consistent: it never leaves a handle held with
/// the running flag clear.
pub proof fn lemma_step_keeps_consistency(state: StateView, step: Step)
    requires
        state.consistent(),
    ensures
        step_model(state, step).0.consistent(),
{
}

/// Whatever steps are taken from the start, of whichever operations and in
/// whatever order, the state is consistent after each of them.
pub proof fn lemma_interleaving_is_consistent(steps: Seq<Step>)
    ensures
        state_after(StateView::stopped(), steps).consistent(),
    decreases steps.len(),
{
    if steps.len() > 0 {
        lemma_interleaving_is_consistent(steps.drop_last());
        lemma_step_keeps_consistency(
            state_after(StateView::stopped(), steps.drop_last()),
            steps.last(),
        );
    }
}

/// No handle is forgotten: a step after which the state no longer holds the
/// handle that it held answers with the request to terminate that process.
pub proof fn lemma_step_hands_back(state: StateView, step: Step, handle: ProcessHandle)
    requires
        state.handle == Some(handle),
        step_model(state, step).0.handle != Some(handle),
    ensures
        step_model(state, step).1 matches Progress::Terminate(asked, _) && asked == handle,
{
}

/// No second process beside a live one: a step asks for the spawn only when
/// it leaves the state without a handle.
pub proof fn lemma_spawn_only_unsupervised(state: StateView, step: Step)
    requires
        step_model(state, step).1 is Spawn,
    ensures
        step_model(state, step).0.handle is None,
{
}

/// The running flag is set by the end of `run` alone: a step that sets it is
/// the one that follows the attempt to spawn, with a process started or with
/// the entry script missing.
pub proof fn lemma_running_set_by_spawn(state: StateView, step: Step)
    requires
        state.consistent(),
        !state.running,
        step_model(state, step).0.running,
    ensures
        step matches Step::Spawned(outcome) && (outcome is ScriptMissing || outcome is Started),
        step_model(state, step).1 == Progress::<Seq<char>>::Done(Ok(Payload::Done(Ack::Started))),
{
}

/// `stop` and `restore` clear the state at once, whatever it was.
pub proof fn lemma_stop_and_restore_clear(state: StateView)
    ensures
        start_model(Command::Stop, state).0 == StateView::stopped(),
        start_model(Command::Restore, state).0 == StateView::stopped(),
{
}

/// `stop` is idempotent: with nothing running it succeeds, asks for nothing
/// and changes nothing.
pub proof fn lemma_stop_is_idempotent(state: StateView)
    ensures
        start_model(Command::Stop, start_model(Command::Stop, state).0) == (
            StateView::stopped(),
            Progress::<Seq<char>>::Done(Ok(Payload::Done(Ack::Stopped))),
        ),
{
}

/// `initialize` and `status` read only: none of their steps changes the
/// state, and neither asks for anything but to read the hosts file.
pub proof fn lemma_queries_read_only(
    state: StateView,
    result: Result<Seq<char>, Seq<char>>,
    proxy_running: bool,
    process_supervised: bool,
)
    ensures
        start_model(Command::Initialize, state) == (
            state,
            Progress::<Seq<char>>::ReadHosts(ReadWait::Initialize),
        ),
        start_model(Command::Status, state).0 == state,
        start_model(Command::Status, state).1 is ReadHosts,
        read_model(ReadWait::Initialize, state, result).0 == state,
        read_model(ReadWait::Initialize, state, result).1 is Done,
        read_model(ReadWait::Status { proxy_running, process_supervised }, state, result).0
            == state,
        read_model(ReadWait::Status { proxy_running, process_supervised }, state, result).1
            is Done,
{
}

/// When `run` goes on from a table that it has read, the hosts file
/// redirects: either it asks for a table to be written that holds the
/// canonical line and redirects, or the table read holds that line already
/// and it asks for no write.
pub proof fn lemma_run_leaves_table_redirected(
    state: StateView,
    gateway_url: Seq<char>,
    table: Seq<char>,
)
    ensures
        match read_model(ReadWait::Run { gateway_url }, state, Ok(table)).1 {
            Progress::WriteHosts(written, _) => has_canonical_line(written) && redirects(written),
            next => !(next is Done) && has_canonical_line(table) && redirects(table),
        },
{
    lemma_add_redirects(table);
}

/// When `restore` goes on from a table that it has read, it asks for a table
/// to be written that does not redirect.
pub proof fn lemma_restore_leaves_table_clean(state: StateView, table: Seq<char>)
    ensures
        read_model(ReadWait::Restore, state, Ok(table)).1 matches Progress::WriteHosts(written, _)
            && !redirects(written),
{
    lemma_remove_clears(table);
}

} // verus!
