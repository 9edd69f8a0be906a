//! The run's state machine and the worker-loop driver.
//!
//! The run moves through discovery, an explicit confirmation gate,
//! concurrent processing, draining, and the final report. The caller
//! performs the outside work each action names and feeds the observed event
//! back into `run_step`.

use vstd::prelude::*;

use crate::cancel::CancellationGate;
use crate::partition::spec_claim;
use crate::partition::WorkPartitioner;

verus! {

/// Where the run stands.
#[derive(Clone, Copy, Debug)]
pub enum RunState {
    /// Parsing the listing into the discovered set.
    Discovering,
    /// The discovered counts are presented; the run waits for explicit
    /// confirmation before any copying.
    AwaitingConfirmation { links: usize, dirs: usize },
    /// Workers are claiming and flattening items.
    Processing { links: usize },
    /// No new work starts; workers finish their current items.
    Draining,
    /// The run is over; the totals are what the trackers reported.
    Done { items: u64, bytes: u64 },
}

/// What the outside work reported back.
#[derive(Clone, Copy, Debug)]
pub enum RunEvent {
    /// Discovery finished with this many links and directories.
    Discovered { links: usize, dirs: usize },
    /// Discovery failed before any copying.
    DiscoveryFailed,
    /// The confirmation prompt was answered.
    ConfirmationAnswer { affirmative: bool },
    /// Every worker has stopped claiming new items.
    ClaimsExhausted,
    /// Every worker has finished; the trackers report these totals.
    WorkersJoined { items: u64, bytes: u64 },
}

/// What the caller must do next.
#[derive(Clone, Copy, Debug)]
pub enum RunAction {
    /// Report the discovery failure and stop; nothing was copied.
    ReportDiscoveryError,
    /// Report that no links were found and stop; there is nothing to
    /// confirm and no worker to spawn.
    ReportNoLinks,
    /// Present the discovered counts and ask for confirmation.
    PromptConfirmation { links: usize, dirs: usize },
    /// Spawn the workers over the discovered set.
    SpawnWorkers { links: usize },
    /// Report that the run was declined; nothing was copied.
    ReportDeclined,
    /// Wait for the workers to finish their current items.
    AwaitWorkers,
    /// Report the final totals.
    ReportTotals { items: u64, bytes: u64 },
    /// The event does not apply in this state; do nothing.
    Ignore,
}

/// The transition table of the run: the next state and the action the
/// caller must take. Zero discovered links reach `Done` directly with no
/// confirmation and no workers; a declined confirmation reaches `Done`
/// directly with nothing processed.
pub open spec fn spec_run_step(state: RunState, event: RunEvent) -> (RunState, RunAction) {
    match (state, event) {
        (RunState::Discovering, RunEvent::DiscoveryFailed) => (
            RunState::Done { items: 0, bytes: 0 },
            RunAction::ReportDiscoveryError,
        ),
        (RunState::Discovering, RunEvent::Discovered { links, dirs }) => {
            if links == 0 {
                (RunState::Done { items: 0, bytes: 0 }, RunAction::ReportNoLinks)
            } else {
                (RunState::AwaitingConfirmation { links, dirs }, RunAction::PromptConfirmation {
                    links,
                    dirs,
                })
            }
        },
        (
            RunState::AwaitingConfirmation { links, dirs: _ },
            RunEvent::ConfirmationAnswer { affirmative },
        ) => {
            if affirmative {
                (RunState::Processing { links }, RunAction::SpawnWorkers { links })
            } else {
                (RunState::Done { items: 0, bytes: 0 }, RunAction::ReportDeclined)
            }
        },
        (RunState::Processing { links: _ }, RunEvent::ClaimsExhausted) => (
            RunState::Draining,
            RunAction::AwaitWorkers,
        ),
        (RunState::Draining, RunEvent::WorkersJoined { items, bytes }) => (
            RunState::Done { items, bytes },
            RunAction::ReportTotals { items, bytes },
        ),
        (s, _) => (s, RunAction::Ignore),
    }
}

/// Advance the run by one observed event.
pub fn run_step(state: RunState, event: RunEvent) -> (r: (RunState, RunAction))
    ensures
        r == spec_run_step(state, event),
{
    match (state, event) {
        (RunState::Discovering, RunEvent::DiscoveryFailed) => (
            RunState::Done { items: 0, bytes: 0 },
            RunAction::ReportDiscoveryError,
        ),
        (RunState::Discovering, RunEvent::Discovered { links, dirs }) => {
            if links == 0 {
                (RunState::Done { items: 0, bytes: 0 }, RunAction::ReportNoLinks)
            } else {
                (RunState::AwaitingConfirmation { links, dirs }, RunAction::PromptConfirmation {
                    links,
                    dirs,
                })
            }
        },
        (
            RunState::AwaitingConfirmation { links, dirs: _ },
            RunEvent::ConfirmationAnswer { affirmative },
        ) => {
            if affirmative {
                (RunState::Processing { links }, RunAction::SpawnWorkers { links })
            } else {
                (RunState::Done { items: 0, bytes: 0 }, RunAction::ReportDeclined)
            }
        },
        (RunState::Processing { links: _ }, RunEvent::ClaimsExhausted) => (
            RunState::Draining,
            RunAction::AwaitWorkers,
        ),
        (RunState::Draining, RunEvent::WorkersJoined { items, bytes }) => (
            RunState::Done { items, bytes },
            RunAction::ReportTotals { items, bytes },
        ),
        (s, _) => (s, RunAction::Ignore),
    }
}

/// Whether one line of interactive input confirms the run: anything whose
/// first character is the affirmative token, case-insensitively. A failed
/// or empty read is a decline.
pub fn is_affirmative(input: &Vec<char>) -> (r: bool)
    ensures
        r == (input@.len() > 0 && (input@[0] == 'y' || input@[0] == 'Y')),
{
    if input.len() == 0 {
        false
    } else {
        let c = input[0];
        c == 'y' || c == 'Y'
    }
}

/// A worker's next move.
#[derive(Clone, Copy, Debug)]
pub enum WorkerStep {
    /// Flatten the link at this index of the discovered set.
    Work { index: usize },
    /// Leave the loop: the set is exhausted or cancellation was requested.
    Stop,
}

/// One turn of a worker's loop over the discovered links: consult the
/// cancellation gate, then claim the next index. A cancelled gate stops the
/// worker before any new item; an exhausted cursor stops it cleanly.
pub fn process_symlinks(partitioner: &mut WorkPartitioner, gate: &CancellationGate) -> (s:
    WorkerStep)
    requires
        old(partitioner).wf(),
    ensures
        final(partitioner).wf(),
        final(partitioner).spec_limit() == old(partitioner).spec_limit(),
        gate.spec_is_cancelled() ==> s == WorkerStep::Stop && final(partitioner).spec_cursor()
            == old(partitioner).spec_cursor(),
        !gate.spec_is_cancelled() ==> ({
            let c = spec_claim(old(partitioner).spec_cursor(), old(partitioner).spec_limit());
            &&& final(partitioner).spec_cursor() == c.1
            &&& (match c.0 {
                Some(i) => s == (WorkerStep::Work { index: i as usize }),
                None => s == WorkerStep::Stop,
            })
        }),
{
    if gate.is_cancelled() {
        return WorkerStep::Stop;
    }
    match partitioner.claim() {
        Some(i) => WorkerStep::Work { index: i },
        None => WorkerStep::Stop,
    }
}

} // verus!
