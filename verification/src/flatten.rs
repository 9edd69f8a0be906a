//! Per-item flattening decisions: the temporary sibling path, the
//! classification of copy failures, the bounded retry policy for transient
//! network errors, and the final verdict after the atomic rename.
//!
//! The filesystem work itself — copying, deleting the temporary file,
//! clearing and restoring the read-only attribute, renaming — is performed
//! by the caller, which reports each outcome back; every decision between
//! those steps is made and verified here.

use vstd::prelude::*;

use crate::text::copy_chars;

verus! {

/// OS error code for a network path that could not be found.
pub const NETWORK_PATH_NOT_FOUND: i32 = 53;

/// OS error code for a network name that could not be found.
pub const NETWORK_NAME_NOT_FOUND: i32 = 67;

/// How many times a transient copy failure is retried before it becomes
/// terminal for the item.
pub const DEFAULT_MAX_RETRIES: u32 = 3;

/// The fixed delay, in seconds, between retry attempts.
pub const RETRY_DELAY_SECONDS: u64 = 10;

/// The suffix appended to a link's path to form its temporary sibling.
pub open spec fn temp_suffix() -> Seq<char> {
    seq!['.', 't', 'e', 'm', 'p']
}

/// Derive the temporary sibling path for a link: the link's own path with
/// the temporary suffix appended, so the original extension stays visible.
pub fn temp_path_for(path: &Vec<char>) -> (r: Vec<char>)
    ensures
        r@ == path@ + temp_suffix(),
{
    let mut r = copy_chars(path);
    r.push('.');
    r.push('t');
    r.push('e');
    r.push('m');
    r.push('p');
    proof {
        assert(r@ =~= path@ + temp_suffix());
    }
    r
}

/// Is the OS error code in the transient network class that warrants a
/// retry?
pub open spec fn spec_is_transient(os_code: Option<i32>) -> bool {
    os_code == Some(NETWORK_PATH_NOT_FOUND) || os_code == Some(NETWORK_NAME_NOT_FOUND)
}

/// The configurable transient-error predicate: true exactly for the two
/// network-path-resolution codes.
pub fn is_transient_error(os_code: Option<i32>) -> (r: bool)
    ensures
        r == spec_is_transient(os_code),
{
    match os_code {
        Some(c) => c == NETWORK_PATH_NOT_FOUND || c == NETWORK_NAME_NOT_FOUND,
        None => false,
    }
}

/// What one copy attempt reported.
#[derive(Clone, Copy, Debug)]
pub enum CopyOutcome {
    /// The copy to the temporary path succeeded and moved this many bytes.
    Copied { bytes: u64 },
    /// The copy failed, with the raw OS error code when one was available.
    Failed { os_code: Option<i32> },
}

/// The terminal verdict for one item.
#[derive(Clone, Copy, Debug)]
pub enum FlattenResult {
    /// The link was replaced by a real copy of this many bytes.
    Success { bytes: u64 },
    /// Every attempt failed with a transient network code; the retry budget
    /// is spent and the item is given up.
    RetryableFailure { os_code: Option<i32> },
    /// The copy failed with a non-transient error; the item is given up at
    /// once.
    FatalFailure { os_code: Option<i32> },
    /// The copy succeeded but the atomic rename failed: the copied data
    /// sits orphaned at the temporary path for an operator to recover.
    RenameFailure,
}

/// What a worker must do next after reporting a copy outcome.
#[derive(Clone, Copy, Debug)]
pub enum CopyStep {
    /// The copy succeeded: clear the read-only attribute and rename the
    /// temporary file over the link.
    Proceed { bytes: u64 },
    /// Remove the temporary file, wait the fixed delay, and copy again.
    RetryAfterDelay,
    /// Remove the temporary file and give the item up with this verdict.
    Abandon { result: FlattenResult },
}

/// How one copy outcome advances the retry state: the step to take next and
/// the retries used afterwards. A retry is granted only for a transient
/// network failure, only while the budget lasts, and never once
/// cancellation was requested.
pub open spec fn spec_copy_step(
    retries_used: nat,
    max_retries: nat,
    outcome: CopyOutcome,
    cancelled: bool,
) -> (CopyStep, nat) {
    match outcome {
        CopyOutcome::Copied { bytes } => (CopyStep::Proceed { bytes }, retries_used),
        CopyOutcome::Failed { os_code } => {
            if spec_is_transient(os_code) {
                if !cancelled && retries_used < max_retries {
                    (CopyStep::RetryAfterDelay, retries_used + 1)
                } else {
                    (CopyStep::Abandon { result: FlattenResult::RetryableFailure { os_code } },
                    retries_used)
                }
            } else {
                (CopyStep::Abandon { result: FlattenResult::FatalFailure { os_code } },
                retries_used)
            }
        },
    }
}

/// The retry state of one item's copy stage.
pub struct RetryController {
    retries_used: u32,
    max_retries: u32,
}

impl RetryController {
    /// Retries granted so far for this item.
    pub closed spec fn spec_retries_used(&self) -> nat {
        self.retries_used as nat
    }

    /// The retry budget for this item.
    pub closed spec fn spec_max_retries(&self) -> nat {
        self.max_retries as nat
    }

    /// A fresh controller for one item, with the given retry budget and no
    /// retries used.
    pub fn new(max_retries: u32) -> (c: RetryController)
        ensures
            c.spec_retries_used() == 0,
            c.spec_max_retries() == max_retries as nat,
    {
        RetryController { retries_used: 0, max_retries }
    }

    /// Decide what to do after one copy attempt: proceed to the rename on
    /// success, grant a delayed retry for a transient failure within budget
    /// and while not cancelled, and abandon the item otherwise.
    pub fn on_copy_result(&mut self, outcome: &CopyOutcome, cancelled: bool) -> (s: CopyStep)
        ensures
            final(self).spec_max_retries() == old(self).spec_max_retries(),
            (s, final(self).spec_retries_used()) == spec_copy_step(
                old(self).spec_retries_used(),
                old(self).spec_max_retries(),
                *outcome,
                cancelled,
            ),
    {
        match *outcome {
            CopyOutcome::Copied { bytes } => CopyStep::Proceed { bytes },
            CopyOutcome::Failed { os_code } => {
                if is_transient_error(os_code) {
                    if !cancelled && self.retries_used < self.max_retries {
                        self.retries_used = self.retries_used + 1;
                        CopyStep::RetryAfterDelay
                    } else {
                        CopyStep::Abandon {
                            result: FlattenResult::RetryableFailure { os_code },
                        }
                    }
                } else {
                    CopyStep::Abandon { result: FlattenResult::FatalFailure { os_code } }
                }
            },
        }
    }
}

/// The verdict once the rename over the original link has been attempted:
/// success with the copied byte count, or the distinct rename failure that
/// leaves the data orphaned at the temporary path.
pub fn on_rename_result(renamed: bool, bytes: u64) -> (r: FlattenResult)
    ensures
        renamed ==> r == (FlattenResult::Success { bytes }),
        !renamed ==> r == FlattenResult::RenameFailure,
{
    if renamed {
        FlattenResult::Success { bytes }
    } else {
        FlattenResult::RenameFailure
    }
}

/// The whole copy stage of one item, replayed over the outcomes the
/// filesystem returns for successive attempts (cancellation not requested):
/// how many attempts are made and the step that ends the stage.
pub open spec fn spec_copy_run(
    outcomes: Seq<CopyOutcome>,
    retries_used: nat,
    max_retries: nat,
) -> (nat, CopyStep)
    decreases outcomes.len(),
{
    if outcomes.len() == 0 {
        (0, CopyStep::RetryAfterDelay)
    } else {
        let step = spec_copy_step(retries_used, max_retries, outcomes[0], false);
        if step.0 is RetryAfterDelay {
            let rest = spec_copy_run(outcomes.drop_first(), step.1, max_retries);
            (1 + rest.0, rest.1)
        } else {
            (1, step.0)
        }
    }
}

/// The outcome reports a failure in the transient network class.
pub open spec fn spec_outcome_transient(o: CopyOutcome) -> bool {
    match o {
        CopyOutcome::Failed { os_code } => spec_is_transient(os_code),
        CopyOutcome::Copied { .. } => false,
    }
}

/// The step ends the item with a terminal retryable-failure verdict.
pub open spec fn is_terminal_retryable(s: CopyStep) -> bool {
    match s {
        CopyStep::Abandon { result } => result is RetryableFailure,
        _ => false,
    }
}

proof fn lemma_retry_exhausted_from(outcomes: Seq<CopyOutcome>, used: nat, max_retries: nat)
    requires
        used <= max_retries,
        outcomes.len() > max_retries - used,
        forall|i: int| 0 <= i < outcomes.len() ==> spec_outcome_transient(#[trigger] outcomes[i]),
    ensures
        spec_copy_run(outcomes, used, max_retries).0 == max_retries - used + 1,
        is_terminal_retryable(spec_copy_run(outcomes, used, max_retries).1),
    decreases max_retries - used,
{
    assert(spec_outcome_transient(outcomes[0]));
    if used < max_retries {
        lemma_retry_exhausted_from(outcomes.drop_first(), used + 1, max_retries);
    }
}

/// Law: when every copy attempt fails with a transient network code and
/// more outcomes are available than the retry budget, the copy stage makes
/// exactly `max_retries + 1` attempts and then ends the item with a
/// terminal retryable failure — it neither retries further nor succeeds.
pub proof fn lemma_retry_budget_exhausted(outcomes: Seq<CopyOutcome>, max_retries: nat)
    requires
        outcomes.len() > max_retries,
        forall|i: int| 0 <= i < outcomes.len() ==> spec_outcome_transient(#[trigger] outcomes[i]),
    ensures
        spec_copy_run(outcomes, 0, max_retries).0 == max_retries + 1,
        is_terminal_retryable(spec_copy_run(outcomes, 0, max_retries).1),
{
    lemma_retry_exhausted_from(outcomes, 0, max_retries);
}

/// The verdict of one whole item: the copy stage replayed over its
/// outcomes, then — when the stage proceeds — the rename the caller
/// performed. An item whose outcomes run out mid-stage has no verdict and
/// is treated as an exhausted retryable failure.
pub open spec fn spec_item_verdict(
    outcomes: Seq<CopyOutcome>,
    max_retries: nat,
    renamed: bool,
) -> FlattenResult {
    match spec_copy_run(outcomes, 0, max_retries).1 {
        CopyStep::Proceed { bytes } => if renamed {
            FlattenResult::Success { bytes }
        } else {
            FlattenResult::RenameFailure
        },
        CopyStep::Abandon { result } => result,
        CopyStep::RetryAfterDelay => FlattenResult::RetryableFailure { os_code: None },
    }
}

proof fn lemma_copy_run_success_at(
    outcomes: Seq<CopyOutcome>,
    used: nat,
    max_retries: nat,
    k: nat,
    bytes: u64,
)
    requires
        used + k <= max_retries,
        k < outcomes.len(),
        forall|i: int| 0 <= i < k ==> spec_outcome_transient(#[trigger] outcomes[i]),
        outcomes[k as int] == (CopyOutcome::Copied { bytes }),
    ensures
        spec_copy_run(outcomes, used, max_retries).0 == k + 1,
        spec_copy_run(outcomes, used, max_retries).1 == (CopyStep::Proceed { bytes }),
    decreases k,
{
    if k == 0 {
    } else {
        assert(spec_outcome_transient(outcomes[0]));
        let rest = outcomes.drop_first();
        assert(forall|i: int| 0 <= i < k - 1 ==> spec_outcome_transient(#[trigger] rest[i]));
        assert(rest[k - 1] == outcomes[k as int]);
        lemma_copy_run_success_at(rest, used + 1, max_retries, (k - 1) as nat, bytes);
    }
}

/// Law: when at most the budget's worth of copy attempts fail with a
/// transient network code and the next attempt succeeds, and the rename
/// over the link lands, the item's verdict is success with that attempt's
/// byte count, reached after exactly `k + 1` attempts — no failure is
/// surfaced for the item.
pub proof fn lemma_transients_then_success(
    outcomes: Seq<CopyOutcome>,
    max_retries: nat,
    k: nat,
    bytes: u64,
)
    requires
        k <= max_retries,
        k < outcomes.len(),
        forall|i: int| 0 <= i < k ==> spec_outcome_transient(#[trigger] outcomes[i]),
        outcomes[k as int] == (CopyOutcome::Copied { bytes }),
    ensures
        spec_copy_run(outcomes, 0, max_retries).0 == k + 1,
        spec_item_verdict(outcomes, max_retries, true) == (FlattenResult::Success { bytes }),
{
    lemma_copy_run_success_at(outcomes, 0, max_retries, k, bytes);
}

} // verus!
