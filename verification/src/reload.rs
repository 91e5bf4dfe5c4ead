//! Reloading the items of all search providers at once.

use vstd::prelude::*;

verus! {

/// How the reload of the items of one provider ended.
#[derive(Debug, Clone, Copy, PartialEq, Eq)]
pub enum ReloadOutcome {
    /// No provider is registered for the app, so that nothing was to be done.
    Skipped,
    /// The items were reloaded.
    Reloaded,
    /// The items could not be reloaded.
    Failed,
}

/// Why a reload of all providers failed.
#[derive(Debug, Clone, Copy, PartialEq, Eq)]
pub enum ReloadError {
    /// The items of some providers could not be reloaded.
    SomeFailed,
}

impl ReloadError {
    /// The message that tells of this error on the bus.
    pub fn message(&self) -> (message: &'static str)
        ensures
            message@ == "Failed to reload recent projects of some providers"@,
    {
        "Failed to reload recent projects of some providers"
    }
}

/// Whether one of the given reloads failed.
pub open spec fn some_failed(outcomes: Seq<ReloadOutcome>) -> bool {
    exists|at: int| 0 <= at < outcomes.len() && outcomes[at] is Failed
}

/// The interface that reloads the items of all providers at once.
#[derive(Debug)]
pub struct ReloadAll;

impl ReloadAll {
    /// Judge the reload of all providers by the reloads of each: it failed if one of
    /// them failed, however the others ended.
    pub fn reload_all(&self, outcomes: &[ReloadOutcome]) -> (result: Result<(), ReloadError>)
        ensures
            result is Err == some_failed(outcomes@),
    {
        let mut is_failed = false;
        let mut at: usize = 0;
        while at < outcomes.len()
            invariant
                at <= outcomes.len(),
                is_failed == some_failed(outcomes@.take(at as int)),
            decreases outcomes.len() - at,
        {
            let ghost seen = outcomes@.take(at as int);
            let ghost next = outcomes@.take(at + 1);
            match outcomes[at] {
                ReloadOutcome::Failed => {
                    is_failed = true;
                    assert(next[at as int] is Failed);
                },
                _ => {
                    proof {
                        if some_failed(seen) {
                            let found = choose|found: int| 0 <= found < seen.len() && seen[found] is Failed;
                            assert(next[found] is Failed);
                        }
                        if some_failed(next) {
                            let found = choose|found: int| 0 <= found < next.len() && next[found] is Failed;
                            assert(seen[found] is Failed);
                        }
                    }
                },
            }
            at += 1;
        }
        assert(outcomes@.take(at as int) =~= outcomes@);
        if is_failed {
            Err(ReloadError::SomeFailed)
        } else {
            Ok(())
        }
    }
}

} // verus!
