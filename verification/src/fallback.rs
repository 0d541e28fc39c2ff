//! Trying alternatives in order until one succeeds.

use vstd::prelude::*;

verus! {

/// What to do next with a list of alternatives.
#[derive(Clone, Copy, PartialEq, Eq, Structural, Debug)]
pub enum Attempt {
    /// Try the alternative with this index and report how it went.
    Try(usize),
    /// This alternative succeeded; it is the one to use.
    Use(usize),
    /// All alternatives failed.
    GiveUp,
}

/// The first thing to do with `total` alternatives.
pub open spec fn first_attempt(total: usize) -> Attempt {
    if total == 0 {
        Attempt::GiveUp
    } else {
        Attempt::Try(0)
    }
}

/// What follows the outcome of an attempt.  Nothing follows once one succeeded or all failed.
pub open spec fn next_attempt(total: usize, at: Attempt, success: bool) -> Attempt {
    match at {
        Attempt::Try(i) => if success {
            Attempt::Use(i)
        } else if i + 1 < total {
            Attempt::Try((i + 1) as usize)
        } else {
            Attempt::GiveUp
        },
        _ => at,
    }
}

/// Where a list of outcomes leads.
pub open spec fn after(total: usize, outcomes: Seq<bool>) -> Attempt
    decreases outcomes.len(),
{
    if outcomes.len() == 0 {
        first_attempt(total)
    } else {
        next_attempt(total, after(total, outcomes.drop_last()), outcomes.last())
    }
}

/// A run through a list of alternatives.
#[derive(Clone, Copy, PartialEq, Eq, Structural, Debug)]
pub struct Fallback {
    pub total: usize,
    pub at: Attempt,
}

impl Fallback {
    /// Starts at the first alternative.
    pub fn new(total: usize) -> (r: Self)
        ensures
            r.total == total,
            r.at == first_attempt(total),
    {
        if total == 0 {
            Fallback { total, at: Attempt::GiveUp }
        } else {
            Fallback { total, at: Attempt::Try(0) }
        }
    }

    /// Takes the outcome of the current attempt and says what to do next.
    pub fn report(&mut self, success: bool) -> (r: Attempt)
        ensures
            final(self).total == old(self).total,
            final(self).at == next_attempt(old(self).total, old(self).at, success),
            r == final(self).at,
    {
        let next: Attempt = match self.at {
            Attempt::Try(i) => if success {
                Attempt::Use(i)
            } else if i < self.total && i + 1 < self.total {
                Attempt::Try(i + 1)
            } else {
                Attempt::GiveUp
            },
            Attempt::Use(i) => Attempt::Use(i),
            Attempt::GiveUp => Attempt::GiveUp,
        };
        self.at = next;
        next
    }
}

/// As long as nothing succeeded, the alternatives are tried one after the other, each once,
/// and the search is given up exactly when the last one failed.
pub proof fn lemma_all_failed(total: usize, outcomes: Seq<bool>)
    requires
        forall|i: int| 0 <= i < outcomes.len() ==> !#[trigger] outcomes[i],
    ensures
        outcomes.len() < total ==> after(total, outcomes) == Attempt::Try(outcomes.len() as usize),
        outcomes.len() >= total ==> after(total, outcomes) == Attempt::GiveUp,
    decreases outcomes.len(),
{
    if outcomes.len() > 0 {
        let before = outcomes.drop_last();
        assert forall|i: int| 0 <= i < before.len() implies !#[trigger] before[i] by {
            assert(before[i] == outcomes[i]);
        }
        lemma_all_failed(total, before);
        assert(!outcomes[outcomes.len() - 1]);
    }
}

/// The first alternative that succeeds is the one that is used, whatever comes after.
pub proof fn lemma_first_success(total: usize, outcomes: Seq<bool>, k: int)
    requires
        0 <= k < outcomes.len(),
        k < total,
        outcomes[k],
        forall|i: int| 0 <= i < k ==> !#[trigger] outcomes[i],
    ensures
        after(total, outcomes) == Attempt::Use(k as usize),
    decreases outcomes.len(),
{
    let before = outcomes.drop_last();
    if k < before.len() {
        assert(before[k] == outcomes[k]);
        assert forall|i: int| 0 <= i < k implies !#[trigger] before[i] by {
            assert(before[i] == outcomes[i]);
        }
        lemma_first_success(total, before, k);
    } else {
        assert forall|i: int| 0 <= i < before.len() implies !#[trigger] before[i] by {
            assert(before[i] == outcomes[i]);
        }
        lemma_all_failed(total, before);
    }
}

} // verus!
