//! Allowance guarantor: one approval per deficiency episode.
//!
//! The guarantor polls the spender's allowance until it clears the required
//! amount. While the allowance is short it submits exactly one approval for
//! exactly the required amount — never an unlimited approval, never a second
//! submission while the first is still pending — and otherwise only waits.
//! The process performs the polls and the submission; the decision which
//! action each observation calls for is taken here.

use vstd::prelude::*;

verus! {

/// What the guarantor asks the process to do after one poll.
#[derive(Debug, Clone, Copy, PartialEq, Eq, Structural)]
pub enum AllowanceAction {
    /// Submit one approval for exactly this amount.
    Submit { amount: u128 },
    /// An approval is already pending; sleep and poll again.
    Wait,
    /// The allowance clears the requirement; stop polling.
    Satisfied,
}

/// The guarantor's state across polls of one deficiency episode.
#[derive(Debug, Clone, Copy)]
pub struct AllowanceGuard {
    /// The allowance the episode must reach.
    pub required: u128,
    /// Whether this episode's single approval has been submitted.
    pub submitted: bool,
}

impl AllowanceGuard {
    /// Start an episode that must reach `required`.
    pub fn new(required: u128) -> (g: AllowanceGuard)
        ensures
            g.required == required,
            !g.submitted,
    {
        AllowanceGuard { required, submitted: false }
    }

    /// Decide the action for one observed allowance: satisfied once the
    /// observation clears the requirement; otherwise submit on the first
    /// short observation and wait on every later one.
    pub fn poll(&mut self, observed: u128) -> (a: AllowanceAction)
        ensures
            final(self).required == old(self).required,
            observed >= old(self).required ==> a == AllowanceAction::Satisfied
                && final(self).submitted == old(self).submitted,
            observed < old(self).required && !old(self).submitted ==> a
                == (AllowanceAction::Submit { amount: old(self).required })
                && final(self).submitted,
            observed < old(self).required && old(self).submitted ==> a == AllowanceAction::Wait
                && final(self).submitted,
    {
        if observed >= self.required {
            AllowanceAction::Satisfied
        } else if !self.submitted {
            self.submitted = true;
            AllowanceAction::Submit { amount: self.required }
        } else {
            AllowanceAction::Wait
        }
    }
}

/// Run one deficiency episode over a finite sequence of observed
/// allowances, polling in order and stopping at the first observation that
/// clears the requirement. Returns how many approvals were submitted and
/// whether the requirement was reached within the sequence.
///
/// Exactly one approval is submitted when the first observation is short,
/// and none otherwise — however many polls follow.
pub fn check_allowance(required: u128, observations: &Vec<u128>) -> (r: (u64, bool))
    ensures
        r.0 == if observations@.len() > 0 && observations@[0] < required {
            1int
        } else {
            0int
        },
        r.1 == exists|i: int| 0 <= i < observations@.len() && observations@[i] >= required,
{
    let mut guard = AllowanceGuard::new(required);
    let mut submissions: u64 = 0;
    let mut idx: usize = 0;
    while idx < observations.len()
        invariant
            idx <= observations@.len(),
            guard.required == required,
            submissions == if idx > 0 && observations@[0] < required {
                1int
            } else {
                0int
            },
            guard.submitted == (idx > 0 && observations@[0] < required),
            forall|i: int| 0 <= i < idx ==> observations@[i] < required,
        decreases observations@.len() - idx,
    {
        let action = guard.poll(observations[idx]);
        match action {
            AllowanceAction::Satisfied => {
                return (submissions, true);
            },
            AllowanceAction::Submit { amount: _ } => {
                submissions = submissions + 1;
            },
            AllowanceAction::Wait => {},
        }
        idx = idx + 1;
    }
    (submissions, false)
}

} // verus!
