use vstd::prelude::*;

verus! {

/// What one non-blocking read or write attempt came to.
#[derive(Clone, Copy, Debug, PartialEq, Eq, Structural)]
pub enum Attempt {
    /// This many bytes moved.
    Transferred(usize),
    /// Nothing could move now; readiness has to be awaited again.
    WouldBlock,
}

/// What a handler draining a resource does after an attempt.
#[derive(Clone, Copy, Debug, PartialEq, Eq, Structural)]
pub enum Step {
    /// Try again at once: the resource may still be ready.
    Continue,
    /// Stop and wait for the next notification.
    Wait,
    /// The whole amount has moved.
    Complete,
    /// Nothing moved although room was offered: the peer has closed.
    Ended,
}

/// The progress of moving a fixed number of bytes through a non-blocking
/// resource under edge-triggered notification: each notification is drained
/// until the resource would block or the amount is reached.
pub struct Transfer {
    done: usize,
    target: usize,
}

impl Transfer {
    #[verifier::type_invariant]
    spec fn inv(self) -> bool {
        self.done <= self.target
    }

    pub closed spec fn done(self) -> nat {
        self.done as nat
    }

    pub closed spec fn target(self) -> nat {
        self.target as nat
    }

    /// The step that follows moving `n` bytes when `done` bytes of `target`
    /// had moved before.
    pub open spec fn next_step(done: nat, target: nat, attempt: Attempt) -> Step {
        match attempt {
            Attempt::WouldBlock => Step::Wait,
            Attempt::Transferred(n) => if done + n == target {
                Step::Complete
            } else if n == 0 {
                Step::Ended
            } else {
                Step::Continue
            },
        }
    }

    pub fn new(target: usize) -> (r: Transfer)
        ensures
            r.done() == 0,
            r.target() == target,
    {
        Transfer { done: 0, target }
    }

    pub fn done_bytes(&self) -> (r: usize)
        ensures
            r == self.done(),
    {
        self.done
    }

    pub fn remaining(&self) -> (r: usize)
        ensures
            r == self.target() - self.done(),
    {
        proof {
            use_type_invariant(self);
        }
        self.target - self.done
    }

    pub fn is_complete(&self) -> (r: bool)
        ensures
            r == (self.done() == self.target()),
    {
        self.done == self.target
    }

    /// How many bytes the next attempt may move, given a buffer of `buf_len`
    /// bytes: never more than what is left, so the total cannot overshoot.
    pub fn window(&self, buf_len: usize) -> (r: usize)
        ensures
            r <= buf_len,
            r <= self.target() - self.done(),
            r == buf_len || r == self.target() - self.done(),
    {
        let left = self.remaining();
        if buf_len < left {
            buf_len
        } else {
            left
        }
    }

    /// Records an attempt; an attempt moves at most what is left.
    pub fn record(&mut self, attempt: Attempt) -> (r: Step)
        requires
            attempt matches Attempt::Transferred(n) ==> n <= old(self).target() - old(
                self,
            ).done(),
        ensures
            final(self).target() == old(self).target(),
            final(self).done() <= final(self).target(),
            final(self).done() == old(self).done() + amount(attempt),
            r == Transfer::next_step(old(self).done(), old(self).target(), attempt),
    {
        proof {
            use_type_invariant(&*self);
        }
        match attempt {
            Attempt::WouldBlock => Step::Wait,
            Attempt::Transferred(n) => {
                self.done = self.done + n;
                if self.done == self.target {
                    Step::Complete
                } else if n == 0 {
                    Step::Ended
                } else {
                    Step::Continue
                }
            },
        }
    }
}

/// The bytes that an attempt moved.
pub open spec fn amount(a: Attempt) -> nat {
    match a {
        Attempt::Transferred(n) => n as nat,
        Attempt::WouldBlock => 0,
    }
}

/// The bytes that a run of attempts moved, in all.
pub open spec fn moved(s: Seq<Attempt>) -> nat
    decreases s.len(),
{
    if s.len() == 0 {
        0
    } else {
        moved(s.drop_last()) + amount(s.last())
    }
}

/// Across any run of recorded attempts, starting from a fresh transfer, the
/// count of bytes done is exactly the sum of what each attempt moved: no byte
/// is lost or counted twice.
pub proof fn lemma_done_is_sum_of_attempts(done: Seq<nat>, attempts: Seq<Attempt>)
    requires
        done.len() == attempts.len() + 1,
        done[0] == 0,
        forall|i: int| 0 <= i < attempts.len() ==> done[i + 1] == done[i] + amount(#[trigger] attempts[i]),
    ensures
        done.last() == moved(attempts),
    decreases attempts.len(),
{
    if attempts.len() > 0 {
        let k = attempts.len() - 1;
        assert(done[k + 1] == done[k] + amount(attempts[k]));
        lemma_done_is_sum_of_attempts(done.drop_last(), attempts.drop_last());
        assert(attempts.drop_last().len() == k);
    }
}

} // verus!
