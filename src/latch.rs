use vstd::prelude::*;

verus! {

/// Value that a zero-wait queue receive returns when a notification was taken.
pub const RECEIVE_TAKEN: i32 = 1;

/// The single-slot notification that the interrupt handler posts and the
/// polling loop drains. Posting onto a pending slot changes nothing, so any
/// number of edges between two drains collapses into one notification.
#[derive(Clone, Copy, Debug, PartialEq, Eq, Structural)]
pub struct Latch {
    pub pending: bool,
}

/// The slot after one post.
pub open spec fn posted(l: Latch) -> Latch {
    Latch { pending: true }
}

/// The slot after `n` posts.
pub open spec fn posted_n(l: Latch, n: nat) -> Latch
    decreases n,
{
    if n == 0 {
        l
    } else {
        posted(posted_n(l, (n - 1) as nat))
    }
}

impl Latch {
    /// An empty slot.
    pub fn new() -> (r: Latch)
        ensures
            !r.pending,
    {
        Latch { pending: false }
    }

    /// Posts a notification; an already pending one stays as it is.
    pub fn fire(&mut self)
        ensures
            *final(self) == posted(*old(self)),
    {
        self.pending = true;
    }

    /// Takes the pending notification, if any, without waiting.
    pub fn take(&mut self) -> (pressed: bool)
        ensures
            pressed == old(self).pending,
            !final(self).pending,
    {
        let pressed = self.pending;
        self.pending = false;
        pressed
    }
}

/// Turns the outcome of a zero-wait receive on the notification queue into a
/// press event: only a taken notification counts, every other outcome is no
/// event.
pub fn press_from_receive(res: i32) -> (pressed: bool)
    ensures
        pressed == (res == RECEIVE_TAKEN),
{
    res == RECEIVE_TAKEN
}

/// Between two drains, any number of posts yields exactly one press at the
/// second drain when there was at least one post, and none otherwise; the slot
/// is empty again afterwards.
pub proof fn lemma_edges_coalesce(drained: Latch, n: nat)
    requires
        !drained.pending,
    ensures
        posted_n(drained, n).pending == (n > 0),
    decreases n,
{
    if n > 0 {
        lemma_edges_coalesce(drained, (n - 1) as nat);
    }
}

} // verus!
