//! What a reduction reports back: whether anything changed, and the work it
//! leaves for its caller.

use vstd::prelude::*;

verus! {

/// One piece of follow-up work for the caller to carry out. The engine never
/// looks inside: `id` is the caller's own key for the work.
#[derive(Clone, Copy, Debug, PartialEq, Eq)]
pub struct Effect {
    pub id: u64,
}

/// The outcome of a reduction: the follow-up work, in the order in which it
/// was asked for, and whether any visible state changed.
#[derive(Clone, Debug, PartialEq, Eq)]
pub struct Effects {
    pub effects: Vec<Effect>,
    pub has_changed: bool,
}

impl Effects {
    /// No follow-up work; the state counts as changed until `unchanged` says otherwise.
    pub fn none() -> (out: Effects)
        ensures
            out.effects@ == Seq::<Effect>::empty(),
            out.has_changed,
    {
        Effects { effects: Vec::new(), has_changed: true }
    }

    /// No follow-up work, and the state changed as `changed` says.
    pub fn of_change(changed: bool) -> (out: Effects)
        ensures
            out.effects@ == Seq::<Effect>::empty(),
            out.has_changed == changed,
    {
        if changed {
            Effects::none()
        } else {
            Effects::none().unchanged()
        }
    }

    /// The same follow-up work, marked as having changed nothing.
    pub fn unchanged(self) -> (out: Effects)
        ensures
            out.effects@ == self.effects@,
            !out.has_changed,
    {
        Effects { effects: self.effects, has_changed: false }
    }

    /// Both outcomes as one: the work of `self` followed by the work of
    /// `other`, changed if either was.
    pub fn join(self, other: Effects) -> (out: Effects)
        ensures
            out.effects@ == self.effects@ + other.effects@,
            out.has_changed == (self.has_changed || other.has_changed),
    {
        let mut effects = self.effects;
        let mut rest = other.effects;
        effects.append(&mut rest);
        Effects { effects, has_changed: self.has_changed || other.has_changed }
    }
}

} // verus!
