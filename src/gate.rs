//! Single-permit gate that keeps configuration-mutating requests from
//! running at the same time.
use vstd::prelude::*;

verus! {

/// The permit and the requester of the request holding it, if any.
pub struct MutationGate {
    pub holder: Option<u64>,
}

/// A request may take the permit.
pub open spec fn can_enter(g: MutationGate) -> bool {
    g.holder is None
}

/// Permit slot once `requester` has tried to take the permit.
pub open spec fn after_enter(g: MutationGate, requester: u64) -> MutationGate {
    if can_enter(g) {
        MutationGate { holder: Some(requester) }
    } else {
        g
    }
}

/// Permit slot once `requester` has released the permit; a request
/// that does not hold it changes nothing.
pub open spec fn after_leave(g: MutationGate, requester: u64) -> MutationGate {
    if g.holder == Some(requester) {
        MutationGate { holder: None }
    } else {
        g
    }
}

impl MutationGate {
    /// A gate whose permit is free.
    pub fn new() -> (g: MutationGate)
        ensures
            can_enter(g),
    {
        MutationGate { holder: None }
    }

    /// Takes the permit for `requester` if it is free; returns whether it did.
    pub fn try_enter(&mut self, requester: u64) -> (entered: bool)
        ensures
            entered == can_enter(*old(self)),
            *final(self) == after_enter(*old(self), requester),
    {
        match self.holder {
            None => {
                self.holder = Some(requester);
                true
            },
            Some(_) => false,
        }
    }

    /// Gives the permit back if `requester` holds it; returns whether it did.
    pub fn leave(&mut self, requester: u64) -> (left: bool)
        ensures
            left == (old(self).holder == Some(requester)),
            *final(self) == after_leave(*old(self), requester),
    {
        match self.holder {
            Some(t) => {
                if t == requester {
                    self.holder = None;
                    true
                } else {
                    false
                }
            },
            None => false,
        }
    }
}

/// Two mutating requests never hold the permit together: once `a` has
/// taken it, `b` cannot take it, nor free it, until `a` gives it back; after
/// that `b` can take it.
pub proof fn lemma_mutations_exclusive(g: MutationGate, a: u64, b: u64)
    requires
        can_enter(g),
        a != b,
    ensures
        after_enter(g, a).holder == Some(a),
        !can_enter(after_enter(g, a)),
        after_enter(after_enter(g, a), b) == after_enter(g, a),
        after_leave(after_enter(g, a), b) == after_enter(g, a),
        can_enter(after_leave(after_enter(g, a), a)),
        after_enter(after_leave(after_enter(g, a), a), b).holder == Some(b),
{
}

} // verus!
