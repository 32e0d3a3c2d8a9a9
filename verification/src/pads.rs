use vstd::prelude::*;

verus! {

/// The ownership token for one engine-allocated pad list: a null-terminated,
/// singly-linked chain of unresolved pad descriptors used during graph
/// assembly.
///
/// The engine's ownership contract for these chains depends on the status
/// code of the call they are handed to, so the token records exactly one
/// fact: whether this side still owns the chain and therefore owes it one
/// release.  While the token is releasable, releasing it hands the whole
/// chain (every descriptor reachable through its next pointer) to the
/// engine's recursive free routine exactly once.  Once the token is
/// disarmed — by an explicit `disarm` or by a successful parse, which
/// transfers the chain into the engine's own bookkeeping — no release is
/// permitted any more: the memory is no longer this side's to free.
///
/// The token is deliberately neither copyable nor clonable: duplicating an
/// armed token would duplicate the release obligation it stands for.
///
/// A chain structurally references nodes owned by a graph container, but the
/// token does not tie itself to the container's lifetime; the engine leaves
/// that binding open, and the unverified boundary must not touch a chain
/// after releasing the container it was assembled against.
#[derive(Debug)]
pub struct PadList {
    armed: bool,
}

impl PadList {
    /// Whether this side still owns the underlying chain and owes it
    /// exactly one release.
    pub closed spec fn releasable(self) -> bool {
        self.armed
    }

    /// The token after a release or a disarm: the same chain, no longer
    /// owned by this side.
    pub closed spec fn spec_released(self) -> PadList {
        PadList { armed: false }
    }

    /// Creates the token for a freshly engine-allocated chain owned by the
    /// caller: the single descriptor made by explicit creation, or an
    /// unresolved chain handed back by a parse.  A descriptor's name is
    /// duplicated into engine-owned memory at allocation, so the token
    /// carries no borrowed dependency on the caller's string.
    pub fn new() -> (p: PadList)
        ensures
            p.releasable(),
    {
        PadList { armed: true }
    }

    /// Reports whether the chain is still owned by this side.
    pub fn is_releasable(&self) -> (b: bool)
        ensures
            b == self.releasable(),
    {
        self.armed
    }

    /// Releases the chain: hands it to the engine's recursive free routine,
    /// which walks and frees every descriptor in it.  Only an owned chain
    /// may be released, and the token is consumed by it, so the chain can
    /// be freed neither twice nor after an ownership transfer.
    pub fn release(&mut self)
        requires
            old(self).releasable(),
        ensures
            *final(self) == old(self).spec_released(),
            !final(self).releasable(),
    {
        self.armed = false;
    }

    /// Disarms the token without freeing anything: the engine has taken
    /// ownership of the chain (a successful parse does this), so the
    /// token's release obligation is cancelled.
    pub fn disarm(&mut self)
        ensures
            *final(self) == old(self).spec_released(),
            !final(self).releasable(),
    {
        self.armed = false;
    }
}

/// What a parse call does to the ownership of a pad-list argument, as a
/// relation between the token before the call, the token after it, and
/// whether the call succeeded: success always transfers the chain to the
/// engine, failure always leaves the ownership exactly as it was.
pub open spec fn parse_consumes(before: PadList, after: PadList, ok: bool) -> bool {
    if ok {
        !after.releasable()
    } else {
        after.releasable() == before.releasable()
    }
}

/// Ownership of a pad-list chain is linear.  A chain handed to a parse
/// call that succeeded can never be released by the caller again; a chain
/// handed to a parse call that failed is still owned and can be released
/// exactly once — the first release consumes the token, and a consumed
/// token never satisfies the release precondition again.
pub proof fn lemma_parse_ownership_discipline(before: PadList, after: PadList, ok: bool)
    requires
        before.releasable(),
        parse_consumes(before, after, ok),
    ensures
        ok ==> !after.releasable(),
        !ok ==> after.releasable() && !after.spec_released().releasable(),
{
}

} // verus!
