//! The dispatch policy's guarantees, stated and proved over the scan model.

use vstd::prelude::*;

use crate::registry::{after_scan, init_result, scan_one, selected, Entity, Registration, Registry};

verus! {

/// Order preservation: callbacks registered for a family, in some order, are
/// broadcast in exactly that order, every time. When registrations append
/// `cbs` to a registry's reset sequence, the broadcast order holds them
/// after everything registered before, consecutively and in the order given.
pub proof fn lemma_reset_order_preserved(before: Registry, after: Registry, cbs: Seq<u64>)
    requires
        after.reset_seq() == before.reset_seq() + cbs,
    ensures
        after.reset_seq().len() == before.reset_seq().len() + cbs.len(),
        forall|i: int|
            0 <= i < cbs.len() ==> after.reset_seq()[before.reset_seq().len() + i] == cbs[i],
        forall|i: int|
            0 <= i < before.reset_seq().len() ==> after.reset_seq()[i] == before.reset_seq()[i],
{
}

/// Last-match-wins: when index `j` holds the last registration whose kind
/// matches, the scan selects that registration's replacement — every earlier
/// matching registration is shadowed.
pub proof fn lemma_last_match_wins(regs: Seq<Registration>, kind: i32, original: u64, j: int)
    requires
        0 <= j < regs.len(),
        regs[j].kind == kind,
        forall|k: int| j < k < regs.len() ==> regs[k].kind != kind,
    ensures
        selected(regs, kind, original) == regs[j].replacement,
    decreases regs.len(),
{
    if j == regs.len() - 1 {
        assert(regs.last() == regs[j]);
    } else {
        assert(regs.last().kind != kind);
        lemma_last_match_wins(regs.drop_last(), kind, original, j);
    }
}

/// No-match passthrough: when no registration's kind matches, the scan
/// leaves the pristine original function in place.
pub proof fn lemma_no_match_passthrough(regs: Seq<Registration>, kind: i32, original: u64)
    requires
        forall|k: int| 0 <= k < regs.len() ==> regs[k].kind != kind,
    ensures
        selected(regs, kind, original) == original,
    decreases regs.len(),
{
    if regs.len() > 0 {
        lemma_no_match_passthrough(regs.drop_last(), kind, original);
    }
}

/// Original capture: after a scan for `kind`, every matching registration
/// that supplied a capture cell holds exactly the pristine original address —
/// never another registration's replacement — however many other
/// registrations for the same kind exist.
pub proof fn lemma_original_capture(regs: Seq<Registration>, kind: i32, original: u64, i: int)
    requires
        0 <= i < regs.len(),
        regs[i].kind == kind,
        regs[i].wants_original,
    ensures
        after_scan(regs, kind, original)[i].captured == Some(original),
{
    assert(after_scan(regs, kind, original)[i] == scan_one(regs[i], kind, original));
}

/// A scan touches no capture cell of another kind, and none of a
/// registration that supplied no cell: such registrations come out of the
/// scan exactly as they went in.
pub proof fn lemma_scan_preserves_others(regs: Seq<Registration>, kind: i32, original: u64, i: int)
    requires
        0 <= i < regs.len(),
        !(regs[i].kind == kind && regs[i].wants_original),
    ensures
        after_scan(regs, kind, original)[i] == regs[i],
{
    assert(after_scan(regs, kind, original)[i] == scan_one(regs[i], kind, original));
}

/// Per-instance stabilization: once an implementation is installed in an
/// entity's own dispatch slot, the outcome of any later initialization is
/// that implementation, whatever the registry holds by then and whatever
/// original is resolved.
pub proof fn lemma_per_instance_stabilization(
    regs1: Seq<Registration>,
    regs2: Seq<Registration>,
    e: Entity,
    original1: u64,
    original2: u64,
)
    requires
        e.installed is Some,
    ensures
        init_result(regs1, e, original1) == e.installed->0,
        init_result(regs1, e, original1) == init_result(regs2, e, original2),
{
}

} // verus!
