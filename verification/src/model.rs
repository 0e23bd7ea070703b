//! The spec-level model of the cell.
//!
//! A [`CellView`] is the mathematical state of one allocated cell: its
//! payload and its three counters.  The spec functions here say when a guard
//! or a manual reference operation is allowed and what each operation does to
//! the state; the proof functions state the laws that hold of those
//! transitions.  A whole heap is modelled as a sequence of optional cells,
//! one entry per address ever allocated, `None` once the cell is freed.

use vstd::prelude::*;

verus! {

/// The state of one allocated cell: the payload together with the three
/// counters that the handle operations read and write.
pub struct CellView<T> {
    /// The payload value.
    pub value: T,
    /// How many owners (handles, or shares detached into a raw address)
    /// refer to the cell.
    pub ref_count: nat,
    /// How many read guards are outstanding.
    pub borrow_count: nat,
    /// How many registered write guards are outstanding.
    pub borrow_mut_count: nat,
}

/// The state of a freshly allocated cell: one owner, no guards.
pub open spec fn fresh_cell<T>(value: T) -> CellView<T> {
    CellView { value, ref_count: 1, borrow_count: 0, borrow_mut_count: 0 }
}

/// A read guard may be granted only while no write guard is outstanding.
pub open spec fn can_borrow<T>(c: CellView<T>) -> bool {
    c.borrow_mut_count == 0
}

/// A write guard may be granted only while no guard of either kind is
/// outstanding.
pub open spec fn can_borrow_mut<T>(c: CellView<T>) -> bool {
    c.borrow_count == 0 && c.borrow_mut_count == 0
}

/// A manual reference release is allowed only while more than one owner is
/// left: the last owner must go through the real destruction path.
pub open spec fn can_drop_ref<T>(c: CellView<T>) -> bool {
    c.ref_count > 1
}

/// The cell after a read guard is granted.
pub open spec fn after_borrow<T>(c: CellView<T>) -> CellView<T> {
    CellView { borrow_count: c.borrow_count + 1, ..c }
}

/// The cell after a read guard is released.
pub open spec fn after_borrow_release<T>(c: CellView<T>) -> CellView<T>
    recommends
        c.borrow_count >= 1,
{
    CellView { borrow_count: (c.borrow_count - 1) as nat, ..c }
}

/// The cell after a registered write guard is granted.
pub open spec fn after_borrow_mut<T>(c: CellView<T>) -> CellView<T> {
    CellView { borrow_mut_count: c.borrow_mut_count + 1, ..c }
}

/// The cell after a registered write guard is released.
pub open spec fn after_borrow_mut_release<T>(c: CellView<T>) -> CellView<T>
    recommends
        c.borrow_mut_count >= 1,
{
    CellView { borrow_mut_count: (c.borrow_mut_count - 1) as nat, ..c }
}

/// The cell after one more owner is added (a handle clone, a manual
/// reference clone, or a reattachment from a raw address).
pub open spec fn after_ref_inc<T>(c: CellView<T>) -> CellView<T> {
    CellView { ref_count: c.ref_count + 1, ..c }
}

/// The cell after one owner is removed without freeing it.
pub open spec fn after_ref_dec<T>(c: CellView<T>) -> CellView<T>
    recommends
        c.ref_count >= 1,
{
    CellView { ref_count: (c.ref_count - 1) as nat, ..c }
}

/// The cell after `n` read guards are granted, one after another.
pub open spec fn after_borrows<T>(c: CellView<T>, n: nat) -> CellView<T>
    decreases n,
{
    if n == 0 {
        c
    } else {
        after_borrow(after_borrows(c, (n - 1) as nat))
    }
}

/// Whether the heap holds a live (allocated and not yet freed) cell at
/// `addr`.
pub open spec fn live_at<T>(h: Seq<Option<CellView<T>>>, addr: int) -> bool {
    0 <= addr < h.len() && h[addr] is Some
}

/// The cell the heap holds at a live address.
pub open spec fn cell_at<T>(h: Seq<Option<CellView<T>>>, addr: int) -> CellView<T>
    recommends
        live_at(h, addr),
{
    h[addr].unwrap()
}

/// Every live cell is owned: its reference count never sits at zero, since
/// the transition to zero frees the cell at once.
pub open spec fn heap_wf<T>(h: Seq<Option<CellView<T>>>) -> bool {
    forall|a: int| #[trigger] live_at(h, a) ==> cell_at(h, a).ref_count >= 1
}

/// A freshly allocated cell holds the given payload, has exactly one owner,
/// and grants a read or a write guard at once; its one owner cannot be
/// manually released.
pub proof fn lemma_fresh_cell<T>(value: T)
    ensures
        fresh_cell(value).value == value,
        fresh_cell(value).ref_count == 1,
        can_borrow(fresh_cell(value)),
        can_borrow_mut(fresh_cell(value)),
        !can_drop_ref(fresh_cell(value)),
{
}

/// While a write guard is outstanding, no further guard of either kind is
/// granted; releasing the write guard restores the cell exactly, so a read
/// is granted again afterwards.
pub proof fn lemma_write_guard_excludes<T>(c: CellView<T>)
    requires
        can_borrow_mut(c),
    ensures
        !can_borrow(after_borrow_mut(c)),
        !can_borrow_mut(after_borrow_mut(c)),
        after_borrow_mut(c).value == c.value,
        after_borrow_mut_release(after_borrow_mut(c)) == c,
        can_borrow(after_borrow_mut_release(after_borrow_mut(c))),
{
}

/// While a read guard is outstanding, no write guard is granted; releasing
/// the read guard restores the cell exactly, so a write is granted once all
/// reads are gone precisely when it would have been before.
pub proof fn lemma_read_guard_excludes<T>(c: CellView<T>)
    ensures
        !can_borrow_mut(after_borrow(c)),
        after_borrow(c).value == c.value,
        after_borrow_release(after_borrow(c)) == c,
        can_borrow_mut(after_borrow_release(after_borrow(c))) == can_borrow_mut(c),
{
}

/// Read guards share: while no write guard is outstanding, any number of
/// read guards are granted one after another, all outstanding at once, and
/// none of them changes the payload, the owners, or the write count.
pub proof fn lemma_read_guards_share<T>(c: CellView<T>, n: nat)
    requires
        can_borrow(c),
    ensures
        can_borrow(after_borrows(c, n)),
        after_borrows(c, n).borrow_count == c.borrow_count + n,
        after_borrows(c, n).value == c.value,
        after_borrows(c, n).ref_count == c.ref_count,
        after_borrows(c, n).borrow_mut_count == c.borrow_mut_count,
    decreases n,
{
    if n > 0 {
        lemma_read_guards_share(c, (n - 1) as nat);
    }
}

/// Adding an owner raises the reference count by exactly one and touches
/// nothing else; removing that owner restores the cell exactly.
pub proof fn lemma_owner_roundtrip<T>(c: CellView<T>)
    ensures
        after_ref_inc(c).ref_count == c.ref_count + 1,
        after_ref_inc(c).value == c.value,
        after_ref_inc(c).borrow_count == c.borrow_count,
        after_ref_inc(c).borrow_mut_count == c.borrow_mut_count,
        after_ref_dec(after_ref_inc(c)) == c,
{
}

/// A freed address is dead and stays dead: the cell there is gone, so no
/// operation — every one of which needs a live address — can reach it again,
/// and in particular nothing can free it a second time.
pub proof fn lemma_freed_address_is_dead<T>(h: Seq<Option<CellView<T>>>, addr: int)
    requires
        0 <= addr < h.len(),
    ensures
        !live_at(h.update(addr, None), addr),
{
}

/// Replacing a live cell by an owned one keeps the heap well-formed.
pub broadcast proof fn lemma_wf_update<T>(h: Seq<Option<CellView<T>>>, addr: int, c: CellView<T>)
    requires
        heap_wf(h),
        0 <= addr < h.len(),
        c.ref_count >= 1,
    ensures
        #[trigger] heap_wf(h.update(addr, Some(c))),
{
    let h2 = h.update(addr, Some(c));
    assert forall|a: int| #[trigger] live_at(h2, a) implies cell_at(h2, a).ref_count >= 1 by {
        if a != addr {
            assert(live_at(h, a));
        }
    }
}

/// Freeing a cell keeps the heap well-formed.
pub broadcast proof fn lemma_wf_free<T>(h: Seq<Option<CellView<T>>>, addr: int)
    requires
        heap_wf(h),
        0 <= addr < h.len(),
    ensures
        #[trigger] heap_wf(h.update(addr, None)),
{
    let h2 = h.update(addr, None);
    assert forall|a: int| #[trigger] live_at(h2, a) implies cell_at(h2, a).ref_count >= 1 by {
        assert(live_at(h, a));
    }
}

/// Allocating an owned cell at a fresh address keeps the heap well-formed.
pub broadcast proof fn lemma_wf_push<T>(h: Seq<Option<CellView<T>>>, c: CellView<T>)
    requires
        heap_wf(h),
        c.ref_count >= 1,
    ensures
        #[trigger] heap_wf(h.push(Some(c))),
{
    let h2 = h.push(Some(c));
    assert forall|a: int| #[trigger] live_at(h2, a) implies cell_at(h2, a).ref_count >= 1 by {
        if a < h.len() {
            assert(live_at(h, a));
        }
    }
}

} // verus!
