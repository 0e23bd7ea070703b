//! The executable cell: an arena of addressed slots, the shared-ownership
//! handle, the read and write guards, and the error taxonomy.
//!
//! Every allocation lives in a [`Heap`]: one slot per cell, addressed by the
//! index at which it was allocated.  A handle or guard holds only that
//! address, so aliasing handles are plain values and every operation takes
//! the heap it works on.  A freed slot stays empty and its address is never
//! reused, so a stale address names a provably dead cell.
//!
//! Because every operation takes the heap exclusively, a conflict check and
//! the counter change it authorizes form one indivisible step: no other
//! access to the same heap can fall between them.

use vstd::prelude::*;
use vstd::pervasive::unreached;
use core::marker::PhantomData;
use crate::model::CellView;
use crate::model::fresh_cell;
use crate::model::can_borrow;
use crate::model::can_borrow_mut;
use crate::model::can_drop_ref;
use crate::model::after_borrow;
use crate::model::after_borrow_release;
use crate::model::after_borrow_mut;
use crate::model::after_borrow_mut_release;
use crate::model::after_ref_inc;
use crate::model::after_ref_dec;
use crate::model::live_at;
use crate::model::cell_at;
use crate::model::heap_wf;
use crate::model::lemma_wf_push;
use crate::model::lemma_wf_update;
use crate::model::lemma_wf_free;

verus! {

broadcast use lemma_wf_push, lemma_wf_update, lemma_wf_free;

/// One shared allocation: the payload and the three counters.
pub struct Inner<T> {
    data: T,
    ref_count: usize,
    borrow_count: usize,
    borrow_mut_count: usize,
}

impl<T> View for Inner<T> {
    type V = CellView<T>;

    closed spec fn view(&self) -> CellView<T> {
        CellView {
            value: self.data,
            ref_count: self.ref_count as nat,
            borrow_count: self.borrow_count as nat,
            borrow_mut_count: self.borrow_mut_count as nat,
        }
    }
}

impl<T> Inner<T> {
    /// Wraps a payload with a reference count of one and no outstanding
    /// guards.
    pub fn new(data: T) -> (inner: Inner<T>)
        ensures
            inner@ == fresh_cell(data),
    {
        Inner { data, ref_count: 1, borrow_count: 0, borrow_mut_count: 0 }
    }
}

/// The arena every cell is allocated in.  It stands for the heap: a slot per
/// allocation, addressed by index, emptied when the last owner goes away and
/// never reused.
pub struct Heap<T> {
    slots: Vec<Option<Inner<T>>>,
}

impl<T> View for Heap<T> {
    type V = Seq<Option<CellView<T>>>;

    closed spec fn view(&self) -> Seq<Option<CellView<T>>> {
        Seq::new(
            self.slots@.len(),
            |i: int|
                match self.slots@[i] {
                    Some(inner) => Some(inner@),
                    None => None,
                },
        )
    }
}

impl<T> Heap<T> {
    /// Whether a live (allocated and not yet freed) cell sits at `addr`.
    pub open spec fn live(&self, addr: int) -> bool {
        live_at(self@, addr)
    }

    /// The cell at a live address.
    pub open spec fn cell(&self, addr: int) -> CellView<T> {
        cell_at(self@, addr)
    }

    /// Every live cell is owned.
    pub open spec fn wf(&self) -> bool {
        heap_wf(self@)
    }

    /// An empty heap with nothing allocated.
    pub fn new() -> (heap: Heap<T>)
        ensures
            heap@.len() == 0,
            heap.wf(),
    {
        let heap = Heap { slots: Vec::new() };
        proof {
            assert forall|a: int| #[trigger] live_at(heap@, a) implies cell_at(heap@, a).ref_count
                >= 1 by {}
        }
        heap
    }

    /// A reference to the slot at a live address.
    fn slot_ref(&self, addr: usize) -> (inner: &Inner<T>)
        requires
            self.live(addr as int),
        ensures
            inner@ == self.cell(addr as int),
    {
        match &self.slots[addr] {
            Some(inner) => inner,
            None => unreached(),
        }
    }

    /// A mutable reference to the slot at a live address.
    fn slot_mut(&mut self, addr: usize) -> (inner: &mut Inner<T>)
        requires
            old(self).live(addr as int),
        ensures
            *inner == old(self).cell_inner(addr as int),
            final(self)@ == old(self)@.update(addr as int, Some((*final(inner))@)),
    {
        match &mut self.slots[addr] {
            Some(inner) => inner,
            None => unreached(),
        }
    }

    /// The concrete slot contents at a live address; its view is the cell.
    closed spec fn cell_inner(&self, addr: int) -> Inner<T> {
        self.slots@[addr].unwrap()
    }
}

/// The three recoverable failure kinds of the handle's surface.
#[derive(Clone, Copy, Debug, PartialEq, Eq, Structural)]
pub enum ArcUnsafeRefCellError {
    /// A read or a manual reference clone was attempted while a write guard
    /// is outstanding.
    BorrowError,
    /// A write borrow was attempted while a read or a write guard is
    /// outstanding.
    BorrowMutError,
    /// A manual reference release was attempted on the last owner.
    UnableToDrop,
}

impl ArcUnsafeRefCellError {
    /// The failure kind's name, for reporting by the caller.
    pub fn describe(&self) -> (s: &'static str)
        ensures
            s@ == match *self {
                ArcUnsafeRefCellError::BorrowError => "BorrowError"@,
                ArcUnsafeRefCellError::BorrowMutError => "BorrowMutError"@,
                ArcUnsafeRefCellError::UnableToDrop => "UnableToDrop"@,
            },
    {
        match self {
            ArcUnsafeRefCellError::BorrowError => "BorrowError",
            ArcUnsafeRefCellError::BorrowMutError => "BorrowMutError",
            ArcUnsafeRefCellError::UnableToDrop => "UnableToDrop",
        }
    }
}

/// A read guard: proof that one share of the cell's read count was taken.
/// It must be released on the heap it was granted on, while the cell is
/// still live; the granting handle's owner is responsible for that, as the
/// guard itself holds no ownership share.
pub struct UnsafeRef<T> {
    addr: usize,
    marker: PhantomData<T>,
}

impl<T> UnsafeRef<T> {
    /// The address of the cell this guard reads.
    pub closed spec fn id(&self) -> int {
        self.addr as int
    }

    /// Read access to the payload for the guard's lifetime.
    pub fn deref<'a>(&self, heap: &'a Heap<T>) -> (value: &'a T)
        requires
            heap.live(self.id()),
        ensures
            *value == heap.cell(self.id()).value,
    {
        &heap.slot_ref(self.addr).data
    }

    /// Releases the guard's share of the read count.
    pub fn release(self, heap: &mut Heap<T>)
        requires
            old(heap).wf(),
            old(heap).live(self.id()),
            old(heap).cell(self.id()).borrow_count >= 1,
        ensures
            final(heap).wf(),
            final(heap)@ == old(heap)@.update(
                self.id(),
                Some(after_borrow_release(old(heap).cell(self.id()))),
            ),
    {
        let inner = heap.slot_mut(self.addr);
        inner.borrow_count = inner.borrow_count - 1;
    }
}

/// A write guard: proof that the cell's write count was taken, unless it
/// came through the unregistered escape hatch, in which case releasing it
/// is a no-op and nothing records its existence.
pub struct UnsafeRefMut<T> {
    addr: usize,
    drop_mut: bool,
    marker: PhantomData<T>,
}

impl<T> UnsafeRefMut<T> {
    /// The address of the cell this guard writes.
    pub closed spec fn id(&self) -> int {
        self.addr as int
    }

    /// Whether the guard registered itself in the write count and so must
    /// release it.
    pub closed spec fn registered(&self) -> bool {
        self.drop_mut
    }

    /// Read access to the payload for the guard's lifetime.
    pub fn deref<'a>(&self, heap: &'a Heap<T>) -> (value: &'a T)
        requires
            heap.live(self.id()),
        ensures
            *value == heap.cell(self.id()).value,
    {
        &heap.slot_ref(self.addr).data
    }

    /// Write access to the payload: the cell keeps its counters and takes
    /// whatever value is left behind the returned reference.
    pub fn deref_mut<'a>(&self, heap: &'a mut Heap<T>) -> (value: &'a mut T)
        requires
            old(heap).wf(),
            old(heap).live(self.id()),
        ensures
            *value == old(heap).cell(self.id()).value,
            final(heap)@ == old(heap)@.update(
                self.id(),
                Some(CellView { value: *final(value), ..old(heap).cell(self.id()) }),
            ),
            final(heap).wf(),
    {
        let inner = heap.slot_mut(self.addr);
        &mut inner.data
    }

    /// Releases the guard's share of the write count; a no-op for an
    /// unregistered guard.
    pub fn release(self, heap: &mut Heap<T>)
        requires
            old(heap).wf(),
            old(heap).live(self.id()),
            self.registered() ==> old(heap).cell(self.id()).borrow_mut_count >= 1,
        ensures
            final(heap).wf(),
            self.registered() ==> final(heap)@ == old(heap)@.update(
                self.id(),
                Some(after_borrow_mut_release(old(heap).cell(self.id()))),
            ),
            !self.registered() ==> final(heap)@ == old(heap)@,
    {
        if self.drop_mut {
            let inner = heap.slot_mut(self.addr);
            inner.borrow_mut_count = inner.borrow_mut_count - 1;
        }
    }
}

/// The shared-ownership handle: a plain value naming one cell of the heap.
/// Many handles may alias one cell; each owns one share of its reference
/// count.
pub struct ArcUnsafeRefCellWrapper<T> {
    addr: usize,
    marker: PhantomData<T>,
}

impl<T> ArcUnsafeRefCellWrapper<T> {
    /// The address of the cell this handle names.
    pub closed spec fn id(&self) -> int {
        self.addr as int
    }

    /// Allocates a fresh cell holding `data`, owned by the returned handle
    /// alone.  Never fails.
    pub fn new(heap: &mut Heap<T>, data: T) -> (handle: Self)
        requires
            old(heap).wf(),
        ensures
            final(heap).wf(),
            handle.id() == old(heap)@.len(),
            final(heap)@ == old(heap)@.push(Some(fresh_cell(data))),
    {
        let addr = heap.slots.len();
        let inner = Inner::new(data);
        heap.slots.push(Some(inner));
        proof {
            assert(heap@ =~= old(heap)@.push(Some(fresh_cell(data))));
        }
        ArcUnsafeRefCellWrapper { addr, marker: PhantomData }
    }

    /// Grants a read guard, unless a write guard is outstanding.  The guard
    /// takes one share of the read count and must be released on this heap.
    pub fn borrow(&self, heap: &mut Heap<T>) -> (r: Result<UnsafeRef<T>, ArcUnsafeRefCellError>)
        requires
            old(heap).wf(),
            old(heap).live(self.id()),
            old(heap).cell(self.id()).borrow_count < usize::MAX,
        ensures
            final(heap).wf(),
            !can_borrow(old(heap).cell(self.id())) ==> (r matches Err(
                ArcUnsafeRefCellError::BorrowError,
            ) && final(heap)@ == old(heap)@),
            can_borrow(old(heap).cell(self.id())) ==> (r matches Ok(guard) && guard.id()
                == self.id() && final(heap)@ == old(heap)@.update(
                self.id(),
                Some(after_borrow(old(heap).cell(self.id()))),
            )),
    {
        if heap.slot_ref(self.addr).borrow_mut_count > 0 {
            return Err(ArcUnsafeRefCellError::BorrowError);
        }
        let inner = heap.slot_mut(self.addr);
        inner.borrow_count = inner.borrow_count + 1;
        Ok(UnsafeRef { addr: self.addr, marker: PhantomData })
    }

    /// Grants a registered write guard, unless a guard of either kind is
    /// outstanding.  The guard takes the write count and must be released on
    /// this heap.
    pub fn borrow_mut(&self, heap: &mut Heap<T>) -> (r: Result<
        UnsafeRefMut<T>,
        ArcUnsafeRefCellError,
    >)
        requires
            old(heap).wf(),
            old(heap).live(self.id()),
        ensures
            final(heap).wf(),
            !can_borrow_mut(old(heap).cell(self.id())) ==> (r matches Err(
                ArcUnsafeRefCellError::BorrowMutError,
            ) && final(heap)@ == old(heap)@),
            can_borrow_mut(old(heap).cell(self.id())) ==> (r matches Ok(guard) && guard.id()
                == self.id() && guard.registered() && final(heap)@ == old(heap)@.update(
                self.id(),
                Some(after_borrow_mut(old(heap).cell(self.id()))),
            )),
    {
        let inner = heap.slot_ref(self.addr);
        if inner.borrow_count > 0 || inner.borrow_mut_count > 0 {
            return Err(ArcUnsafeRefCellError::BorrowMutError);
        }
        let inner = heap.slot_mut(self.addr);
        inner.borrow_mut_count = inner.borrow_mut_count + 1;
        Ok(UnsafeRefMut { addr: self.addr, drop_mut: true, marker: PhantomData })
    }

    /// Grants an unregistered write guard: the same conflict check as
    /// [`Self::borrow_mut`], but nothing records the guard, so a conflicting
    /// guard handed out later goes undetected.  The caller must prove
    /// exclusivity by other means for as long as the guard is used.
    pub fn borrow_mut_unsafe(&self, heap: &mut Heap<T>) -> (r: Result<
        UnsafeRefMut<T>,
        ArcUnsafeRefCellError,
    >)
        requires
            old(heap).wf(),
            old(heap).live(self.id()),
        ensures
            final(heap).wf(),
            final(heap)@ == old(heap)@,
            !can_borrow_mut(old(heap).cell(self.id())) ==> r matches Err(
                ArcUnsafeRefCellError::BorrowMutError,
            ),
            can_borrow_mut(old(heap).cell(self.id())) ==> (r matches Ok(guard) && guard.id()
                == self.id() && !guard.registered()),
    {
        let inner = heap.slot_ref(self.addr);
        if inner.borrow_count > 0 || inner.borrow_mut_count > 0 {
            return Err(ArcUnsafeRefCellError::BorrowMutError);
        }
        Ok(UnsafeRefMut { addr: self.addr, drop_mut: false, marker: PhantomData })
    }

    /// Direct read access bypassing all borrow tracking; the caller must
    /// rule out a conflicting write by other means.
    pub fn get<'a>(&self, heap: &'a Heap<T>) -> (value: &'a T)
        requires
            heap.live(self.id()),
        ensures
            *value == heap.cell(self.id()).value,
    {
        &heap.slot_ref(self.addr).data
    }

    /// Direct write access bypassing all borrow tracking; the caller must
    /// rule out any conflicting access by other means.  The cell keeps its
    /// counters and takes whatever value is left behind the returned
    /// reference.
    pub fn get_mut<'a>(&self, heap: &'a mut Heap<T>) -> (value: &'a mut T)
        requires
            old(heap).wf(),
            old(heap).live(self.id()),
        ensures
            *value == old(heap).cell(self.id()).value,
            final(heap)@ == old(heap)@.update(
                self.id(),
                Some(CellView { value: *final(value), ..old(heap).cell(self.id()) }),
            ),
            final(heap).wf(),
    {
        let inner = heap.slot_mut(self.addr);
        &mut inner.data
    }

    /// Adds one owner by cloning this handle: both handles then name the
    /// same cell.  Never fails.
    pub fn clone(&self, heap: &mut Heap<T>) -> (handle: Self)
        requires
            old(heap).wf(),
            old(heap).live(self.id()),
            old(heap).cell(self.id()).ref_count < usize::MAX,
        ensures
            final(heap).wf(),
            handle.id() == self.id(),
            final(heap)@ == old(heap)@.update(
                self.id(),
                Some(after_ref_inc(old(heap).cell(self.id()))),
            ),
    {
        let inner = heap.slot_mut(self.addr);
        inner.ref_count = inner.ref_count + 1;
        ArcUnsafeRefCellWrapper { addr: self.addr, marker: PhantomData }
    }

    /// Destroys this handle and releases its ownership share.  The cell is
    /// freed exactly when the last owner goes away; the freed payload is
    /// handed back then, and `None` otherwise.
    pub fn drop_handle(self, heap: &mut Heap<T>) -> (freed: Option<T>)
        requires
            old(heap).wf(),
            old(heap).live(self.id()),
        ensures
            final(heap).wf(),
            old(heap).cell(self.id()).ref_count == 1 ==> (final(heap)@ == old(heap)@.update(
                self.id(),
                None,
            ) && freed == Some(old(heap).cell(self.id()).value)),
            old(heap).cell(self.id()).ref_count > 1 ==> (final(heap)@ == old(heap)@.update(
                self.id(),
                Some(after_ref_dec(old(heap).cell(self.id()))),
            ) && freed is None),
    {
        if heap.slot_ref(self.addr).ref_count == 1 {
            let taken = heap.slots[self.addr].take();
            proof {
                assert(heap@ =~= old(heap)@.update(self.id(), None));
            }
            match taken {
                Some(inner) => {
                    let Inner { data, .. } = inner;
                    Some(data)
                },
                None => unreached(),
            }
        } else {
            let inner = heap.slot_mut(self.addr);
            inner.ref_count = inner.ref_count - 1;
            None
        }
    }

    /// Manually adds an ownership share without producing a handle, to
    /// pre-authorize a later reattachment from a raw address.  Mirrors the
    /// write-exclusivity rule of a read: it fails while a write guard is
    /// outstanding, even though no payload access occurs.
    pub fn clone_ref(&self, heap: &mut Heap<T>) -> (r: Result<(), ArcUnsafeRefCellError>)
        requires
            old(heap).wf(),
            old(heap).live(self.id()),
            old(heap).cell(self.id()).ref_count < usize::MAX,
        ensures
            final(heap).wf(),
            !can_borrow(old(heap).cell(self.id())) ==> (r matches Err(
                ArcUnsafeRefCellError::BorrowError,
            ) && final(heap)@ == old(heap)@),
            can_borrow(old(heap).cell(self.id())) ==> (r matches Ok(()) && final(heap)@ == old(
                heap,
            )@.update(self.id(), Some(after_ref_inc(old(heap).cell(self.id()))))),
    {
        if heap.slot_ref(self.addr).borrow_mut_count > 0 {
            return Err(ArcUnsafeRefCellError::BorrowError);
        }
        let inner = heap.slot_mut(self.addr);
        inner.ref_count = inner.ref_count + 1;
        Ok(())
    }

    /// Manually releases an ownership share without destroying a handle.
    /// Fails on the last share: that one must be released through the real
    /// destruction path, which alone frees the cell.
    pub fn drop_ref(&self, heap: &mut Heap<T>) -> (r: Result<(), ArcUnsafeRefCellError>)
        requires
            old(heap).wf(),
            old(heap).live(self.id()),
        ensures
            final(heap).wf(),
            !can_drop_ref(old(heap).cell(self.id())) ==> (r matches Err(
                ArcUnsafeRefCellError::UnableToDrop,
            ) && final(heap)@ == old(heap)@),
            can_drop_ref(old(heap).cell(self.id())) ==> (r matches Ok(()) && final(heap)@ == old(
                heap,
            )@.update(self.id(), Some(after_ref_dec(old(heap).cell(self.id()))))),
    {
        if heap.slot_ref(self.addr).ref_count <= 1 {
            return Err(ArcUnsafeRefCellError::UnableToDrop);
        }
        let inner = heap.slot_mut(self.addr);
        inner.ref_count = inner.ref_count - 1;
        Ok(())
    }

    /// Reconstructs an owning handle from a previously obtained address,
    /// adding one owner.  The address must name a live cell: an address
    /// whose cell has been freed is a use-after-free, which this library
    /// rules out before the call rather than detecting after it.
    pub fn from_inner(heap: &mut Heap<T>, addr: usize) -> (handle: Self)
        requires
            old(heap).wf(),
            old(heap).live(addr as int),
            old(heap).cell(addr as int).ref_count < usize::MAX,
        ensures
            final(heap).wf(),
            handle.id() == addr as int,
            final(heap)@ == old(heap)@.update(
                addr as int,
                Some(after_ref_inc(old(heap).cell(addr as int))),
            ),
    {
        let inner = heap.slot_mut(addr);
        inner.ref_count = inner.ref_count + 1;
        ArcUnsafeRefCellWrapper { addr, marker: PhantomData }
    }

    /// The numeric address of the cell, without touching any counter: a
    /// read-only peek, not a transfer of ownership.
    pub fn get_inner(&self) -> (addr: usize)
        ensures
            addr == self.id(),
    {
        self.addr
    }

    /// The current number of owners of the cell.
    pub fn ref_count(&self, heap: &Heap<T>) -> (n: usize)
        requires
            heap.live(self.id()),
        ensures
            n == heap.cell(self.id()).ref_count,
    {
        heap.slot_ref(self.addr).ref_count
    }

    /// Whether this handle is the only owner of its cell.
    pub fn is_unique(&self, heap: &Heap<T>) -> (unique: bool)
        requires
            heap.live(self.id()),
        ensures
            unique == (heap.cell(self.id()).ref_count == 1),
    {
        self.ref_count(heap) == 1
    }
}

} // verus!
