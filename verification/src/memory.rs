//! Ownership and release of the allocations the protocol hands to a foreign
//! caller.
//!
//! A foreign caller sees every allocation as a pointer-sized handle. The
//! [`Heap`] records which handles are outstanding and what each one holds, so
//! that every construction and release can state exactly how it changes the
//! set of outstanding allocations. The null handle is `0`; every release
//! primitive accepts it as a documented no-op. Releasing a live handle
//! removes exactly that allocation and touches no other; a handle is never
//! handed out twice.

use vstd::prelude::*;
use vstd::std_specs::vec::vec_index_mut;

use crate::result::{ExternError, ExternResult};
use crate::string::CharBuffer;

verus! {

/// One heap allocation, tagged by the concrete type the protocol allocated.
pub enum Allocation<T> {
    /// An opaque payload value handed off through a success envelope.
    Value(T),
    /// A null-terminated text buffer.
    Text(CharBuffer),
    /// A raw fixed-size binary identifier of sixteen bytes.
    RawUuid(Vec<u8>),
    /// An error record of a failure envelope.
    ErrorRecord(ExternError),
    /// A result envelope.
    Envelope(ExternResult),
}

/// The number of outstanding allocations among the given slots.
pub open spec fn count_live<T>(slots: Seq<Option<Allocation<T>>>) -> nat
    decreases slots.len(),
{
    if slots.len() == 0 {
        0
    } else {
        count_live(slots.drop_last()) + (if slots.last() is Some {
            1nat
        } else {
            0nat
        })
    }
}

/// The allocations owned by the foreign caller, addressed by handle.
/// Handle `0` is the null handle and is never allocated; a released slot is
/// never reused, so a dangling handle never aliases a later allocation.
pub struct Heap<T> {
    slots: Vec<Option<Allocation<T>>>,
}

impl<T> View for Heap<T> {
    type V = Seq<Option<Allocation<T>>>;

    closed spec fn view(&self) -> Seq<Option<Allocation<T>>> {
        self.slots@
    }
}

impl<T> Heap<T> {
    /// True when `h` addresses an outstanding allocation.
    pub open spec fn live(&self, h: usize) -> bool {
        &&& 1 <= h <= self@.len()
        &&& self@[h - 1] is Some
    }

    /// The allocation `h` addresses.
    pub open spec fn alloc_at(&self, h: usize) -> Allocation<T>
        recommends
            self.live(h),
    {
        self@[h - 1]->Some_0
    }

    /// The number of outstanding allocations.
    pub open spec fn n_live(&self) -> nat {
        count_live(self@)
    }

    /// A heap with no outstanding allocation.
    pub fn new() -> (heap: Heap<T>)
        ensures
            heap.n_live() == 0,
            forall|h: usize| !heap.live(h),
    {
        Heap { slots: Vec::new() }
    }

    /// Makes a new allocation and returns its handle.
    pub(crate) fn allocate(&mut self, a: Allocation<T>) -> (h: usize)
        ensures
            alloc_post(*old(self), *final(self), h, a),
    {
        proof {
            lemma_count_live_push(self@, Some(a));
        }
        self.slots.push(Some(a));
        self.slots.len()
    }

    /// Releases the allocation at a live handle.
    pub(crate) fn free(&mut self, h: usize)
        requires
            old(self).live(h),
        ensures
            free_post(*old(self), *final(self), h),
    {
        proof {
            lemma_count_live_update_none(self@, h - 1);
        }
        let slot = vec_index_mut(&mut self.slots, h - 1);
        *slot = None;
    }

    /// Allocates storage for an opaque payload value, as a success envelope
    /// does for the value it carries.
    pub fn alloc_value(&mut self, value: T) -> (h: usize)
        ensures
            alloc_post(*old(self), *final(self), h, Allocation::Value(value)),
    {
        self.allocate(Allocation::Value(value))
    }

    /// Allocates a text buffer and transfers its ownership to the handle.
    pub fn alloc_text(&mut self, text: CharBuffer) -> (h: usize)
        ensures
            alloc_post(*old(self), *final(self), h, Allocation::Text(text)),
    {
        self.allocate(Allocation::Text(text))
    }

    /// Allocates a raw fixed-size binary identifier.
    pub fn alloc_uuid(&mut self, id: Vec<u8>) -> (h: usize)
        requires
            id@.len() == 16,
        ensures
            alloc_post(*old(self), *final(self), h, Allocation::RawUuid(id)),
    {
        self.allocate(Allocation::RawUuid(id))
    }

    /// True when `h` addresses an outstanding allocation.
    pub fn is_live(&self, h: usize) -> (r: bool)
        ensures
            r == self.live(h),
    {
        h >= 1 && h <= self.slots.len() && self.slots[h - 1].is_some()
    }

    /// Counts the outstanding allocations.
    pub fn outstanding(&self) -> (n: usize)
        ensures
            n == self.n_live(),
    {
        proof {
            assert(self@.take(0) =~= Seq::<Option<Allocation<T>>>::empty());
        }
        let mut n: usize = 0;
        let mut i: usize = 0;
        while i < self.slots.len()
            invariant
                i <= self@.len(),
                n <= i,
                n == count_live(self@.take(i as int)),
            decreases self@.len() - i,
        {
            proof {
                lemma_count_live_take_step(self@, i as int);
            }
            if self.slots[i].is_some() {
                n += 1;
            }
            i += 1;
        }
        proof {
            assert(self@.take(self@.len() as int) =~= self@);
        }
        n
    }

    /// The payload value at `h`, when `h` holds one.
    pub fn read_value(&self, h: usize) -> (r: Option<&T>)
        ensures
            match r {
                Some(v) => self.live(h) && self.alloc_at(h) == Allocation::Value(*v),
                None => !self.live(h) || !(self.alloc_at(h) is Value),
            },
    {
        if h >= 1 && h <= self.slots.len() {
            match &self.slots[h - 1] {
                Some(Allocation::Value(v)) => Some(v),
                _ => None,
            }
        } else {
            None
        }
    }

    /// The text buffer at `h`, when `h` holds one.
    pub fn read_text(&self, h: usize) -> (r: Option<&CharBuffer>)
        ensures
            match r {
                Some(b) => self.live(h) && self.alloc_at(h) == Allocation::<T>::Text(*b),
                None => !self.live(h) || !(self.alloc_at(h) is Text),
            },
    {
        if h >= 1 && h <= self.slots.len() {
            match &self.slots[h - 1] {
                Some(Allocation::Text(b)) => Some(b),
                _ => None,
            }
        } else {
            None
        }
    }

    /// The raw binary identifier at `h`, when `h` holds one.
    pub fn read_uuid(&self, h: usize) -> (r: Option<&Vec<u8>>)
        ensures
            match r {
                Some(id) => self.live(h) && self.alloc_at(h) == Allocation::<T>::RawUuid(*id),
                None => !self.live(h) || !(self.alloc_at(h) is RawUuid),
            },
    {
        if h >= 1 && h <= self.slots.len() {
            match &self.slots[h - 1] {
                Some(Allocation::RawUuid(id)) => Some(id),
                _ => None,
            }
        } else {
            None
        }
    }

    /// The error record at `h`, when `h` holds one.
    pub fn read_error(&self, h: usize) -> (r: Option<&ExternError>)
        ensures
            match r {
                Some(e) => self.live(h) && self.alloc_at(h) == Allocation::<T>::ErrorRecord(*e),
                None => !self.live(h) || !(self.alloc_at(h) is ErrorRecord),
            },
    {
        if h >= 1 && h <= self.slots.len() {
            match &self.slots[h - 1] {
                Some(Allocation::ErrorRecord(e)) => Some(e),
                _ => None,
            }
        } else {
            None
        }
    }

    /// The result envelope at `h`, when `h` holds one.
    pub fn read_envelope(&self, h: usize) -> (r: Option<&ExternResult>)
        ensures
            match r {
                Some(e) => self.live(h) && self.alloc_at(h) == Allocation::<T>::Envelope(*e),
                None => !self.live(h) || !(self.alloc_at(h) is Envelope),
            },
    {
        if h >= 1 && h <= self.slots.len() {
            match &self.slots[h - 1] {
                Some(Allocation::Envelope(e)) => Some(e),
                _ => None,
            }
        } else {
            None
        }
    }
}

/// Everything but the allocation at `a` is exactly as it was.
pub open spec fn heap_frame<T>(pre: Heap<T>, post: Heap<T>, a: usize) -> bool {
    &&& forall|h: usize|
        #![trigger post.live(h)]
        #![trigger pre.live(h)]
        h != a ==> post.live(h) == pre.live(h)
    &&& forall|h: usize|
        #![trigger post.alloc_at(h)]
        #![trigger pre.alloc_at(h)]
        h != a && pre.live(h) ==> post.alloc_at(h) == pre.alloc_at(h)
}

/// Everything but the allocations at `a` and `b` is exactly as it was.
pub open spec fn heap_frame2<T>(pre: Heap<T>, post: Heap<T>, a: usize, b: usize) -> bool {
    &&& forall|h: usize|
        #![trigger post.live(h)]
        #![trigger pre.live(h)]
        h != a && h != b ==> post.live(h) == pre.live(h)
    &&& forall|h: usize|
        #![trigger post.alloc_at(h)]
        #![trigger pre.alloc_at(h)]
        h != a && h != b && pre.live(h) ==> post.alloc_at(h) == pre.alloc_at(h)
}

/// Everything but the allocations at `a`, `b` and `c` is exactly as it was.
pub open spec fn heap_frame3<T>(pre: Heap<T>, post: Heap<T>, a: usize, b: usize, c: usize) -> bool {
    &&& forall|h: usize|
        #![trigger post.live(h)]
        #![trigger pre.live(h)]
        h != a && h != b && h != c ==> post.live(h) == pre.live(h)
    &&& forall|h: usize|
        #![trigger post.alloc_at(h)]
        #![trigger pre.alloc_at(h)]
        h != a && h != b && h != c && pre.live(h) ==> post.alloc_at(h) == pre.alloc_at(h)
}

/// What one allocation does to the heap: a fresh non-null handle now holds
/// `a`, one more allocation is outstanding, and nothing else changed.
pub open spec fn alloc_post<T>(pre: Heap<T>, post: Heap<T>, h: usize, a: Allocation<T>) -> bool {
    &&& h != 0
    &&& !pre.live(h)
    &&& post.live(h)
    &&& post.alloc_at(h) == a
    &&& post.n_live() == pre.n_live() + 1
    &&& heap_frame(pre, post, h)
}

/// What one release does to the heap: the handle no longer addresses an
/// allocation, one fewer is outstanding, and nothing else changed.
pub open spec fn free_post<T>(pre: Heap<T>, post: Heap<T>, h: usize) -> bool {
    &&& !post.live(h)
    &&& post.n_live() + 1 == pre.n_live()
    &&& heap_frame(pre, post, h)
}

/// What a release primitive does: on the null handle, nothing at all;
/// on a live handle, exactly one release.
pub open spec fn released<T>(pre: Heap<T>, post: Heap<T>, h: usize) -> bool {
    if h == 0 {
        post == pre
    } else {
        free_post(pre, post, h)
    }
}

/// Releases an allocation through its type-erased handle, whatever it holds.
/// A null handle is a no-op.
pub fn destroy<T>(heap: &mut Heap<T>, h: usize)
    requires
        h == 0 || old(heap).live(h),
    ensures
        released(*old(heap), *final(heap), h),
{
    if h != 0 {
        heap.free(h);
    }
}

/// Releases the storage of an opaque payload value. This is the type-specific
/// release the caller must pair with each payload a success envelope carries.
/// A null handle is a no-op.
pub fn destroy_value<T>(heap: &mut Heap<T>, h: usize)
    requires
        h == 0 || (old(heap).live(h) && old(heap).alloc_at(h) is Value),
    ensures
        released(*old(heap), *final(heap), h),
{
    if h != 0 {
        heap.free(h);
    }
}

/// Releases a raw fixed-size binary identifier. A null handle is a no-op.
pub fn destroy_raw_uuid<T>(heap: &mut Heap<T>, h: usize)
    requires
        h == 0 || (old(heap).live(h) && old(heap).alloc_at(h) is RawUuid),
    ensures
        released(*old(heap), *final(heap), h),
{
    if h != 0 {
        heap.free(h);
    }
}

/// Releases a text buffer, such as the message of an error record. A null
/// handle is a no-op.
pub fn destroy_c_char<T>(heap: &mut Heap<T>, h: usize)
    requires
        h == 0 || (old(heap).live(h) && old(heap).alloc_at(h) is Text),
    ensures
        released(*old(heap), *final(heap), h),
{
    if h != 0 {
        heap.free(h);
    }
}

/// Checks that a handle is not null. A null handle here is a contract
/// violation by the caller, so verified callers must rule it out.
pub fn assert_pointer_not_null(h: usize)
    requires
        h != 0,
{
}

proof fn lemma_count_live_push<T>(slots: Seq<Option<Allocation<T>>>, a: Option<Allocation<T>>)
    ensures
        count_live(slots.push(a)) == count_live(slots) + (if a is Some {
            1nat
        } else {
            0nat
        }),
{
    assert(slots.push(a).drop_last() =~= slots);
    assert(slots.push(a).last() == a);
}

proof fn lemma_count_live_update_none<T>(slots: Seq<Option<Allocation<T>>>, i: int)
    requires
        0 <= i < slots.len(),
        slots[i] is Some,
    ensures
        count_live(slots.update(i, None)) + 1 == count_live(slots),
    decreases slots.len(),
{
    let u = slots.update(i, None);
    if i == slots.len() - 1 {
        assert(u.drop_last() =~= slots.drop_last());
        assert(u.last() is None);
        assert(slots.last() is Some);
    } else {
        assert(u.drop_last() =~= slots.drop_last().update(i, None));
        assert(u.last() == slots.last());
        lemma_count_live_update_none(slots.drop_last(), i);
    }
}

proof fn lemma_count_live_take_step<T>(slots: Seq<Option<Allocation<T>>>, i: int)
    requires
        0 <= i < slots.len(),
    ensures
        count_live(slots.take(i + 1)) == count_live(slots.take(i)) + (if slots[i] is Some {
            1nat
        } else {
            0nat
        }),
{
    assert(slots.take(i + 1).drop_last() =~= slots.take(i));
    assert(slots.take(i + 1).last() == slots[i]);
}

} // verus!
