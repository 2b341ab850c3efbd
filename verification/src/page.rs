//! The owning handle: a page that is released when its owner lets go of it.
use crate::layout::{desc_of, representable, PageDesc, PageHeader, PageLayout};
use crate::page_ref::{adopted, lent, returned, PageHeap, PageRef};
use core::mem::ManuallyDrop;
use core::ops::Deref;
use vstd::prelude::*;

verus! {

/// `n` slots that hold nothing.
pub open spec fn empty_slots<T>(n: nat) -> Seq<Option<T>> {
    Seq::new(n, |i: int| None::<T>)
}

/// The slots `slots` after `value` was put into slot `i`.
pub open spec fn written<T>(slots: Seq<Option<T>>, i: int, value: T) -> Seq<Option<T>>
    recommends
        0 <= i < slots.len(),
{
    slots.update(i, Some(value))
}

/// The slots `slots` after slot `i` was emptied.
pub open spec fn emptied<T>(slots: Seq<Option<T>>, i: int) -> Seq<Option<T>>
    recommends
        0 <= i < slots.len(),
{
    slots.update(i, None)
}

/// A slot holds what was last written to it: after a write to slot `i` that
/// slot holds the written value, every other slot holds what it held, and
/// there are as many slots as before.
pub proof fn lemma_write_read<T>(slots: Seq<Option<T>>, i: int, value: T, j: int)
    requires
        0 <= i < slots.len(),
        0 <= j < slots.len(),
    ensures
        written(slots, i, value).len() == slots.len(),
        written(slots, i, value)[i] == Some(value),
        j != i ==> written(slots, i, value)[j] == slots[j],
{
}

/// A slot that was emptied holds nothing, and every other slot holds what
/// it held.
pub proof fn lemma_take_read<T>(slots: Seq<Option<T>>, i: int, j: int)
    requires
        0 <= i < slots.len(),
        0 <= j < slots.len(),
    ensures
        emptied(slots, i).len() == slots.len(),
        emptied(slots, i)[i].is_none(),
        j != i ==> emptied(slots, i)[j] == slots[j],
{
}

/// The item that a raw slot holds, if it holds one.
pub open spec fn item_of<T>(raw: Option<ManuallyDrop<T>>) -> Option<T> {
    match raw {
        Some(m) => Some(m@),
        None => None,
    }
}

/// The items that raw slots hold, slot by slot.
pub open spec fn items_of<T>(raw: Seq<Option<ManuallyDrop<T>>>) -> Seq<Option<T>> {
    Seq::new(raw.len(), |i: int| item_of(raw[i]))
}

/// A vector of `n` raw slots that hold nothing.
pub fn vacant<T>(n: u32) -> (r: Vec<Option<ManuallyDrop<T>>>)
    ensures
        r@.len() == n,
        items_of(r@) == empty_slots::<T>(n as nat),
{
    let mut slots: Vec<Option<ManuallyDrop<T>>> = Vec::new();
    let mut k: u32 = 0;
    while k < n
        invariant
            k <= n,
            slots@.len() == k,
            forall|i: int| 0 <= i < k ==> (#[trigger] slots@[i]).is_none(),
        decreases n - k,
    {
        slots.push(None);
        k = k + 1;
    }
    assert(items_of(slots@) =~= empty_slots::<T>(n as nat));
    slots
}

/// An owned page: a header and a fixed number of item slots. A slot holds an
/// item or nothing. The page never fills or empties a slot by itself, and it
/// destroys no item: when the page goes, its header is destroyed, and what
/// its slots still hold is left as it is.
///
/// A page that was taken out of a heap remembers the handle it was taken
/// from, and goes back to that address when its owner gives it up.
pub struct Page<H, T> {
    head: PageHeader<H>,
    slots: Vec<Option<ManuallyDrop<T>>>,
    home: Option<PageRef<H, T>>,
}

impl<H, T> Page<H, T> {
    /// The header that the page holds.
    pub closed spec fn spec_header(&self) -> H {
        self.head.header
    }

    /// The descriptor that the page holds.
    pub closed spec fn spec_desc(&self) -> PageDesc {
        self.head.desc
    }

    /// What the slots hold, in order.
    pub closed spec fn slots(&self) -> Seq<Option<T>> {
        items_of(self.slots@)
    }

    /// The handle that the page was taken from, if it was taken out of a
    /// heap.
    pub closed spec fn home(&self) -> Option<PageRef<H, T>> {
        self.home
    }

    /// A page is well formed when its descriptor is that of a layout for its
    /// capacity and it has as many slots as the descriptor says.
    pub open spec fn wf(&self) -> bool {
        &&& representable::<H, T>(self.spec_desc().items)
        &&& self.spec_desc() == desc_of::<H, T>(self.spec_desc().items)
        &&& self.slots().len() == self.spec_desc().items
    }

    /// A well-formed page has room for at least one item: there is no page
    /// without capacity.
    pub proof fn lemma_capacity_positive(self)
        requires
            self.wf(),
        ensures
            self.spec_desc().items > 0,
            self.slots().len() > 0,
    {
    }

    /// Creates a page with the provided header and capacity for `items`
    /// items, every slot empty.
    pub fn new(header: H, items: u32) -> (r: Self)
        requires
            representable::<H, T>(items),
        ensures
            r.wf(),
            r.spec_header() == header,
            r.spec_desc().items == items,
            r.slots() == empty_slots::<T>(items as nat),
            r.home().is_none(),
    {
        let layout = PageLayout::<H, T>::with_capacity(items);
        Self::from_uninit(vacant(items), header, layout)
    }

    /// Creates a page with the provided header and capacity for `items`
    /// items, where such a page can be laid out: `None` exactly when it
    /// cannot.
    pub fn try_new(header: H, items: u32) -> (r: Option<Self>)
        ensures
            r.is_some() <==> representable::<H, T>(items),
            r matches Some(p) ==> p.wf() && p.spec_header() == header && p.spec_desc().items
                == items && p.slots() == empty_slots::<T>(items as nat) && p.home().is_none(),
    {
        match PageLayout::<H, T>::try_with_capacity(items) {
            Some(layout) => Some(Self::from_uninit(vacant(items), header, layout)),
            None => None,
        }
    }

    /// Creates a page over the provided slots, with the provided header and
    /// the descriptor of `layout`.
    pub fn from_uninit(
        slots: Vec<Option<ManuallyDrop<T>>>,
        header: H,
        layout: PageLayout<H, T>,
    ) -> (r: Self)
        requires
            layout.wf(),
            slots@.len() == layout.spec_desc().items,
        ensures
            r.wf(),
            r.spec_header() == header,
            r.spec_desc() == layout.spec_desc(),
            r.slots() == items_of(slots@),
            r.home().is_none(),
    {
        Page { head: PageHeader { header, desc: PageDesc::from(layout) }, slots, home: None }
    }

    /// The capacity of this page's item array.
    pub fn capacity(&self) -> (r: u32)
        ensures
            r == self.spec_desc().items,
    {
        self.head.desc.items
    }

    /// The descriptor of this page.
    pub fn desc(&self) -> (r: PageDesc)
        ensures
            r == self.spec_desc(),
    {
        self.head.desc
    }

    /// Access to this page's header by reference.
    pub fn header(&self) -> (r: &H)
        ensures
            *r == self.spec_header(),
    {
        &self.head.header
    }

    /// Access to this page's header by mutable reference. The page keeps its
    /// descriptor and its slots; its header is what the caller leaves behind
    /// the reference.
    pub fn header_mut(&mut self) -> (r: &mut H)
        ensures
            *r == old(self).spec_header(),
            final(self).spec_header() == *final(r),
            final(self).spec_desc() == old(self).spec_desc(),
            final(self).slots() == old(self).slots(),
            final(self).home() == old(self).home(),
    {
        &mut self.head.header
    }

    /// Access to the raw item slots, the first of them at index 0.
    pub fn data(&self) -> (r: &[Option<ManuallyDrop<T>>])
        ensures
            items_of(r@) == self.slots(),
    {
        self.slots.as_slice()
    }

    /// Puts `value` into slot `i` and hands back what the slot held.
    pub fn write(&mut self, i: u32, value: T) -> (prev: Option<T>)
        requires
            i < old(self).slots().len(),
        ensures
            final(self).slots() == written(old(self).slots(), i as int, value),
            prev == old(self).slots()[i as int],
            final(self).spec_header() == old(self).spec_header(),
            final(self).spec_desc() == old(self).spec_desc(),
            final(self).home() == old(self).home(),
    {
        let mut cell = Some(ManuallyDrop::new(value));
        self.slots.set_and_swap(i as usize, &mut cell);
        assert(self.slots() =~= written(old(self).slots(), i as int, value));
        match cell {
            Some(item) => Some(ManuallyDrop::into_inner(item)),
            None => None,
        }
    }

    /// The item in slot `i`, if the slot holds one.
    pub fn read(&self, i: u32) -> (r: Option<&T>)
        requires
            i < self.slots().len(),
        ensures
            r.is_some() == self.slots()[i as int].is_some(),
            r matches Some(v) ==> self.slots()[i as int] == Some(*v),
    {
        match &self.slots[i as usize] {
            Some(item) => Some(item.deref()),
            None => None,
        }
    }

    /// Takes the item out of slot `i`, if the slot holds one, and leaves the
    /// slot empty.
    pub fn take(&mut self, i: u32) -> (r: Option<T>)
        requires
            i < old(self).slots().len(),
        ensures
            final(self).slots() == emptied(old(self).slots(), i as int),
            r == old(self).slots()[i as int],
            final(self).spec_header() == old(self).spec_header(),
            final(self).spec_desc() == old(self).spec_desc(),
            final(self).home() == old(self).home(),
    {
        let mut cell = None;
        self.slots.set_and_swap(i as usize, &mut cell);
        assert(self.slots() =~= emptied(old(self).slots(), i as int));
        match cell {
            Some(item) => Some(ManuallyDrop::into_inner(item)),
            None => None,
        }
    }

    /// The header and the descriptor of this page.
    pub fn page_header(&self) -> (r: &PageHeader<H>)
        ensures
            r.header == self.spec_header(),
            r.desc == self.spec_desc(),
    {
        &self.head
    }

    /// Takes the page at the address of `page_ref` out of `heap` and owns
    /// it. The page remembers the handle. While it is owned its address
    /// holds no page, so no second owner can be made of it.
    pub fn from_ref(page_ref: PageRef<H, T>, heap: &mut PageHeap<H, T>) -> (r: Self)
        requires
            old(heap).live(page_ref),
        ensures
            r.home() == Some(page_ref),
            r.spec_header() == old(heap).page(page_ref).spec_header(),
            r.spec_desc() == old(heap).page(page_ref).spec_desc(),
            r.slots() == old(heap).page(page_ref).slots(),
            final(heap).spec_id() == old(heap).spec_id(),
            final(heap)@ == lent(old(heap)@, page_ref.addr()),
            final(heap).lent(page_ref),
    {
        let mut page = heap.lend(page_ref);
        page.home = Some(page_ref);
        page
    }

    /// Gives the page up to `heap`, where nothing releases it by itself, and
    /// hands back its handle: the one it was taken from, where it was taken
    /// out of a heap, and else one to an address that was never used
    /// before.
    pub fn to_ref(self, heap: &mut PageHeap<H, T>) -> (r: PageRef<H, T>)
        requires
            self.home() matches Some(from) ==> old(heap).lent(from),
        ensures
            final(heap).spec_id() == old(heap).spec_id(),
            final(heap).live(r),
            final(heap).page(r) == self,
            match self.home() {
                Some(from) => r == from && final(heap)@ == returned(old(heap)@, from.addr(), self),
                None => r.heap_id() == old(heap).spec_id() && r.addr() == old(heap)@.len()
                    && final(heap)@ == adopted(old(heap)@, self),
            },
    {
        let home = self.home;
        match home {
            Some(from) => {
                heap.take_back(from, self);
                from
            },
            None => heap.adopt(self),
        }
    }

    /// The layout of this page.
    pub fn layout(&self) -> (r: PageLayout<H, T>)
        requires
            self.wf(),
        ensures
            r.wf(),
            r.spec_desc() == self.spec_desc(),
    {
        PageLayout::with_capacity(self.head.desc.items)
    }
}

} // verus!
