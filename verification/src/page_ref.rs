//! The copyable handle and the heap of blocks that are managed by hand.
//!
//! A [`PageRef`] names one block of one [`PageHeap`]: it holds the heap's
//! identity and an address in that heap. The heap knows what stands at each
//! address: a page that it holds, a page that an owner has taken out and may
//! give back, or nothing any more. Whoever holds a handle must know it too:
//! every access asks that the address is live. Releasing a block makes its
//! address dead for good, so a block cannot be released twice.
use crate::layout::{representable, PageDesc, PageHeader, PageLayout};
use crate::page::{emptied, empty_slots, items_of, written, Page};
use core::marker::PhantomData;
use core::mem::ManuallyDrop;
use vstd::pervasive::unreached;
use vstd::prelude::*;
use vstd::std_specs::cmp::PartialEqSpecImpl;

verus! {

/// What stands at one address of a heap.
pub enum Block<H, T> {
    /// A page that the heap holds.
    Held(Page<H, T>),
    /// The place of a page that an owner has taken out.
    Lent,
    /// Nothing: the page that stood here was released.
    Freed,
}

/// The blocks that are managed by hand. An address is never used for a
/// second page. Heaps that are in use together are told apart by their
/// identities, which their maker chooses.
pub struct PageHeap<H, T> {
    id: u64,
    blocks: Vec<Block<H, T>>,
}

/// A copyable handle to one block of a [`PageHeap`]. Nothing is released
/// when a handle goes away.
pub struct PageRef<H, T> {
    heap: u64,
    index: usize,
    _phantom: PhantomData<(H, T)>,
}

impl<H, T> Clone for PageRef<H, T> {
    fn clone(&self) -> (r: Self)
        ensures
            r == *self,
    {
        PageRef { heap: self.heap, index: self.index, _phantom: PhantomData }
    }
}

impl<H, T> Copy for PageRef<H, T> {}

impl<H, T> PartialEqSpecImpl for PageRef<H, T> {
    open spec fn obeys_eq_spec() -> bool {
        true
    }

    open spec fn eq_spec(&self, other: &Self) -> bool {
        self.same(*other)
    }
}

impl<H, T> PartialEq for PageRef<H, T> {
    /// Two handles are equal when they name the same address of the same
    /// heap.
    fn eq(&self, other: &Self) -> (r: bool) {
        self.heap == other.heap && self.index == other.index
    }
}

impl<H, T> Eq for PageRef<H, T> {}

/// The blocks `blocks` after `page` was taken over: it stands at the next
/// address.
pub open spec fn adopted<H, T>(blocks: Seq<Block<H, T>>, page: Page<H, T>) -> Seq<Block<H, T>> {
    blocks.push(Block::Held(page))
}

/// The blocks `blocks` after an owner took out the page at `addr`.
pub open spec fn lent<H, T>(blocks: Seq<Block<H, T>>, addr: int) -> Seq<Block<H, T>>
    recommends
        0 <= addr < blocks.len(),
{
    blocks.update(addr, Block::Lent)
}

/// The blocks `blocks` after `page` was put at `addr`.
pub open spec fn returned<H, T>(blocks: Seq<Block<H, T>>, addr: int, page: Page<H, T>) -> Seq<
    Block<H, T>,
>
    recommends
        0 <= addr < blocks.len(),
{
    blocks.update(addr, Block::Held(page))
}

/// The blocks `blocks` after the one at `addr` was released.
pub open spec fn released<H, T>(blocks: Seq<Block<H, T>>, addr: int) -> Seq<Block<H, T>>
    recommends
        0 <= addr < blocks.len(),
{
    blocks.update(addr, Block::Freed)
}

/// Whether `addr` holds a page in `blocks`.
pub open spec fn holds<H, T>(blocks: Seq<Block<H, T>>, addr: int) -> bool {
    0 <= addr < blocks.len() && blocks[addr] is Held
}

/// Whether an owner has taken out the page at `addr` in `blocks`.
pub open spec fn away<H, T>(blocks: Seq<Block<H, T>>, addr: int) -> bool {
    0 <= addr < blocks.len() && blocks[addr] is Lent
}

/// A page is released once: a page that a heap took over is found at the
/// next address, unchanged, and that address held nothing before; once the
/// page is released the address neither holds a page nor waits for one, so
/// nothing can be released there again and no page can be put there.
/// Neither step changes what another address holds.
pub proof fn lemma_released_once<H, T>(blocks: Seq<Block<H, T>>, page: Page<H, T>, other: int)
    requires
        0 <= other < blocks.len(),
    ensures
        !holds(blocks, blocks.len() as int),
        holds(adopted(blocks, page), blocks.len() as int),
        adopted(blocks, page)[blocks.len() as int] == Block::Held(page),
        !holds(released(adopted(blocks, page), blocks.len() as int), blocks.len() as int),
        !away(released(adopted(blocks, page), blocks.len() as int), blocks.len() as int),
        adopted(blocks, page)[other] == blocks[other],
        released(adopted(blocks, page), blocks.len() as int)[other] == blocks[other],
{
}

/// A page keeps its address: while an owner has the page, its address
/// holds nothing and waits for it; once the owner gives the page back, it
/// stands at the address it was taken from, and the heap is as it was but
/// for what the owner did to the page.
pub proof fn lemma_keeps_address<H, T>(blocks: Seq<Block<H, T>>, addr: int, page: Page<H, T>)
    requires
        holds(blocks, addr),
    ensures
        !holds(lent(blocks, addr), addr),
        away(lent(blocks, addr), addr),
        holds(returned(lent(blocks, addr), addr, page), addr),
        returned(lent(blocks, addr), addr, page) == blocks.update(addr, Block::Held(page)),
        blocks[addr] == Block::Held(page) ==> returned(lent(blocks, addr), addr, page) == blocks,
{
    assert(returned(lent(blocks, addr), addr, page) =~= blocks.update(addr, Block::Held(page)));
    if blocks[addr] == Block::Held(page) {
        assert(blocks.update(addr, Block::Held(page)) =~= blocks);
    }
}

/// Pages that were taken over one after the other stand at different
/// addresses, and both are held.
pub proof fn lemma_no_alias<H, T>(blocks: Seq<Block<H, T>>, p: Page<H, T>, q: Page<H, T>)
    ensures
        holds(adopted(adopted(blocks, p), q), blocks.len() as int),
        holds(adopted(adopted(blocks, p), q), (blocks.len() + 1) as int),
        adopted(adopted(blocks, p), q)[blocks.len() as int] == Block::Held(p),
        adopted(adopted(blocks, p), q)[(blocks.len() + 1) as int] == Block::Held(q),
{
}

/// Handles that are live in heaps of different identities are different,
/// and so are handles to different addresses.
pub proof fn lemma_handles_differ<H, T>(
    one: PageHeap<H, T>,
    other: PageHeap<H, T>,
    a: PageRef<H, T>,
    b: PageRef<H, T>,
)
    requires
        one.live(a),
        other.live(b),
    ensures
        one.spec_id() != other.spec_id() ==> a != b && !a.same(b),
        a.addr() != b.addr() ==> a != b && !a.same(b),
        a.same(b) ==> a == b && other.live(a) && one.spec_id() == other.spec_id(),
{
}

impl<H, T> View for PageHeap<H, T> {
    type V = Seq<Block<H, T>>;

    /// What stands at each address, from address 0 upward.
    closed spec fn view(&self) -> Seq<Block<H, T>> {
        self.blocks@
    }
}

impl<H, T> PageHeap<H, T> {
    /// The identity of the heap.
    pub closed spec fn spec_id(&self) -> u64 {
        self.id
    }

    /// Whether `r` is a handle of this heap whose address holds a page.
    pub open spec fn live(&self, r: PageRef<H, T>) -> bool {
        r.heap_id() == self.spec_id() && holds(self@, r.addr())
    }

    /// Whether `r` is a handle of this heap whose page an owner has taken
    /// out.
    pub open spec fn lent(&self, r: PageRef<H, T>) -> bool {
        r.heap_id() == self.spec_id() && away(self@, r.addr())
    }

    /// The page at the address of `r`.
    pub open spec fn page(&self, r: PageRef<H, T>) -> Page<H, T>
        recommends
            self.live(r),
    {
        match self@[r.addr()] {
            Block::Held(page) => page,
            _ => arbitrary(),
        }
    }

    /// A heap without blocks, with the provided identity.
    pub fn new(id: u64) -> (r: Self)
        ensures
            r.spec_id() == id,
            r@ == Seq::<Block<H, T>>::empty(),
    {
        PageHeap { id, blocks: Vec::new() }
    }

    /// The identity of the heap.
    pub fn id(&self) -> (r: u64)
        ensures
            r == self.spec_id(),
    {
        self.id
    }

    /// Whether `r` is a handle of this heap whose address holds a page.
    pub fn is_live(&self, r: PageRef<H, T>) -> (b: bool)
        ensures
            b == self.live(r),
    {
        if r.heap != self.id || r.index >= self.blocks.len() {
            return false;
        }
        match &self.blocks[r.index] {
            Block::Held(_) => true,
            _ => false,
        }
    }

    /// Whether `r` is a handle of this heap whose page an owner has taken
    /// out.
    pub fn is_lent(&self, r: PageRef<H, T>) -> (b: bool)
        ensures
            b == self.lent(r),
    {
        if r.heap != self.id || r.index >= self.blocks.len() {
            return false;
        }
        match &self.blocks[r.index] {
            Block::Lent => true,
            _ => false,
        }
    }

    /// Takes over `page` at an address that was never used before.
    pub(crate) fn adopt(&mut self, page: Page<H, T>) -> (r: PageRef<H, T>)
        ensures
            final(self).spec_id() == old(self).spec_id(),
            final(self)@ == adopted(old(self)@, page),
            r.heap_id() == old(self).spec_id(),
            r.addr() == old(self)@.len(),
    {
        let index: usize = self.blocks.len();
        self.blocks.push(Block::Held(page));
        PageRef { heap: self.id, index, _phantom: PhantomData }
    }

    /// Puts `block` at the address of `r` and hands out the page that stood
    /// there.
    fn exchange(&mut self, r: PageRef<H, T>, block: Block<H, T>) -> (page: Page<H, T>)
        requires
            old(self).live(r),
        ensures
            final(self).spec_id() == old(self).spec_id(),
            final(self)@ == old(self)@.update(r.addr(), block),
            page == old(self).page(r),
    {
        let mut cell: Block<H, T> = block;
        self.blocks.set_and_swap(r.index, &mut cell);
        match cell {
            Block::Held(page) => page,
            _ => unreached(),
        }
    }

    /// Hands the page at the address of `r` to an owner; the address waits
    /// for it.
    pub(crate) fn lend(&mut self, r: PageRef<H, T>) -> (page: Page<H, T>)
        requires
            old(self).live(r),
        ensures
            final(self).spec_id() == old(self).spec_id(),
            final(self)@ == lent(old(self)@, r.addr()),
            page == old(self).page(r),
    {
        self.exchange(r, Block::Lent)
    }

    /// Takes `page` back at the address of `r`, from which it was taken.
    pub(crate) fn take_back(&mut self, r: PageRef<H, T>, page: Page<H, T>)
        requires
            old(self).lent(r),
        ensures
            final(self).spec_id() == old(self).spec_id(),
            final(self)@ == returned(old(self)@, r.addr(), page),
    {
        self.blocks.set(r.index, Block::Held(page));
    }

    /// The page at the address of `r`, to read.
    fn block(&self, r: PageRef<H, T>) -> (page: &Page<H, T>)
        requires
            self.live(r),
        ensures
            *page == self.page(r),
    {
        match &self.blocks[r.index] {
            Block::Held(page) => page,
            _ => unreached(),
        }
    }

    /// The page at the address of `r`, to change. No other address changes.
    fn block_mut(&mut self, r: PageRef<H, T>) -> (page: &mut Page<H, T>)
        requires
            old(self).live(r),
        ensures
            *page == old(self).page(r),
            final(self).spec_id() == old(self).spec_id(),
            final(self)@ == returned(old(self)@, r.addr(), *final(page)),
    {
        match &mut self.blocks[r.index] {
            Block::Held(page) => page,
            _ => unreached(),
        }
    }
}

impl<H, T> PageRef<H, T> {
    /// The address that the handle holds.
    pub closed spec fn addr(self) -> int {
        self.index as int
    }

    /// The identity of the heap that the handle belongs to.
    pub closed spec fn heap_id(self) -> u64 {
        self.heap
    }

    /// Whether two handles name the same address of the same heap: what
    /// `==` decides.
    pub open spec fn same(self, other: Self) -> bool {
        self.heap_id() == other.heap_id() && self.addr() == other.addr()
    }

    /// Creates a page in `heap` with the provided header and capacity for
    /// `items` items, every slot empty, at an address that was never used
    /// before.
    pub fn new(heap: &mut PageHeap<H, T>, header: H, items: u32) -> (r: Self)
        requires
            representable::<H, T>(items),
        ensures
            r.heap_id() == old(heap).spec_id(),
            r.addr() == old(heap)@.len(),
            final(heap).spec_id() == old(heap).spec_id(),
            final(heap)@ == adopted(old(heap)@, final(heap).page(r)),
            final(heap).page(r).wf(),
            final(heap).page(r).spec_header() == header,
            final(heap).page(r).spec_desc().items == items,
            final(heap).page(r).slots() == empty_slots::<T>(items as nat),
    {
        heap.adopt(Page::new(header, items))
    }

    /// Creates a page in `heap` as [`PageRef::new`] does, where such a page
    /// can be laid out. Where it cannot, as with a capacity of zero, there
    /// is no handle and the heap is as it was.
    pub fn try_new(heap: &mut PageHeap<H, T>, header: H, items: u32) -> (r: Option<Self>)
        ensures
            r.is_some() <==> representable::<H, T>(items),
            r.is_none() ==> *final(heap) == *old(heap),
            final(heap).spec_id() == old(heap).spec_id(),
            r matches Some(at) ==> {
                &&& at.heap_id() == old(heap).spec_id()
                &&& at.addr() == old(heap)@.len()
                &&& final(heap)@ == adopted(old(heap)@, final(heap).page(at))
                &&& final(heap).page(at).wf()
                &&& final(heap).page(at).spec_header() == header
                &&& final(heap).page(at).spec_desc().items == items
                &&& final(heap).page(at).slots() == empty_slots::<T>(items as nat)
            },
    {
        match Page::try_new(header, items) {
            Some(page) => Some(heap.adopt(page)),
            None => None,
        }
    }

    /// Creates a page in `heap` over the provided slots, with the provided
    /// header and the descriptor of `layout`.
    pub fn from_uninit(
        heap: &mut PageHeap<H, T>,
        slots: Vec<Option<ManuallyDrop<T>>>,
        header: H,
        layout: PageLayout<H, T>,
    ) -> (r: Self)
        requires
            layout.wf(),
            slots@.len() == layout.spec_desc().items,
        ensures
            r.heap_id() == old(heap).spec_id(),
            r.addr() == old(heap)@.len(),
            final(heap).spec_id() == old(heap).spec_id(),
            final(heap)@ == adopted(old(heap)@, final(heap).page(r)),
            final(heap).page(r).wf(),
            final(heap).page(r).spec_header() == header,
            final(heap).page(r).spec_desc() == layout.spec_desc(),
            final(heap).page(r).slots() == items_of(slots@),
    {
        heap.adopt(Page::from_uninit(slots, header, layout))
    }

    /// The capacity of the page's item array.
    pub fn capacity(self, heap: &PageHeap<H, T>) -> (r: u32)
        requires
            heap.live(self),
        ensures
            r == heap.page(self).spec_desc().items,
    {
        self.desc(heap).items
    }

    /// Access to the page's header by reference.
    pub fn header<'a>(&self, heap: &'a PageHeap<H, T>) -> (r: &'a H)
        requires
            heap.live(*self),
        ensures
            *r == heap.page(*self).spec_header(),
    {
        heap.block(*self).header()
    }

    /// Access to the page's header by mutable reference. The page keeps its
    /// descriptor and its slots, and no other address changes.
    pub fn header_mut<'a>(&self, heap: &'a mut PageHeap<H, T>) -> (r: &'a mut H)
        requires
            old(heap).live(*self),
        ensures
            *r == old(heap).page(*self).spec_header(),
            final(heap).spec_id() == old(heap).spec_id(),
            final(heap)@ == returned(old(heap)@, self.addr(), final(heap).page(*self)),
            final(heap).page(*self).spec_header() == *final(r),
            final(heap).page(*self).spec_desc() == old(heap).page(*self).spec_desc(),
            final(heap).page(*self).slots() == old(heap).page(*self).slots(),
            final(heap).page(*self).home() == old(heap).page(*self).home(),
    {
        heap.block_mut(*self).header_mut()
    }

    /// Access to the page's raw item slots, the first of them at index 0.
    pub fn data<'a>(self, heap: &'a PageHeap<H, T>) -> (r: &'a [Option<ManuallyDrop<T>>])
        requires
            heap.live(self),
        ensures
            items_of(r@) == heap.page(self).slots(),
    {
        heap.block(self).data()
    }

    /// Puts `value` into slot `i` of the page and hands back what the slot
    /// held. No other address changes.
    pub fn write(self, heap: &mut PageHeap<H, T>, i: u32, value: T) -> (prev: Option<T>)
        requires
            old(heap).live(self),
            i < old(heap).page(self).slots().len(),
        ensures
            final(heap).spec_id() == old(heap).spec_id(),
            final(heap)@ == returned(old(heap)@, self.addr(), final(heap).page(self)),
            final(heap).page(self).slots() == written(
                old(heap).page(self).slots(),
                i as int,
                value,
            ),
            prev == old(heap).page(self).slots()[i as int],
            final(heap).page(self).spec_header() == old(heap).page(self).spec_header(),
            final(heap).page(self).spec_desc() == old(heap).page(self).spec_desc(),
            final(heap).page(self).home() == old(heap).page(self).home(),
    {
        heap.block_mut(self).write(i, value)
    }

    /// The item in slot `i` of the page, if the slot holds one.
    pub fn read<'a>(self, heap: &'a PageHeap<H, T>, i: u32) -> (r: Option<&'a T>)
        requires
            heap.live(self),
            i < heap.page(self).slots().len(),
        ensures
            r.is_some() == heap.page(self).slots()[i as int].is_some(),
            r matches Some(v) ==> heap.page(self).slots()[i as int] == Some(*v),
    {
        heap.block(self).read(i)
    }

    /// Takes the item out of slot `i` of the page, if the slot holds one,
    /// and leaves the slot empty. No other address changes.
    pub fn take(self, heap: &mut PageHeap<H, T>, i: u32) -> (r: Option<T>)
        requires
            old(heap).live(self),
            i < old(heap).page(self).slots().len(),
        ensures
            final(heap).spec_id() == old(heap).spec_id(),
            final(heap)@ == returned(old(heap)@, self.addr(), final(heap).page(self)),
            final(heap).page(self).slots() == emptied(old(heap).page(self).slots(), i as int),
            r == old(heap).page(self).slots()[i as int],
            final(heap).page(self).spec_header() == old(heap).page(self).spec_header(),
            final(heap).page(self).spec_desc() == old(heap).page(self).spec_desc(),
            final(heap).page(self).home() == old(heap).page(self).home(),
    {
        heap.block_mut(self).take(i)
    }

    /// The layout of the page.
    pub fn layout(self, heap: &PageHeap<H, T>) -> (r: PageLayout<H, T>)
        requires
            heap.live(self),
            heap.page(self).wf(),
        ensures
            r.wf(),
            r.spec_desc() == heap.page(self).spec_desc(),
    {
        heap.block(self).layout()
    }

    /// Releases the page: its header is destroyed, what its slots still
    /// hold is left as it is, and its address is dead from then on. No other
    /// address changes.
    pub fn drop(page: Self, heap: &mut PageHeap<H, T>)
        requires
            old(heap).live(page),
        ensures
            final(heap).spec_id() == old(heap).spec_id(),
            final(heap)@ == released(old(heap)@, page.addr()),
            !final(heap).live(page),
            !final(heap).lent(page),
    {
        let _ = heap.exchange(page, Block::Freed);
    }

    /// The descriptor of the page.
    pub fn desc(self, heap: &PageHeap<H, T>) -> (r: PageDesc)
        requires
            heap.live(self),
        ensures
            r == heap.page(self).spec_desc(),
    {
        heap.block(self).desc()
    }

    /// The header and the descriptor of the page.
    pub fn page_header<'a>(self, heap: &'a PageHeap<H, T>) -> (r: &'a PageHeader<H>)
        requires
            heap.live(self),
        ensures
            r.header == heap.page(self).spec_header(),
            r.desc == heap.page(self).spec_desc(),
    {
        heap.block(self).page_header()
    }
}

} // verus!
