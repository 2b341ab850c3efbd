//! The layout calculator: from a header type, an item type and a capacity to
//! the size and alignment of one block and the offsets inside it.
//!
//! A block holds, from byte 0 upward: the header value, the descriptor (two
//! `u32`: capacity and data offset), padding up to the item type's alignment,
//! and the item slots. Its size is padded to its alignment.
use core::marker::PhantomData;
use vstd::arithmetic::div_mod::{
    lemma_fundamental_div_mod, lemma_mod_multiples_basic, lemma_small_mod,
};
use vstd::arithmetic::power2::is_pow2;
use vstd::layout::{align_nonzero, align_of, align_properties, size_of};
use vstd::prelude::*;
use vstd::std_specs::convert::FromSpecImpl;

verus! {

/// Size in bytes of the descriptor embedded in every block.
pub const DESC_SIZE: usize = 8;

/// Alignment in bytes of the descriptor embedded in every block.
pub const DESC_ALIGN: usize = 4;

/// The largest size in bytes of a block: offsets into a block are 32 bits
/// wide.
pub const MAX_BLOCK_SIZE: usize = 0xffff_fff8;

/// The least multiple of `a` that is not below `n`, for `a > 0`.
pub open spec fn round_up(n: int, a: int) -> int
    recommends
        n >= 0,
        a > 0,
{
    if n % a == 0 {
        n
    } else {
        n + a - n % a
    }
}

/// The greater of two integers.
pub open spec fn max_of(a: int, b: int) -> int {
    if a >= b {
        a
    } else {
        b
    }
}

/// Byte offset of the descriptor behind a header of size `hs`.
pub open spec fn desc_offset_of(hs: int) -> int {
    round_up(hs, DESC_ALIGN as int)
}

/// Alignment of the header followed by the descriptor.
pub open spec fn prefix_align_of(ha: int) -> int {
    max_of(ha, DESC_ALIGN as int)
}

/// Size of the header followed by the descriptor, padded to their alignment.
pub open spec fn prefix_size_of(hs: int, ha: int) -> int {
    round_up(desc_offset_of(hs) + DESC_SIZE as int, prefix_align_of(ha))
}

/// Byte offset of the item array: the padded prefix, rounded up to the
/// alignment `ta` of an item.
pub open spec fn data_offset_of(hs: int, ha: int, ta: int) -> int {
    round_up(prefix_size_of(hs, ha), ta)
}

/// Alignment of the whole block.
pub open spec fn block_align_of(ha: int, ta: int) -> int {
    max_of(prefix_align_of(ha), ta)
}

/// Size of the whole block for `items` items of size `ts`.
pub open spec fn block_size_of(hs: int, ha: int, ts: int, ta: int, items: int) -> int {
    round_up(data_offset_of(hs, ha, ta) + items * ts, block_align_of(ha, ta))
}

/// `round_up(n, a)` is a multiple of `a`, is not below `n`, and lies less
/// than `a` above it.
pub proof fn lemma_round_up(n: int, a: int)
    requires
        n >= 0,
        a > 0,
    ensures
        round_up(n, a) % a == 0,
        n <= round_up(n, a) < n + a,
{
    lemma_fundamental_div_mod(n, a);
    if n % a != 0 {
        let q = n / a;
        assert(n + a - n % a == (q + 1) * a) by (nonlinear_arith)
            requires
                n == a * q + n % a,
        ;
        lemma_mod_multiples_basic(q + 1, a);
    }
}

/// No multiple of `a` lies between `n` and `round_up(n, a)`.
pub proof fn lemma_round_up_least(n: int, a: int, m: int)
    requires
        n >= 0,
        a > 0,
        m >= n,
        m % a == 0,
    ensures
        m >= round_up(n, a),
{
    lemma_fundamental_div_mod(n, a);
    lemma_fundamental_div_mod(m, a);
    if n % a != 0 {
        let q = n / a;
        let p = m / a;
        assert(n + a - n % a == (q + 1) * a) by (nonlinear_arith)
            requires
                n == a * q + n % a,
        ;
        if p <= q {
            assert(a * p <= a * q) by (nonlinear_arith)
                requires
                    p <= q,
                    a > 0,
            ;
        } else {
            assert(a * p >= (q + 1) * a) by (nonlinear_arith)
                requires
                    p >= q + 1,
                    a > 0,
            ;
        }
    }
}

/// The least multiple of `a` not below `n`, computed without overflow.
fn round_up_wide(n: u128, a: u128) -> (r: u128)
    requires
        0 < a <= 0xffff_ffff_ffff_ffff,
        n <= 0xffff_ffff_ffff_ffff_ffff_ffff_ffff,
    ensures
        r == round_up(n as int, a as int),
{
    let rem: u128 = n % a;
    if rem == 0 {
        n
    } else {
        n + (a - rem)
    }
}

/// The numbers of a page layout: what a block records about itself.
#[derive(Clone, Copy, Debug, PartialEq, Eq, Structural)]
pub struct PageDesc {
    /// The item capacity.
    pub items: u32,
    /// The offset from the start of a block to its item array.
    pub data: u32,
}

/// The prefix of every block: the caller's header, then the descriptor.
pub struct PageHeader<H> {
    pub header: H,
    pub desc: PageDesc,
}

/// A size and an alignment, as an allocator takes them.
#[derive(Clone, Copy, Debug, PartialEq, Eq, Structural)]
pub struct BlockLayout {
    pub size: usize,
    pub align: usize,
}

/// Describes the memory layout of a page with header type `H` and item type
/// `T`.
pub struct PageLayout<H, T> {
    desc: PageDesc,
    block: BlockLayout,
    _phantom: PhantomData<(H, T)>,
}

/// Byte offset of the descriptor in a block whose header has type `H`.
pub open spec fn desc_offset<H>() -> int {
    desc_offset_of(size_of::<H>() as int)
}

/// Byte offset of the item array in a block for `H` and `T`.
pub open spec fn data_offset<H, T>() -> int {
    data_offset_of(size_of::<H>() as int, align_of::<H>() as int, align_of::<T>() as int)
}

/// Alignment of a block for `H` and `T`.
pub open spec fn block_align<H, T>() -> int {
    block_align_of(align_of::<H>() as int, align_of::<T>() as int)
}

/// Size of a block for `H` and `items` items of type `T`.
pub open spec fn block_size<H, T>(items: int) -> int {
    block_size_of(
        size_of::<H>() as int,
        align_of::<H>() as int,
        size_of::<T>() as int,
        align_of::<T>() as int,
        items,
    )
}

/// Byte offset of slot `i` in a block for `H` and `T`.
pub open spec fn slot_offset<H, T>(i: int) -> int {
    data_offset::<H, T>() + i * size_of::<T>()
}

/// Whether a page of `items` items can be laid out: the capacity is not
/// zero, and the block's size is not above [`MAX_BLOCK_SIZE`] nor above what
/// an allocator accepts. Every offset into such a block fits in 32 bits.
pub open spec fn representable<H, T>(items: u32) -> bool {
    &&& items > 0
    &&& block_size::<H, T>(items as int) <= MAX_BLOCK_SIZE
    &&& block_size::<H, T>(items as int) <= isize::MAX
}

/// The descriptor of a page of `items` items.
pub open spec fn desc_of<H, T>(items: u32) -> PageDesc {
    PageDesc { items, data: data_offset::<H, T>() as u32 }
}

/// The block of a page of `items` items.
pub open spec fn block_of<H, T>(items: u32) -> BlockLayout {
    BlockLayout { size: block_size::<H, T>(items as int) as usize, align: block_align::<H, T>() as usize }
}

/// The numbers of a block for given sizes and alignments, each computed
/// exactly: descriptor offset, data offset, alignment, size.
fn measure(hs: usize, ha: usize, ts: usize, ta: usize, items: u32) -> (r: (u128, u128, u128, u128))
    requires
        ha > 0,
        ta > 0,
    ensures
        r.0 == desc_offset_of(hs as int),
        r.1 == data_offset_of(hs as int, ha as int, ta as int),
        r.2 == block_align_of(ha as int, ta as int),
        r.3 == block_size_of(hs as int, ha as int, ts as int, ta as int, items as int),
        r.2 <= usize::MAX,
{
    let desc_at: u128 = round_up_wide(hs as u128, DESC_ALIGN as u128);
    let prefix_align: u128 = if ha >= DESC_ALIGN { ha as u128 } else { DESC_ALIGN as u128 };
    let align: u128 = if prefix_align >= ta as u128 { prefix_align } else { ta as u128 };
    proof {
        lemma_round_up(hs as int, DESC_ALIGN as int);
        lemma_round_up(desc_at + DESC_SIZE, prefix_align as int);
    }
    let prefix: u128 = round_up_wide(desc_at + DESC_SIZE as u128, prefix_align);
    proof {
        lemma_round_up(prefix as int, ta as int);
    }
    let data: u128 = round_up_wide(prefix, ta as u128);
    assert(items * ts <= 0xffff_ffff * 0xffff_ffff_ffff_ffff) by (nonlinear_arith)
        requires
            0 <= items <= 0xffff_ffff,
            0 <= ts <= 0xffff_ffff_ffff_ffff,
    ;
    let body: u128 = (items as u128) * (ts as u128);
    let size: u128 = round_up_wide(data + body, align);
    (desc_at, data, align, size)
}

/// The byte offset at which the descriptor is embedded behind a header of
/// type `H`, where the descriptor then ends within 32 bits: `None` exactly
/// when it does not.
pub fn try_desc_offset<H>() -> (r: Option<u32>)
    ensures
        r.is_some() <==> desc_offset::<H>() + DESC_SIZE <= u32::MAX,
        r matches Some(at) ==> at == desc_offset::<H>(),
{
    broadcast use align_nonzero;

    let m = measure(core::mem::size_of::<H>(), core::mem::align_of::<H>(), 1, 1, 1);
    if m.0 + DESC_SIZE as u128 > u32::MAX as u128 {
        None
    } else {
        Some(m.0 as u32)
    }
}

impl<H, T> PageLayout<H, T> {
    /// The descriptor that this layout holds.
    pub closed spec fn spec_desc(self) -> PageDesc {
        self.desc
    }

    /// The block that this layout holds.
    pub closed spec fn spec_block(self) -> BlockLayout {
        self.block
    }

    /// A layout is well formed when it is the layout of its own capacity.
    pub open spec fn wf(self) -> bool {
        &&& representable::<H, T>(self.spec_desc().items)
        &&& self.spec_desc() == desc_of::<H, T>(self.spec_desc().items)
        &&& self.spec_block() == block_of::<H, T>(self.spec_desc().items)
    }

    /// The layout of a page with capacity for `items` items, where there is
    /// one: `None` exactly when the capacity is zero or the block would be
    /// too large.
    pub fn try_with_capacity(items: u32) -> (r: Option<Self>)
        ensures
            r.is_some() <==> representable::<H, T>(items),
            r matches Some(l) ==> l.wf() && l.spec_desc().items == items,
    {
        broadcast use align_nonzero;

        if items == 0 {
            return None;
        }
        let m = measure(
            core::mem::size_of::<H>(),
            core::mem::align_of::<H>(),
            core::mem::size_of::<T>(),
            core::mem::align_of::<T>(),
            items,
        );
        proof {
            lemma_data_placed::<H, T>(items);
        }
        if m.3 > MAX_BLOCK_SIZE as u128 || m.3 > isize::MAX as u128 {
            return None;
        }
        Some(
            PageLayout {
                desc: PageDesc { items, data: m.1 as u32 },
                block: BlockLayout { size: m.3 as usize, align: m.2 as usize },
                _phantom: PhantomData,
            },
        )
    }

    /// The layout of a page with capacity for `items` items.
    pub fn with_capacity(items: u32) -> (r: Self)
        requires
            representable::<H, T>(items),
        ensures
            r.wf(),
            r.spec_desc().items == items,
    {
        broadcast use align_nonzero;

        proof {
            lemma_data_placed::<H, T>(items);
        }
        let m = measure(
            core::mem::size_of::<H>(),
            core::mem::align_of::<H>(),
            core::mem::size_of::<T>(),
            core::mem::align_of::<T>(),
            items,
        );
        PageLayout {
            desc: PageDesc { items, data: m.1 as u32 },
            block: BlockLayout { size: m.3 as usize, align: m.2 as usize },
            _phantom: PhantomData,
        }
    }

    /// The size and alignment to allocate and free a block with.
    pub fn layout(self) -> (r: BlockLayout)
        ensures
            r == self.spec_block(),
    {
        self.block
    }

    /// The descriptor to embed in the block.
    pub fn desc(self) -> (r: PageDesc)
        ensures
            r == self.spec_desc(),
    {
        self.desc
    }

    /// The byte offset at which the descriptor is embedded in the block.
    pub fn desc_offset(self) -> (r: u32)
        requires
            self.wf(),
        ensures
            r == desc_offset::<H>(),
    {
        broadcast use align_nonzero;

        proof {
            lemma_data_placed::<H, T>(self.desc.items);
        }
        let m = measure(core::mem::size_of::<H>(), core::mem::align_of::<H>(), 1, 1, 1);
        m.0 as u32
    }

    /// What a well-formed layout holds, as integers: the capacity is not
    /// zero and each number is the one that the layout rules give, none of
    /// them cut short by its machine type.
    pub proof fn lemma_wf_values(self)
        requires
            self.wf(),
        ensures
            self.spec_desc().items > 0,
            self.spec_block().size <= MAX_BLOCK_SIZE,
            self.spec_desc().data as int == data_offset::<H, T>(),
            self.spec_block().size as int == block_size::<H, T>(self.spec_desc().items as int),
            self.spec_block().align as int == block_align::<H, T>(),
    {
        broadcast use align_nonzero;

        let items = self.spec_desc().items;
        lemma_block_aligned::<H, T>(items);
        lemma_data_placed::<H, T>(items);
        let size = block_size::<H, T>(items as int);
        let align = block_align::<H, T>();
        if size < align {
            lemma_small_mod(size as nat, align as nat);
        }
    }

    /// What holds of the numbers in a well-formed layout: the size is a
    /// multiple of the alignment; the alignment is not below that of the
    /// header, of the descriptor or of an item; the item array starts
    /// behind the header and the descriptor, at a multiple of an item's
    /// alignment, and ends inside the block.
    pub proof fn lemma_fields_sound(self)
        requires
            self.wf(),
        ensures
            self.spec_block().size as int % self.spec_block().align as int == 0,
            self.spec_block().align >= align_of::<H>(),
            self.spec_block().align >= DESC_ALIGN,
            self.spec_block().align >= align_of::<T>(),
            self.spec_desc().data >= size_of::<H>() + DESC_SIZE,
            self.spec_desc().data as int % align_of::<T>() as int == 0,
            self.spec_desc().data + self.spec_desc().items * size_of::<T>()
                <= self.spec_block().size,
    {
        self.lemma_wf_values();
        lemma_block_aligned::<H, T>(self.spec_desc().items);
        lemma_data_placed::<H, T>(self.spec_desc().items);
    }
}

/// The size of a block is a multiple of its alignment; its alignment is a
/// power of two and not below that of the header, of the descriptor or of an
/// item.
pub proof fn lemma_block_aligned<H, T>(items: u32)
    ensures
        block_size::<H, T>(items as int) % block_align::<H, T>() == 0,
        block_align::<H, T>() >= align_of::<H>(),
        block_align::<H, T>() >= DESC_ALIGN,
        block_align::<H, T>() >= align_of::<T>(),
        is_pow2(block_align::<H, T>()),
{
    broadcast use align_nonzero;
    broadcast use align_properties;

    assert(is_pow2(4)) by {
        reveal_with_fuel(is_pow2, 3);
    }

    lemma_data_placed::<H, T>(items);
    assert(items * size_of::<T>() >= 0) by (nonlinear_arith)
        requires
            items >= 0,
            size_of::<T>() >= 0,
    ;
    lemma_round_up(
        data_offset::<H, T>() + items * size_of::<T>(),
        block_align::<H, T>(),
    );
}

/// The descriptor lies behind the header and the item array behind the
/// descriptor; the item array starts at a multiple of an item's alignment,
/// and all its items end inside the block.
pub proof fn lemma_data_placed<H, T>(items: u32)
    ensures
        desc_offset::<H>() >= size_of::<H>(),
        desc_offset::<H>() % (DESC_ALIGN as int) == 0,
        data_offset::<H, T>() >= desc_offset::<H>() + DESC_SIZE,
        data_offset::<H, T>() >= size_of::<H>() + DESC_SIZE,
        data_offset::<H, T>() % (align_of::<T>() as int) == 0,
        data_offset::<H, T>() + items * size_of::<T>() <= block_size::<H, T>(items as int),
{
    broadcast use align_nonzero;

    let hs = size_of::<H>() as int;
    lemma_round_up(hs, DESC_ALIGN as int);
    lemma_round_up(desc_offset_of(hs) + DESC_SIZE as int, prefix_align_of(align_of::<H>() as int));
    lemma_round_up(prefix_size_of(hs, align_of::<H>() as int), align_of::<T>() as int);
    assert(items * size_of::<T>() >= 0) by (nonlinear_arith)
        requires
            items >= 0,
            size_of::<T>() >= 0,
    ;
    lemma_round_up(
        data_offset::<H, T>() + items * size_of::<T>(),
        block_align::<H, T>(),
    );
}

/// A page without capacity cannot be laid out, whatever its types.
pub proof fn lemma_zero_capacity<H, T>()
    ensures
        !representable::<H, T>(0),
{
}

/// The slots of a block do not overlap and lie inside it: slot `i` starts
/// `i` item sizes behind the data offset, a later slot starts where an
/// earlier one has ended or behind that, and the last one ends inside the
/// block.
pub proof fn lemma_slots_apart<H, T>(items: u32, i: u32, j: u32)
    requires
        i < j < items,
    ensures
        slot_offset::<H, T>(i as int) + size_of::<T>() <= slot_offset::<H, T>(j as int),
        slot_offset::<H, T>(j as int) + size_of::<T>() <= block_size::<H, T>(items as int),
{
    lemma_data_placed::<H, T>(items);
    let ts = size_of::<T>() as int;
    assert((i + 1) * ts <= j * ts && (j + 1) * ts <= items * ts) by (nonlinear_arith)
        requires
            i < j < items,
            ts >= 0,
    ;
    assert(i * ts + ts == (i + 1) * ts && j * ts + ts == (j + 1) * ts) by (nonlinear_arith);
}

impl<H, T> FromSpecImpl<PageLayout<H, T>> for PageDesc {
    open spec fn obeys_from_spec() -> bool {
        true
    }

    open spec fn from_spec(layout: PageLayout<H, T>) -> Self {
        layout.spec_desc()
    }
}

impl<H, T> From<PageLayout<H, T>> for PageDesc {
    fn from(layout: PageLayout<H, T>) -> (r: Self) {
        layout.desc
    }
}

impl<H, T> Clone for PageLayout<H, T> {
    fn clone(&self) -> (r: Self)
        ensures
            r == *self,
    {
        PageLayout { desc: self.desc, block: self.block, _phantom: PhantomData }
    }
}

impl<H, T> Copy for PageLayout<H, T> {}

} // verus!
