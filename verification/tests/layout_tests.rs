use pages::layout::{try_desc_offset, DESC_ALIGN, DESC_SIZE, MAX_BLOCK_SIZE};
use pages::{PageDesc, PageLayout};

fn round_up(n: usize, a: usize) -> usize {
    ((n + a - 1) / a) * a
}

fn check_pair<H, T>(items: u32) {
    let layout = PageLayout::<H, T>::try_with_capacity(items).expect("a layout");
    let desc = layout.desc();
    let block = layout.layout();
    let hs = core::mem::size_of::<H>();
    let ha = core::mem::align_of::<H>();
    let ts = core::mem::size_of::<T>();
    let ta = core::mem::align_of::<T>();
    assert_eq!(desc.items, items);
    assert_eq!(block.size % block.align, 0);
    assert!(block.align.is_power_of_two());
    assert!(block.align >= ha);
    assert!(block.align >= DESC_ALIGN);
    assert!(block.align >= ta);
    assert_eq!(block.align, ha.max(DESC_ALIGN).max(ta));
    let data = desc.data as usize;
    assert!(data >= hs + DESC_SIZE);
    assert_eq!(data % ta, 0);
    assert!(data + (items as usize) * ts <= block.size);
    assert!(block.size <= MAX_BLOCK_SIZE);
    let at = layout.desc_offset() as usize;
    assert!(at >= hs);
    assert_eq!(at % DESC_ALIGN, 0);
    assert!(at + DESC_SIZE <= data);
    assert_eq!(at, round_up(hs, DESC_ALIGN));
    let prefix = round_up(at + DESC_SIZE, ha.max(DESC_ALIGN));
    assert_eq!(data, round_up(prefix, ta));
    assert_eq!(block.size, round_up(data + (items as usize) * ts, block.align));
}

#[test]
fn layout_of_bytes_is_exact() {
    let layout = PageLayout::<u8, u8>::with_capacity(3);
    assert_eq!(layout.desc(), PageDesc { items: 3, data: 12 });
    assert_eq!(layout.desc_offset(), 4);
    assert_eq!(layout.layout().size, 16);
    assert_eq!(layout.layout().align, 4);
}

#[test]
fn layout_of_short_header_and_words_is_exact() {
    let layout = PageLayout::<u16, u32>::with_capacity(5);
    assert_eq!(layout.desc(), PageDesc { items: 5, data: 12 });
    assert_eq!(layout.desc_offset(), 4);
    assert_eq!(layout.layout().size, 32);
    assert_eq!(layout.layout().align, 4);
}

#[test]
fn layout_of_wide_header_is_exact() {
    let layout = PageLayout::<[u8; 16], u8>::with_capacity(1);
    assert_eq!(layout.desc(), PageDesc { items: 1, data: 24 });
    assert_eq!(layout.desc_offset(), 16);
    assert_eq!(layout.layout().size, 28);
    assert_eq!(layout.layout().align, 4);
}

#[test]
fn layout_pads_to_item_alignment() {
    let layout = PageLayout::<bool, u64>::with_capacity(1);
    let ta = core::mem::align_of::<u64>();
    assert_eq!(layout.desc().data as usize, round_up(12, ta));
    assert_eq!(layout.layout().align, ta.max(4));
    assert_eq!(layout.layout().size, round_up(round_up(12, ta) + 8, ta.max(4)));
}

#[test]
fn layout_with_empty_header() {
    let layout = PageLayout::<(), u8>::with_capacity(1);
    assert_eq!(layout.desc(), PageDesc { items: 1, data: 8 });
    assert_eq!(layout.desc_offset(), 0);
    assert_eq!(layout.layout().size, 12);
    assert_eq!(layout.layout().align, 4);
}

#[test]
fn layout_with_empty_items() {
    let layout = PageLayout::<u8, ()>::with_capacity(1000);
    assert_eq!(layout.desc(), PageDesc { items: 1000, data: 12 });
    assert_eq!(layout.layout().size, 12);
}

#[test]
fn size_is_multiple_of_alignment_for_many_pairs() {
    for items in [1u32, 2, 3, 7, 8, 9, 100, 1000, 65_535, 1 << 20] {
        check_pair::<bool, usize>(items);
        check_pair::<u8, u8>(items);
        check_pair::<u64, u16>(items);
        check_pair::<(u8, u32), u128>(items);
        check_pair::<[u8; 17], [u16; 3]>(items);
        check_pair::<(), ()>(items);
        check_pair::<String, Vec<u8>>(items);
    }
}

#[test]
fn zero_capacity_has_no_layout() {
    assert!(PageLayout::<bool, usize>::try_with_capacity(0).is_none());
    assert!(PageLayout::<(), ()>::try_with_capacity(0).is_none());
    assert!(PageLayout::<bool, usize>::try_with_capacity(1).is_some());
}

#[test]
fn largest_block_of_bytes() {
    if core::mem::size_of::<usize>() == 8 {
        let layout = PageLayout::<u8, u8>::try_with_capacity(0xffff_ffec).expect("a layout");
        assert_eq!(layout.desc(), PageDesc { items: 0xffff_ffec, data: 12 });
        assert_eq!(layout.layout().size, MAX_BLOCK_SIZE);
        assert!(PageLayout::<u8, u8>::try_with_capacity(0xffff_ffed).is_none());
        assert!(PageLayout::<u8, u8>::try_with_capacity(u32::MAX).is_none());
        assert!(PageLayout::<(), u8>::try_with_capacity(u32::MAX).is_none());
    }
}

#[test]
fn largest_header() {
    if core::mem::size_of::<usize>() == 8 {
        assert!(PageLayout::<[u8; 0xffff_fff8], u8>::try_with_capacity(1).is_none());
        assert!(PageLayout::<[u8; 0xffff_fff4], u8>::try_with_capacity(1).is_none());
        assert!(PageLayout::<[u8; 0xffff_ffed], u8>::try_with_capacity(1).is_none());
        let last = PageLayout::<[u8; 0xffff_ffec], u8>::try_with_capacity(1).expect("a layout");
        assert_eq!(last.desc().data, 0xffff_fff4);
        assert_eq!(last.desc_offset(), 0xffff_ffec);
        assert_eq!(last.layout().size, MAX_BLOCK_SIZE);
        assert!(PageLayout::<[u8; 0xffff_ffec], u8>::try_with_capacity(5).is_none());
    }
}

#[test]
fn largest_block_of_wide_items() {
    assert_eq!(MAX_BLOCK_SIZE, 0xffff_fff8);
    if core::mem::size_of::<usize>() == 8 {
        assert!(PageLayout::<u8, [u8; 1 << 40]>::try_with_capacity(1).is_none());
        assert!(PageLayout::<u8, [u8; 1 << 31]>::try_with_capacity(2).is_none());
        assert!(PageLayout::<u8, [u8; 1 << 31]>::try_with_capacity(1).is_some());
        let most = ((MAX_BLOCK_SIZE - 12) / 4) as u32;
        let layout = PageLayout::<u8, u32>::try_with_capacity(most).expect("a layout");
        assert_eq!(layout.layout().size, MAX_BLOCK_SIZE);
        assert!(PageLayout::<u8, u32>::try_with_capacity(most + 1).is_none());
    }
}

#[test]
fn descriptor_comes_from_layout() {
    let layout = PageLayout::<u16, u32>::with_capacity(5);
    let desc = PageDesc::from(layout);
    assert_eq!(desc, layout.desc());
    assert_eq!(desc.items, 5);
    assert_eq!(desc.data, 12);
}

#[test]
fn layout_is_copied_with_its_numbers() {
    let layout = PageLayout::<u16, u32>::with_capacity(5);
    let copy = layout;
    let clone = layout.clone();
    assert_eq!(copy.desc(), layout.desc());
    assert_eq!(clone.layout(), layout.layout());
}

#[test]
fn descriptor_offset_depends_on_the_header_alone() {
    assert_eq!(try_desc_offset::<()>(), Some(0));
    assert_eq!(try_desc_offset::<u8>(), Some(4));
    assert_eq!(try_desc_offset::<[u8; 4]>(), Some(4));
    assert_eq!(try_desc_offset::<[u8; 5]>(), Some(8));
    assert_eq!(try_desc_offset::<[u8; 16]>(), Some(16));
    if core::mem::size_of::<usize>() == 8 {
        assert_eq!(try_desc_offset::<[u8; 0xffff_fff4]>(), Some(0xffff_fff4));
        assert_eq!(try_desc_offset::<[u8; 0xffff_fff5]>(), None);
    }
    let layout = PageLayout::<[u8; 5], u64>::with_capacity(2);
    assert_eq!(Some(layout.desc_offset()), try_desc_offset::<[u8; 5]>());
}

#[test]
fn descriptor_measures_two_words() {
    assert_eq!(DESC_SIZE, 8);
    assert_eq!(DESC_ALIGN, 4);
    assert_eq!(core::mem::size_of::<PageDesc>(), DESC_SIZE);
    assert_eq!(core::mem::align_of::<PageDesc>(), DESC_ALIGN);
}
