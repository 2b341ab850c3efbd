//! Dynamically sized data pages: a caller-chosen header and an array of item
//! slots described by one combined memory layout.
//!
//! The crate has three parts. `layout` computes, for a header type, an item
//! type and a capacity, the size and alignment of the block that holds a page
//! and the byte offsets of the descriptor and of the item array inside it.
//! `page` holds the owning handle, [`Page`], and `page_ref` the copyable
//! handle, [`PageRef`], together with the [`PageHeap`] that stands for the
//! blocks that are managed by hand.
pub mod layout;
pub mod page;
pub mod page_ref;

pub use layout::{BlockLayout, PageDesc, PageHeader, PageLayout};
pub use page::Page;
pub use page_ref::{Block, PageHeap, PageRef};
