//! Textual rendering of small values: decimal and based integers, a
//! bracketed list renderer, display/debug renderings for a handful of
//! record shapes, and width/fill alignment.

pub mod align;
pub mod digits;
pub mod list;
pub mod records;
