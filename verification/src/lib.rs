//! Layout of list-item markers: the bullet, number or disclosure glyph that
//! sits beside a block whose style asks for `display: list-item`.
//!
//! The crate classifies the marker's content from `list-style-type`, places
//! the marker fragments along the inline axis (flowing around floats) and
//! along the block axis (on one shared baseline), and adds the markers to
//! the display list, the overflow area and the fragment walks of the block
//! they belong to.

pub mod units;
pub mod geometry;
pub mod content;
pub mod fragment;
pub mod block;
pub mod display_list;
pub mod list_item;
pub mod hooks;
pub mod laws;
