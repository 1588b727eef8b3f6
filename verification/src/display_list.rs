//! The items that layout hands to painting, one per painted fragment.

use vstd::prelude::*;
use crate::fragment::Fragment;
use crate::geometry::Rect;

verus! {

/// How the borders of a fragment are painted.
#[derive(Clone, Copy, Debug, PartialEq, Eq, Structural)]
pub enum BorderPaintingMode {
    /// Each fragment paints its own borders.
    Separate,
    /// Borders are shared with the neighbours, as in a collapsed table.
    Collapse,
    /// No borders are painted.
    Hidden,
}

/// The layer of a stacking context that an item is painted in.
#[derive(Clone, Copy, Debug, PartialEq, Eq, Structural)]
pub enum DisplayListSection {
    BackgroundAndBorders,
    BlockBackgroundsAndBorders,
    Floats,
    Content,
    Positioned,
    Outlines,
}

/// One fragment to paint: where, in which layer, and clipped to what.
#[derive(Clone, Copy, Debug, PartialEq, Eq)]
pub struct DisplayItem {
    pub fragment: Fragment,
    /// The fragment's border box in the coordinates of its stacking context.
    pub stacking_relative_border_box: Rect,
    pub border_painting_mode: BorderPaintingMode,
    pub section: DisplayListSection,
    pub clip: Rect,
}

/// The display list under construction: the items so far, in paint order.
#[derive(Clone, Debug)]
pub struct DisplayListBuildState {
    pub items: Vec<DisplayItem>,
}

impl DisplayListBuildState {
    /// A display list without items.
    pub fn new() -> (state: DisplayListBuildState)
        ensures
            state.items@.len() == 0,
    {
        DisplayListBuildState { items: Vec::new() }
    }
}

impl Fragment {
    /// Adds this fragment to the display list as an item of its own.
    pub fn build_display_list(
        &self,
        state: &mut DisplayListBuildState,
        stacking_relative_border_box: Rect,
        border_painting_mode: BorderPaintingMode,
        section: DisplayListSection,
        clip: Rect,
    )
        ensures
            final(state).items@ == old(state).items@.push(
                DisplayItem {
                    fragment: *self,
                    stacking_relative_border_box,
                    border_painting_mode,
                    section,
                    clip,
                },
            ),
    {
        state.items.push(
            DisplayItem {
                fragment: *self,
                stacking_relative_border_box,
                border_painting_mode,
                section,
                clip,
            },
        );
    }
}

} // verus!
