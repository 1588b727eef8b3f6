//! Fragments: the positioned boxes that layout produces, with the part of
//! their style and metrics that marker layout reads.

use vstd::prelude::*;
use crate::content::ListStyleType;
use crate::geometry::{
    spec_rect_to_physical, spec_size_to_physical, spec_translate, spec_union, LogicalRect,
    LogicalSize, Point2D, Rect, SpecLogicalSize, SpecPoint, SpecRect, WritingMode,
};
use crate::units::Au;

verus! {

/// The computed style of a fragment, as far as marker layout reads it.
#[derive(Clone, Copy, Debug, PartialEq, Eq)]
pub struct Style {
    pub list_style_type: ListStyleType,
    pub writing_mode: WritingMode,
}

/// The intrinsic inline sizes of a fragment's content.
#[derive(Clone, Copy, Debug, PartialEq, Eq)]
pub struct IntrinsicISizes {
    /// The narrowest the content can be made without overflowing.
    pub minimum_inline_size: Au,
    /// The width the content takes when nothing constrains it.
    pub preferred_inline_size: Au,
}

/// Where a fragment sits relative to the baseline of its line.
#[derive(Clone, Copy, Debug, PartialEq, Eq)]
pub struct InlineMetrics {
    pub space_above_baseline: Au,
    pub space_below_baseline: Au,
    /// The distance from the fragment's block-start edge to its baseline.
    pub ascent: Au,
}

/// The metrics that the fragments of one line share.
#[derive(Clone, Copy, Debug, PartialEq, Eq)]
pub struct LineMetrics {
    pub space_above_baseline: Au,
    pub space_below_baseline: Au,
}

/// The area that a box and its contents may paint or scroll to.
#[derive(Clone, Copy, Debug, PartialEq, Eq)]
pub struct Overflow {
    pub scroll: Rect,
    pub paint: Rect,
}

/// An overflow area, as mathematical integers.
pub struct SpecOverflow {
    pub scroll: SpecRect,
    pub paint: SpecRect,
}

impl View for Overflow {
    type V = SpecOverflow;

    open spec fn view(&self) -> SpecOverflow {
        SpecOverflow { scroll: self.scroll@, paint: self.paint@ }
    }
}

/// The overflow area that is exactly `rect`.
pub open spec fn spec_overflow_from_rect(rect: SpecRect) -> SpecOverflow {
    SpecOverflow { scroll: rect, paint: rect }
}

/// The union of two overflow areas, part by part.
pub open spec fn spec_overflow_union(a: SpecOverflow, b: SpecOverflow) -> SpecOverflow {
    SpecOverflow { scroll: spec_union(a.scroll, b.scroll), paint: spec_union(a.paint, b.paint) }
}

impl Overflow {
    /// The overflow area of a box that paints and scrolls within `rect`.
    pub fn from_rect(rect: &Rect) -> (r: Overflow)
        ensures
            r@ == spec_overflow_from_rect(rect@),
    {
        Overflow { scroll: *rect, paint: *rect }
    }

    /// Grows this overflow area to hold `other` as well.
    pub fn union(&mut self, other: &Overflow)
        ensures
            final(self)@ == spec_overflow_union(old(self)@, other@),
    {
        self.scroll = self.scroll.union(&other.scroll);
        self.paint = self.paint.union(&other.paint);
    }
}

/// A positioned box with its style, its border box and its metrics.
#[derive(Clone, Copy, Debug, PartialEq, Eq)]
pub struct Fragment {
    pub style: Style,
    /// The border box, relative to the flow that owns the fragment.
    pub border_box: LogicalRect,
    /// The intrinsic inline sizes of the content.
    pub intrinsic_inline_sizes: IntrinsicISizes,
    /// The fragment's own metrics, aligned to the line it sits on.
    pub inline_metrics: InlineMetrics,
}

/// The border box of `fragment` in the coordinates of its stacking context:
/// its physical rectangle inside the containing block, moved to where the
/// owning flow sits.
pub open spec fn spec_stacking_relative_border_box(
    fragment: Fragment,
    flow_origin: SpecPoint,
    containing_block_size: SpecLogicalSize,
    containing_block_mode: WritingMode,
) -> SpecRect {
    spec_translate(
        spec_rect_to_physical(
            fragment.style.writing_mode,
            fragment.border_box@,
            spec_size_to_physical(containing_block_mode, containing_block_size),
        ),
        flow_origin,
    )
}

impl Fragment {
    /// The inline size that the fragment's content prefers.
    pub fn preferred_inline_size(&self) -> (r: Au)
        ensures
            r == self.intrinsic_inline_sizes.preferred_inline_size,
    {
        self.intrinsic_inline_sizes.preferred_inline_size
    }

    /// The border box of this fragment in the coordinates of its stacking
    /// context. `stacking_relative_flow_origin` is where the owning flow
    /// sits in that context; the containing block's size and mode fix the
    /// physical container.
    pub fn stacking_relative_border_box(
        &self,
        stacking_relative_flow_origin: &Point2D,
        relative_containing_block_size: &LogicalSize,
        relative_containing_block_mode: WritingMode,
    ) -> (r: Rect)
        ensures
            r@ == spec_stacking_relative_border_box(
                *self,
                stacking_relative_flow_origin@,
                relative_containing_block_size@,
                relative_containing_block_mode,
            ),
    {
        let container_size = relative_containing_block_size.to_physical(
            relative_containing_block_mode,
        );
        let border_box = self.border_box.to_physical(self.style.writing_mode, container_size);
        border_box.translate(stacking_relative_flow_origin)
    }
}

} // verus!
