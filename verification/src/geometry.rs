//! Rectangles in flow-relative ("logical") and in physical coordinates, and
//! the conversions between them.

use vstd::prelude::*;
use crate::units::{au_in_range, clamp_au, Au};

verus! {

/// The writing mode of a box, as a set of flag bits.
#[derive(Clone, Copy, Debug, PartialEq, Eq, Structural)]
pub struct WritingMode {
    pub bits: u8,
}

/// Flag bit: the block axis is horizontal, so lines are vertical.
pub const WRITING_MODE_VERTICAL: u8 = 0x01;

/// Flag bit: the inline axis runs against its default direction.
pub const WRITING_MODE_INLINE_REVERSED: u8 = 0x02;

/// Flag bit: in a vertical mode, blocks progress from left to right.
pub const WRITING_MODE_VERTICAL_LR: u8 = 0x04;

/// Flag bit: the inline base direction is right-to-left.
pub const WRITING_MODE_RTL: u8 = 0x10;

impl WritingMode {
    /// Lines are vertical.
    pub open spec fn spec_is_vertical(self) -> bool {
        self.bits & WRITING_MODE_VERTICAL != 0
    }

    /// In a vertical mode, blocks progress from left to right.
    pub open spec fn spec_is_vertical_lr(self) -> bool {
        self.bits & WRITING_MODE_VERTICAL_LR != 0
    }

    /// In a vertical mode, the inline axis runs from top to bottom.
    pub open spec fn spec_is_inline_tb(self) -> bool {
        self.bits & WRITING_MODE_INLINE_REVERSED == 0
    }

    /// In a horizontal mode, the inline axis runs from left to right.
    pub open spec fn spec_is_bidi_ltr(self) -> bool {
        self.bits & WRITING_MODE_RTL == 0
    }

    /// The mode of horizontal lines stacked top to bottom, read left to right.
    pub fn horizontal_tb() -> (r: WritingMode)
        ensures
            r.bits == 0,
    {
        WritingMode { bits: 0 }
    }

    #[verifier::when_used_as_spec(spec_is_vertical)]
    pub fn is_vertical(self) -> (r: bool)
        ensures
            r == self.spec_is_vertical(),
    {
        self.bits & WRITING_MODE_VERTICAL != 0
    }
}

/// A point in physical coordinates, as mathematical integers.
pub struct SpecPoint {
    pub x: int,
    pub y: int,
}

/// A size in physical coordinates, as mathematical integers.
pub struct SpecSize {
    pub width: int,
    pub height: int,
}

/// A rectangle in physical coordinates, as mathematical integers.
pub struct SpecRect {
    pub x: int,
    pub y: int,
    pub width: int,
    pub height: int,
}

/// A size in flow-relative dimensions, as mathematical integers.
pub struct SpecLogicalSize {
    pub inline: int,
    pub block: int,
}

/// A rectangle in flow-relative coordinates, as mathematical integers.
pub struct SpecLogicalRect {
    pub i: int,
    pub b: int,
    pub inline: int,
    pub block: int,
}

/// A point in physical coordinates.
#[derive(Clone, Copy, Debug, PartialEq, Eq)]
pub struct Point2D {
    pub x: Au,
    pub y: Au,
}

/// A size in physical coordinates.
#[derive(Clone, Copy, Debug, PartialEq, Eq)]
pub struct Size2D {
    pub width: Au,
    pub height: Au,
}

/// A rectangle in physical coordinates: an origin and a size.
#[derive(Clone, Copy, Debug, PartialEq, Eq)]
pub struct Rect {
    pub origin: Point2D,
    pub size: Size2D,
}

/// A point in flow-relative coordinates.
#[derive(Clone, Copy, Debug, PartialEq, Eq)]
pub struct LogicalPoint {
    /// The inline-axis coordinate.
    pub i: Au,
    /// The block-axis coordinate.
    pub b: Au,
}

/// A size in flow-relative dimensions.
#[derive(Clone, Copy, Debug, PartialEq, Eq)]
pub struct LogicalSize {
    pub inline: Au,
    pub block: Au,
}

/// A rectangle in flow-relative coordinates.
#[derive(Clone, Copy, Debug, PartialEq, Eq)]
pub struct LogicalRect {
    pub start: LogicalPoint,
    pub size: LogicalSize,
}

impl View for Point2D {
    type V = SpecPoint;

    open spec fn view(&self) -> SpecPoint {
        SpecPoint { x: self.x@, y: self.y@ }
    }
}

impl View for Size2D {
    type V = SpecSize;

    open spec fn view(&self) -> SpecSize {
        SpecSize { width: self.width@, height: self.height@ }
    }
}

impl View for Rect {
    type V = SpecRect;

    open spec fn view(&self) -> SpecRect {
        SpecRect {
            x: self.origin.x@,
            y: self.origin.y@,
            width: self.size.width@,
            height: self.size.height@,
        }
    }
}

impl View for LogicalSize {
    type V = SpecLogicalSize;

    open spec fn view(&self) -> SpecLogicalSize {
        SpecLogicalSize { inline: self.inline@, block: self.block@ }
    }
}

impl View for LogicalRect {
    type V = SpecLogicalRect;

    open spec fn view(&self) -> SpecLogicalRect {
        SpecLogicalRect {
            i: self.start.i@,
            b: self.start.b@,
            inline: self.size.inline@,
            block: self.size.block@,
        }
    }
}

/// The physical size of a flow-relative size: in a vertical mode the inline
/// dimension is the height, otherwise it is the width.
pub open spec fn spec_size_to_physical(mode: WritingMode, size: SpecLogicalSize) -> SpecSize {
    if mode.spec_is_vertical() {
        SpecSize { width: size.block, height: size.inline }
    } else {
        SpecSize { width: size.inline, height: size.block }
    }
}

/// The physical rectangle of a flow-relative rectangle inside a container of
/// the given physical size. Where an axis runs against the physical one, the
/// coordinate is measured back from the container's far edge; every sum and
/// difference saturates at the range of app units.
pub open spec fn spec_rect_to_physical(
    mode: WritingMode,
    rect: SpecLogicalRect,
    container: SpecSize,
) -> SpecRect {
    let inline_end = clamp_au(rect.i + rect.inline);
    let block_end = clamp_au(rect.b + rect.block);
    if mode.spec_is_vertical() {
        SpecRect {
            x: if mode.spec_is_vertical_lr() {
                rect.b
            } else {
                clamp_au(container.width - block_end)
            },
            y: if mode.spec_is_inline_tb() {
                rect.i
            } else {
                clamp_au(container.height - inline_end)
            },
            width: rect.block,
            height: rect.inline,
        }
    } else {
        SpecRect {
            x: if mode.spec_is_bidi_ltr() {
                rect.i
            } else {
                clamp_au(container.width - inline_end)
            },
            y: rect.b,
            width: rect.inline,
            height: rect.block,
        }
    }
}

/// `rect` moved by the offset `by`; the new origin saturates at the range of
/// app units, the size stays.
pub open spec fn spec_translate(rect: SpecRect, by: SpecPoint) -> SpecRect {
    SpecRect {
        x: clamp_au(rect.x + by.x),
        y: clamp_au(rect.y + by.y),
        width: rect.width,
        height: rect.height,
    }
}

/// The far horizontal edge of `rect`, saturated at the range of app units.
pub open spec fn spec_max_x(rect: SpecRect) -> int {
    clamp_au(rect.x + rect.width)
}

/// The far vertical edge of `rect`, saturated at the range of app units.
pub open spec fn spec_max_y(rect: SpecRect) -> int {
    clamp_au(rect.y + rect.height)
}

/// Whether `rect` covers no area: its far edge is not beyond its origin on
/// one of the axes.
pub open spec fn spec_is_empty(rect: SpecRect) -> bool {
    !(spec_max_x(rect) > rect.x && spec_max_y(rect) > rect.y)
}

/// The rectangle that spans from `rect`'s origin to its (saturated) far
/// edges. It is `rect` itself whenever the far edges are in range.
pub open spec fn spec_span(rect: SpecRect) -> SpecRect {
    SpecRect {
        x: rect.x,
        y: rect.y,
        width: clamp_au(spec_max_x(rect) - rect.x),
        height: clamp_au(spec_max_y(rect) - rect.y),
    }
}

/// The smaller of two integers.
pub open spec fn spec_min(a: int, b: int) -> int {
    if a <= b {
        a
    } else {
        b
    }
}

/// The larger of two integers.
pub open spec fn spec_max(a: int, b: int) -> int {
    if a >= b {
        a
    } else {
        b
    }
}

/// The union of two rectangles: if one of them is empty, the span of the
/// other; otherwise the smallest rectangle that holds both, its size
/// saturated at the range of app units.
pub open spec fn spec_union(a: SpecRect, b: SpecRect) -> SpecRect {
    if spec_is_empty(b) {
        spec_span(a)
    } else if spec_is_empty(a) {
        spec_span(b)
    } else {
        let x = spec_min(a.x, b.x);
        let y = spec_min(a.y, b.y);
        SpecRect {
            x,
            y,
            width: clamp_au(spec_max(spec_max_x(a), spec_max_x(b)) - x),
            height: clamp_au(spec_max(spec_max_y(a), spec_max_y(b)) - y),
        }
    }
}

/// Whether `outer` reaches at least as far as `inner` on all four sides.
pub open spec fn spec_covers(outer: SpecRect, inner: SpecRect) -> bool {
    &&& outer.x <= inner.x
    &&& outer.y <= inner.y
    &&& inner.x + inner.width <= outer.x + outer.width
    &&& inner.y + inner.height <= outer.y + outer.height
}

/// Whether the far edges of `rect` are in the range of app units.
pub open spec fn spec_far_edges_in_range(rect: SpecRect) -> bool {
    au_in_range(rect.x + rect.width) && au_in_range(rect.y + rect.height)
}

/// The union of two rectangles covers each of them that is not empty, as
/// long as the far edges of both are in range and the size of the union
/// does not saturate. The union with an empty rectangle is the other one,
/// if its size is in range.
pub proof fn lemma_union_covers(a: SpecRect, b: SpecRect)
    requires
        spec_far_edges_in_range(a),
        spec_far_edges_in_range(b),
        au_in_range(spec_max(a.x + a.width, b.x + b.width) - spec_min(a.x, b.x)),
        au_in_range(spec_max(a.y + a.height, b.y + b.height) - spec_min(a.y, b.y)),
    ensures
        !spec_is_empty(a) ==> spec_covers(spec_union(a, b), a),
        !spec_is_empty(b) ==> spec_covers(spec_union(a, b), b),
        spec_is_empty(b) && au_in_range(a.width) && au_in_range(a.height) ==> spec_union(a, b)
            == a,
{
}

/// Whether all four numbers are in the range of app units.
pub open spec fn spec_quad_in_range(q: (i32, i32, i32, i32)) -> bool {
    &&& au_in_range(q.0 as int)
    &&& au_in_range(q.1 as int)
    &&& au_in_range(q.2 as int)
    &&& au_in_range(q.3 as int)
}

/// The four numbers `(x, y, width, height)` as a physical rectangle.
pub open spec fn spec_rect_of(r: (i32, i32, i32, i32)) -> SpecRect {
    SpecRect { x: r.0 as int, y: r.1 as int, width: r.2 as int, height: r.3 as int }
}

/// The two numbers `(width, height)` as a physical size.
pub open spec fn spec_size_of(s: (i32, i32)) -> SpecSize {
    SpecSize { width: s.0 as int, height: s.1 as int }
}

/// The two numbers `(x, y)` as a physical point.
pub open spec fn spec_point_of(p: (i32, i32)) -> SpecPoint {
    SpecPoint { x: p.0 as int, y: p.1 as int }
}

/// The two numbers `(inline, block)` as a flow-relative size.
pub open spec fn spec_logical_size_of(s: (i32, i32)) -> SpecLogicalSize {
    SpecLogicalSize { inline: s.0 as int, block: s.1 as int }
}

/// The four numbers `(inline start, block start, inline size, block size)`
/// as a flow-relative rectangle.
pub open spec fn spec_logical_rect_of(r: (i32, i32, i32, i32)) -> SpecLogicalRect {
    SpecLogicalRect { i: r.0 as int, b: r.1 as int, inline: r.2 as int, block: r.3 as int }
}

/// The writing mode with the flag bits `bits`.
pub open spec fn spec_mode_of(bits: u8) -> WritingMode {
    WritingMode { bits }
}

/// `style::logical_geometry::LogicalSize::to_physical`: width and height of
/// a flow-relative size, which trade places in a vertical writing mode.
#[verifier::external_body]
fn size_to_physical_raw(bits: u8, size: (i32, i32)) -> (r: (i32, i32))
    ensures
        spec_size_of(r) == spec_size_to_physical(spec_mode_of(bits), spec_logical_size_of(size)),
{
    let mode = style::logical_geometry::WritingMode::from_bits_retain(bits);
    let size = style::logical_geometry::LogicalSize::new(
        mode,
        app_units::Au(size.0),
        app_units::Au(size.1),
    );
    let physical = size.to_physical(mode);
    (physical.width.0, physical.height.0)
}

/// `style::logical_geometry::LogicalRect::to_physical`: the physical
/// rectangle of a flow-relative one, inside a container of physical size
/// `container`. The numbers are `(inline start, block start, inline size,
/// block size)` going in and `(x, y, width, height)` coming out. All
/// arithmetic inside is that of `app_units::Au`, which needs its operands
/// in range.
#[verifier::external_body]
fn rect_to_physical_raw(bits: u8, rect: (i32, i32, i32, i32), container: (i32, i32)) -> (r: (i32, i32, i32, i32))
    requires
        spec_quad_in_range(rect),
        au_in_range(container.0 as int),
        au_in_range(container.1 as int),
    ensures
        spec_rect_of(r) == spec_rect_to_physical(
            spec_mode_of(bits),
            spec_logical_rect_of(rect),
            spec_size_of(container),
        ),
{
    let mode = style::logical_geometry::WritingMode::from_bits_retain(bits);
    let logical = style::logical_geometry::LogicalRect::new(
        mode,
        app_units::Au(rect.0),
        app_units::Au(rect.1),
        app_units::Au(rect.2),
        app_units::Au(rect.3),
    );
    let size = euclid::default::Size2D::new(app_units::Au(container.0), app_units::Au(container.1));
    let physical = logical.to_physical(mode, size);
    (physical.origin.x.0, physical.origin.y.0, physical.size.width.0, physical.size.height.0)
}

/// `euclid::Rect::translate`, by the vector that `euclid::Point2D::to_vector`
/// makes of the point `by`: the origin moves by `by`, in the saturating
/// arithmetic of `app_units::Au`, and the size stays.
#[verifier::external_body]
fn rect_translate_raw(rect: (i32, i32, i32, i32), by: (i32, i32)) -> (r: (i32, i32, i32, i32))
    requires
        au_in_range(rect.0 as int),
        au_in_range(rect.1 as int),
        au_in_range(by.0 as int),
        au_in_range(by.1 as int),
    ensures
        spec_rect_of(r) == spec_translate(spec_rect_of(rect), spec_point_of(by)),
{
    let origin = euclid::default::Point2D::new(app_units::Au(rect.0), app_units::Au(rect.1));
    let size = euclid::default::Size2D::new(app_units::Au(rect.2), app_units::Au(rect.3));
    let offset = euclid::default::Point2D::new(app_units::Au(by.0), app_units::Au(by.1));
    let moved = euclid::default::Rect::new(origin, size).translate(offset.to_vector());
    (moved.origin.x.0, moved.origin.y.0, moved.size.width.0, moved.size.height.0)
}

/// `euclid::Rect::union`: both rectangles are turned into boxes of two
/// corners; if one box is empty the other is the result, otherwise the box
/// around both; the result is turned back into origin and size. All
/// arithmetic inside is that of `app_units::Au`, which needs its operands
/// in range.
#[verifier::external_body]
fn rect_union_raw(a: (i32, i32, i32, i32), b: (i32, i32, i32, i32)) -> (r: (i32, i32, i32, i32))
    requires
        spec_quad_in_range(a),
        spec_quad_in_range(b),
    ensures
        spec_rect_of(r) == spec_union(spec_rect_of(a), spec_rect_of(b)),
{
    let first = euclid::default::Rect::new(
        euclid::default::Point2D::new(app_units::Au(a.0), app_units::Au(a.1)),
        euclid::default::Size2D::new(app_units::Au(a.2), app_units::Au(a.3)),
    );
    let second = euclid::default::Rect::new(
        euclid::default::Point2D::new(app_units::Au(b.0), app_units::Au(b.1)),
        euclid::default::Size2D::new(app_units::Au(b.2), app_units::Au(b.3)),
    );
    let both = first.union(&second);
    (both.origin.x.0, both.origin.y.0, both.size.width.0, both.size.height.0)
}

impl LogicalSize {
    /// The physical size of this flow-relative size in writing mode `mode`.
    pub fn to_physical(&self, mode: WritingMode) -> (r: Size2D)
        ensures
            r@ == spec_size_to_physical(mode, self@),
    {
        let raw = size_to_physical_raw(mode.bits, (self.inline.to_i32(), self.block.to_i32()));
        Size2D { width: Au::from_raw(raw.0), height: Au::from_raw(raw.1) }
    }
}

impl LogicalRect {
    /// The physical rectangle of this flow-relative rectangle, laid out in
    /// writing mode `mode` inside a container of physical size `container`.
    pub fn to_physical(&self, mode: WritingMode, container: Size2D) -> (r: Rect)
        ensures
            r@ == spec_rect_to_physical(mode, self@, container@),
    {
        let raw = rect_to_physical_raw(
            mode.bits,
            (
                self.start.i.to_i32(),
                self.start.b.to_i32(),
                self.size.inline.to_i32(),
                self.size.block.to_i32(),
            ),
            (container.width.to_i32(), container.height.to_i32()),
        );
        Rect {
            origin: Point2D { x: Au::from_raw(raw.0), y: Au::from_raw(raw.1) },
            size: Size2D { width: Au::from_raw(raw.2), height: Au::from_raw(raw.3) },
        }
    }
}

impl Rect {
    /// This rectangle moved by the offset `by`.
    pub fn translate(&self, by: &Point2D) -> (r: Rect)
        ensures
            r@ == spec_translate(self@, by@),
    {
        let raw = rect_translate_raw(
            (
                self.origin.x.to_i32(),
                self.origin.y.to_i32(),
                self.size.width.to_i32(),
                self.size.height.to_i32(),
            ),
            (by.x.to_i32(), by.y.to_i32()),
        );
        Rect {
            origin: Point2D { x: Au::from_raw(raw.0), y: Au::from_raw(raw.1) },
            size: Size2D { width: Au::from_raw(raw.2), height: Au::from_raw(raw.3) },
        }
    }

    /// The union of this rectangle and `other`.
    pub fn union(&self, other: &Rect) -> (r: Rect)
        ensures
            r@ == spec_union(self@, other@),
    {
        let raw = rect_union_raw(
            (
                self.origin.x.to_i32(),
                self.origin.y.to_i32(),
                self.size.width.to_i32(),
                self.size.height.to_i32(),
            ),
            (
                other.origin.x.to_i32(),
                other.origin.y.to_i32(),
                other.size.width.to_i32(),
                other.size.height.to_i32(),
            ),
        );
        Rect {
            origin: Point2D { x: Au::from_raw(raw.0), y: Au::from_raw(raw.1) },
            size: Size2D { width: Au::from_raw(raw.2), height: Au::from_raw(raw.3) },
        }
    }
}

} // verus!
