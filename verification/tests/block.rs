use list_item_layout::block::{BaseFlow, BlockFlow, FloatKind, RestyleDamage};
use list_item_layout::content::ListStyleType;
use list_item_layout::fragment::{Fragment, InlineMetrics, IntrinsicISizes, Overflow, Style};
use list_item_layout::geometry::{
    LogicalPoint, LogicalRect, LogicalSize, Point2D, Rect, Size2D, WritingMode,
    WRITING_MODE_VERTICAL, WRITING_MODE_VERTICAL_LR,
};
use list_item_layout::units::Au;

fn rect(x: i32, y: i32, width: i32, height: i32) -> Rect {
    Rect {
        origin: Point2D { x: Au::new(x), y: Au::new(y) },
        size: Size2D { width: Au::new(width), height: Au::new(height) },
    }
}

fn boxed(mode: WritingMode, i: i32, b: i32, inline: i32, block: i32) -> Fragment {
    Fragment {
        style: Style { list_style_type: ListStyleType::Disc, writing_mode: mode },
        border_box: LogicalRect {
            start: LogicalPoint { i: Au::new(i), b: Au::new(b) },
            size: LogicalSize { inline: Au::new(inline), block: Au::new(block) },
        },
        intrinsic_inline_sizes: IntrinsicISizes {
            minimum_inline_size: Au::new(1),
            preferred_inline_size: Au::new(2),
        },
        inline_metrics: InlineMetrics {
            space_above_baseline: Au::new(3),
            space_below_baseline: Au::new(4),
            ascent: Au::new(5),
        },
    }
}

#[test]
fn new_base_flow_is_all_zero() {
    let mode = WritingMode { bits: WRITING_MODE_VERTICAL };
    let base = BaseFlow::new(mode);
    assert_eq!(base.intrinsic_inline_sizes.minimum_inline_size, Au::zero());
    assert_eq!(base.intrinsic_inline_sizes.preferred_inline_size, Au::zero());
    assert_eq!(base.position.start.i, Au::zero());
    assert_eq!(base.position.start.b, Au::zero());
    assert_eq!(base.position.size.inline, Au::zero());
    assert_eq!(base.position.size.block, Au::zero());
    assert_eq!(base.block_container_inline_size, Au::zero());
    assert_eq!(base.stacking_relative_position, Point2D { x: Au::zero(), y: Au::zero() });
    assert_eq!(base.clip, rect(0, 0, 0, 0));
    assert_eq!(base.early_absolute_position_info.relative_containing_block_mode, mode);
    assert_eq!(
        base.early_absolute_position_info.relative_containing_block_size,
        LogicalSize { inline: Au::zero(), block: Au::zero() }
    );
    assert_eq!(base.writing_mode, mode);
    assert_eq!(base.restyle_damage, RestyleDamage::empty());
}

#[test]
fn block_flow_takes_mode_and_float_from_its_inputs() {
    let mode = WritingMode { bits: WRITING_MODE_VERTICAL | WRITING_MODE_VERTICAL_LR };
    let fragment = boxed(mode, 1, 2, 3, 4);
    let flow = BlockFlow::from_fragment_and_float_kind(fragment, Some(FloatKind::Right));
    assert_eq!(flow.fragment, fragment);
    assert_eq!(flow.float_kind, Some(FloatKind::Right));
    assert_eq!(flow.base, BaseFlow::new(mode));
}

#[test]
fn stacking_relative_border_box_moves_with_the_flow() {
    let mode = WritingMode::horizontal_tb();
    let fragment = boxed(mode, 10, 20, 30, 40);
    let mut base = BaseFlow::new(mode);
    base.stacking_relative_position = Point2D { x: Au::new(100), y: Au::new(200) };
    assert_eq!(
        base.stacking_relative_border_box_for_display_list(&fragment),
        rect(110, 220, 30, 40)
    );
    let origin = Point2D { x: Au::new(-10), y: Au::new(-20) };
    let size = LogicalSize { inline: Au::new(500), block: Au::new(500) };
    assert_eq!(fragment.stacking_relative_border_box(&origin, &size, mode), rect(0, 0, 30, 40));
}

#[test]
fn stacking_relative_border_box_in_a_vertical_containing_block() {
    let mode = WritingMode { bits: WRITING_MODE_VERTICAL };
    let fragment = boxed(mode, 10, 20, 30, 40);
    let origin = Point2D { x: Au::new(1), y: Au::new(2) };
    let size = LogicalSize { inline: Au::new(300), block: Au::new(100) };
    assert_eq!(fragment.stacking_relative_border_box(&origin, &size, mode), rect(41, 12, 40, 30));
}

#[test]
fn overflow_union_is_part_by_part() {
    let mut overflow = Overflow { scroll: rect(0, 0, 10, 10), paint: rect(-1, -1, 12, 12) };
    let other = Overflow { scroll: rect(5, 5, 10, 10), paint: rect(0, 0, 1, 1) };
    overflow.union(&other);
    assert_eq!(overflow.scroll, rect(0, 0, 15, 15));
    assert_eq!(overflow.paint, rect(-1, -1, 12, 12));
    assert_eq!(Overflow::from_rect(&rect(1, 2, 3, 4)).scroll, rect(1, 2, 3, 4));
    assert_eq!(Overflow::from_rect(&rect(1, 2, 3, 4)).paint, rect(1, 2, 3, 4));
}
