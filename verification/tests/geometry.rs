use list_item_layout::geometry::{
    LogicalPoint, LogicalRect, LogicalSize, Point2D, Rect, Size2D, WritingMode,
    WRITING_MODE_INLINE_REVERSED, WRITING_MODE_RTL, WRITING_MODE_VERTICAL,
    WRITING_MODE_VERTICAL_LR,
};
use list_item_layout::units::{Au, MAX_AU, MIN_AU};

fn rect(x: i32, y: i32, width: i32, height: i32) -> Rect {
    Rect {
        origin: Point2D { x: Au::new(x), y: Au::new(y) },
        size: Size2D { width: Au::new(width), height: Au::new(height) },
    }
}

fn logical(i: i32, b: i32, inline: i32, block: i32) -> LogicalRect {
    LogicalRect {
        start: LogicalPoint { i: Au::new(i), b: Au::new(b) },
        size: LogicalSize { inline: Au::new(inline), block: Au::new(block) },
    }
}

fn size(width: i32, height: i32) -> Size2D {
    Size2D { width: Au::new(width), height: Au::new(height) }
}

fn mode(bits: u8) -> WritingMode {
    WritingMode { bits }
}

#[test]
fn writing_mode_flags() {
    assert_eq!(WritingMode::horizontal_tb().bits, 0);
    assert!(!WritingMode::horizontal_tb().is_vertical());
    assert!(mode(WRITING_MODE_VERTICAL).is_vertical());
    assert!(mode(WRITING_MODE_VERTICAL | WRITING_MODE_VERTICAL_LR).is_vertical());
    assert!(!mode(WRITING_MODE_RTL).is_vertical());
}

#[test]
fn size_to_physical_horizontal_keeps_the_order() {
    let logical_size = LogicalSize { inline: Au::new(30), block: Au::new(40) };
    assert_eq!(logical_size.to_physical(mode(0)), size(30, 40));
    assert_eq!(logical_size.to_physical(mode(WRITING_MODE_RTL)), size(30, 40));
}

#[test]
fn size_to_physical_vertical_swaps() {
    let logical_size = LogicalSize { inline: Au::new(30), block: Au::new(40) };
    assert_eq!(logical_size.to_physical(mode(WRITING_MODE_VERTICAL)), size(40, 30));
    assert_eq!(
        logical_size.to_physical(mode(WRITING_MODE_VERTICAL | WRITING_MODE_VERTICAL_LR)),
        size(40, 30)
    );
}

#[test]
fn rect_to_physical_horizontal_ltr_is_the_identity() {
    assert_eq!(
        logical(10, 20, 30, 40).to_physical(mode(0), size(100, 200)),
        rect(10, 20, 30, 40)
    );
}

#[test]
fn rect_to_physical_horizontal_rtl_measures_from_the_right() {
    assert_eq!(
        logical(10, 20, 30, 40).to_physical(mode(WRITING_MODE_RTL), size(100, 200)),
        rect(60, 20, 30, 40)
    );
}

#[test]
fn rect_to_physical_vertical_rl() {
    assert_eq!(
        logical(10, 20, 30, 40).to_physical(mode(WRITING_MODE_VERTICAL), size(100, 200)),
        rect(40, 10, 40, 30)
    );
}

#[test]
fn rect_to_physical_vertical_lr() {
    assert_eq!(
        logical(10, 20, 30, 40)
            .to_physical(mode(WRITING_MODE_VERTICAL | WRITING_MODE_VERTICAL_LR), size(100, 200)),
        rect(20, 10, 40, 30)
    );
}

#[test]
fn rect_to_physical_vertical_with_reversed_inline_axis() {
    assert_eq!(
        logical(10, 20, 30, 40).to_physical(
            mode(WRITING_MODE_VERTICAL | WRITING_MODE_INLINE_REVERSED),
            size(100, 200)
        ),
        rect(40, 160, 40, 30)
    );
}

#[test]
fn rect_to_physical_saturates() {
    assert_eq!(
        logical(MAX_AU, 0, MAX_AU, 10).to_physical(mode(WRITING_MODE_RTL), size(MIN_AU, 0)),
        rect(MIN_AU, 0, MAX_AU, 10)
    );
}

#[test]
fn translate_moves_the_origin() {
    let by = Point2D { x: Au::new(10), y: Au::new(20) };
    assert_eq!(rect(1, 2, 3, 4).translate(&by), rect(11, 22, 3, 4));
    let back = Point2D { x: Au::new(-1), y: Au::new(-2) };
    assert_eq!(rect(1, 2, 3, 4).translate(&back), rect(0, 0, 3, 4));
}

#[test]
fn translate_saturates() {
    let by = Point2D { x: Au::new(1), y: Au::new(-1) };
    assert_eq!(rect(MAX_AU, MIN_AU, 3, 4).translate(&by), rect(MAX_AU, MIN_AU, 3, 4));
}

#[test]
fn union_spans_both() {
    assert_eq!(rect(0, 0, 10, 10).union(&rect(5, 5, 10, 10)), rect(0, 0, 15, 15));
    assert_eq!(rect(5, 5, 10, 10).union(&rect(0, 0, 10, 10)), rect(0, 0, 15, 15));
    assert_eq!(rect(-20, 0, 20, 10).union(&rect(0, 0, 100, 50)), rect(-20, 0, 120, 50));
}

#[test]
fn union_of_nested_is_the_outer() {
    assert_eq!(rect(0, 0, 100, 100).union(&rect(10, 10, 5, 5)), rect(0, 0, 100, 100));
}

#[test]
fn union_with_empty_is_the_other() {
    assert_eq!(rect(0, 0, 10, 10).union(&rect(100, 100, 0, 5)), rect(0, 0, 10, 10));
    assert_eq!(rect(100, 100, 5, 0).union(&rect(0, 0, 10, 10)), rect(0, 0, 10, 10));
    assert_eq!(rect(100, 100, -5, 5).union(&rect(0, 0, 10, 10)), rect(0, 0, 10, 10));
    assert_eq!(rect(3, 4, 0, 0).union(&rect(7, 8, 0, 0)), rect(3, 4, 0, 0));
}

#[test]
fn union_saturates_the_size() {
    assert_eq!(
        rect(MIN_AU, 0, 10, 10).union(&rect(MAX_AU - 10, 0, 10, 10)),
        rect(MIN_AU, 0, MAX_AU, 10)
    );
}

#[test]
fn union_of_empty_with_far_edge_out_of_range_keeps_the_span() {
    assert_eq!(
        rect(10, 0, MAX_AU, 10).union(&rect(0, 0, 0, 0)),
        rect(10, 0, MAX_AU - 10, 10)
    );
}
