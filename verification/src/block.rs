//! The block that a list item is built on, as far as marker layout reads
//! and writes it, and the small vocabulary of the flow tree around it.

use vstd::prelude::*;
use crate::fragment::{spec_stacking_relative_border_box, Fragment, IntrinsicISizes};
use crate::geometry::{
    LogicalPoint, LogicalRect, LogicalSize, Point2D, Rect, Size2D, SpecRect, WritingMode,
};
use crate::units::Au;

verus! {

/// The side that a floated box is pushed to.
#[derive(Clone, Copy, Debug, PartialEq, Eq, Structural)]
pub enum FloatKind {
    Left,
    Right,
}

/// The kinds of flow that the tree walker tells apart.
#[derive(Clone, Copy, Debug, PartialEq, Eq, Structural)]
pub enum FlowClass {
    Block,
    Inline,
    ListItem,
    TableWrapper,
    Table,
    TableColGroup,
    TableRowGroup,
    TableRow,
    TableCaption,
    TableCell,
    Multicol,
    MulticolColumn,
    Flex,
}

/// Flag bit: generated content in this flow has to be resolved again, even
/// if the flow's own style did not change.
pub const RESOLVE_GENERATED_CONTENT: u8 = 0x40;

/// What a later pass has to redo for a flow, as a set of flag bits.
#[derive(Clone, Copy, Debug, PartialEq, Eq, Structural)]
pub struct RestyleDamage {
    pub bits: u8,
}

impl RestyleDamage {
    /// Whether every flag of `flags` is set.
    pub open spec fn spec_contains(self, flags: u8) -> bool {
        self.bits & flags == flags
    }

    /// This damage with the flags of `flags` set as well.
    pub open spec fn spec_insert(self, flags: u8) -> RestyleDamage {
        RestyleDamage { bits: self.bits | flags }
    }

    /// No damage.
    pub fn empty() -> (r: RestyleDamage)
        ensures
            r.bits == 0,
    {
        RestyleDamage { bits: 0 }
    }

    /// Whether every flag of `flags` is set.
    #[verifier::when_used_as_spec(spec_contains)]
    pub fn contains(self, flags: u8) -> (r: bool)
        ensures
            r == self.spec_contains(flags),
    {
        self.bits & flags == flags
    }

    /// Sets the flags of `flags`.
    pub fn insert(&mut self, flags: u8)
        ensures
            *final(self) == old(self).spec_insert(flags),
    {
        self.bits = self.bits | flags;
    }
}

/// Inserting flags sets them and leaves every other flag as it was.
pub proof fn lemma_insert_sets_flags(damage: RestyleDamage, flags: u8, other: u8)
    ensures
        damage.spec_insert(flags).spec_contains(flags),
        other & flags == 0 ==> (damage.spec_insert(flags).spec_contains(other)
            <==> damage.spec_contains(other)),
{
    let b = damage.bits;
    assert((b | flags) & flags == flags) by (bit_vector);
    assert(other & flags == 0 ==> (((b | flags) & other == other) <==> (b & other == other)))
        by (bit_vector);
}

/// What a flow knows early about the block that positions its
/// relatively-placed content.
#[derive(Clone, Copy, Debug, PartialEq, Eq)]
pub struct EarlyAbsolutePositionInfo {
    pub relative_containing_block_size: LogicalSize,
    pub relative_containing_block_mode: WritingMode,
}

/// The state that every flow carries.
#[derive(Clone, Copy, Debug, PartialEq, Eq)]
pub struct BaseFlow {
    /// The flow's intrinsic inline sizes, as the sizing pass reported them.
    pub intrinsic_inline_sizes: IntrinsicISizes,
    /// The position of the flow relative to its container.
    pub position: LogicalRect,
    /// The inline size of the block container of this flow.
    pub block_container_inline_size: Au,
    /// Where the flow sits in its stacking context.
    pub stacking_relative_position: Point2D,
    pub early_absolute_position_info: EarlyAbsolutePositionInfo,
    /// The clipping rectangle for this flow and its descendants.
    pub clip: Rect,
    pub writing_mode: WritingMode,
    pub restyle_damage: RestyleDamage,
}

/// A block flow: the flow state and the fragment of the block's own box.
#[derive(Clone, Copy, Debug, PartialEq, Eq)]
pub struct BlockFlow {
    pub base: BaseFlow,
    pub fragment: Fragment,
    /// The side the block floats to, if it floats.
    pub float_kind: Option<FloatKind>,
}

/// The band of the float area that a query looks at: it starts at
/// `block_start`, is `block_size` tall, and the container around it is
/// `inline_size` wide.
#[derive(Clone, Copy, Debug, PartialEq, Eq)]
pub struct FloatBand {
    pub block_start: Au,
    pub block_size: Au,
    pub inline_size: Au,
}

impl BaseFlow {
    /// Whether `base` holds the geometry of a flow that has not been laid
    /// out yet: everything is zero, and the modes are `writing_mode`.
    pub open spec fn spec_unsized(writing_mode: WritingMode, base: BaseFlow) -> bool {
        &&& base.intrinsic_inline_sizes.minimum_inline_size@ == 0
        &&& base.intrinsic_inline_sizes.preferred_inline_size@ == 0
        &&& base.position@.i == 0
        &&& base.position@.b == 0
        &&& base.position@.inline == 0
        &&& base.position@.block == 0
        &&& base.block_container_inline_size@ == 0
        &&& base.stacking_relative_position@.x == 0
        &&& base.stacking_relative_position@.y == 0
        &&& base.early_absolute_position_info.relative_containing_block_size@.inline == 0
        &&& base.early_absolute_position_info.relative_containing_block_size@.block == 0
        &&& base.early_absolute_position_info.relative_containing_block_mode == writing_mode
        &&& base.clip@.x == 0
        &&& base.clip@.y == 0
        &&& base.clip@.width == 0
        &&& base.clip@.height == 0
        &&& base.writing_mode == writing_mode
    }

    /// The state of a flow that has not been laid out yet: all geometry is
    /// zero and nothing is damaged.
    pub fn new(writing_mode: WritingMode) -> (base: BaseFlow)
        ensures
            Self::spec_unsized(writing_mode, base),
            base.restyle_damage.bits == 0,
    {
        let zero = Au::zero();
        let zero_size = LogicalSize { inline: zero, block: zero };
        BaseFlow {
            intrinsic_inline_sizes: IntrinsicISizes {
                minimum_inline_size: zero,
                preferred_inline_size: zero,
            },
            position: LogicalRect { start: LogicalPoint { i: zero, b: zero }, size: zero_size },
            block_container_inline_size: zero,
            stacking_relative_position: Point2D { x: zero, y: zero },
            early_absolute_position_info: EarlyAbsolutePositionInfo {
                relative_containing_block_size: zero_size,
                relative_containing_block_mode: writing_mode,
            },
            clip: Rect {
                origin: Point2D { x: zero, y: zero },
                size: Size2D { width: zero, height: zero },
            },
            writing_mode,
            restyle_damage: RestyleDamage::empty(),
        }
    }
}

impl BaseFlow {
    /// The border box of `fragment`, one of this flow's own, in the
    /// coordinates of the stacking context, as painting needs it.
    pub fn stacking_relative_border_box_for_display_list(&self, fragment: &Fragment) -> (r: Rect)
        ensures
            r@ == self.spec_stacking_relative_border_box_of(*fragment),
    {
        fragment.stacking_relative_border_box(
            &self.stacking_relative_position,
            &self.early_absolute_position_info.relative_containing_block_size,
            self.early_absolute_position_info.relative_containing_block_mode,
        )
    }

    /// The border box of `fragment`, one of this flow's own, in the
    /// coordinates of the stacking context.
    pub open spec fn spec_stacking_relative_border_box_of(self, fragment: Fragment) -> SpecRect {
        spec_stacking_relative_border_box(
            fragment,
            self.stacking_relative_position@,
            self.early_absolute_position_info.relative_containing_block_size@,
            self.early_absolute_position_info.relative_containing_block_mode,
        )
    }
}

impl BlockFlow {
    /// The block flow around `fragment`, floated as `float_kind` says, before
    /// any layout.
    pub fn from_fragment_and_float_kind(fragment: Fragment, float_kind: Option<FloatKind>) -> (flow:
        BlockFlow)
        ensures
            BaseFlow::spec_unsized(fragment.style.writing_mode, flow.base),
            flow.base.restyle_damage.bits == 0,
            flow.fragment == fragment,
            flow.float_kind == float_kind,
    {
        BlockFlow { base: BaseFlow::new(fragment.style.writing_mode), fragment, float_kind }
    }
}

} // verus!
