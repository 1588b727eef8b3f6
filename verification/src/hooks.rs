//! The operations that the flow-tree walker runs on every flow, and what a
//! list item does for each of them on top of the block it is built on.

use vstd::prelude::*;

verus! {

/// An operation of the flow-tree walker.
#[derive(Clone, Copy, Debug, PartialEq, Eq, Structural)]
pub enum FlowHook {
    Class,
    BubbleInlineSizes,
    AssignInlineSizes,
    AssignBlockSize,
    ComputeStackingRelativePosition,
    PlaceFloatIfApplicable,
    ContainsRootsOfAbsoluteFlowTree,
    IsAbsoluteContainingBlock,
    UpdateLateComputedInlinePosition,
    UpdateLateComputedBlockPosition,
    BuildDisplayList,
    CollectStackingContexts,
    RepairStyle,
    ComputeOverflow,
    GeneratedContainingBlockSize,
    Positioning,
    IterateThroughFragmentBorderBoxes,
    MutateFragments,
}

/// How a list item answers an operation of the walker.
#[derive(Clone, Copy, Debug, PartialEq, Eq, Structural)]
pub enum HookBehavior {
    /// The list item answers by itself; the block is not asked.
    Override,
    /// The block answers; the markers take no part.
    Delegate,
    /// The block goes first, then the markers are handled.
    DelegateThenMarkers,
    /// The markers are handled first, then the block goes.
    MarkersThenDelegate,
}

impl FlowHook {
    /// How a list item answers this operation. Only five operations involve
    /// the markers: assigning the block size, overflow and the two fragment
    /// walks follow the block, painting precedes it.
    pub open spec fn spec_behavior(self) -> HookBehavior {
        match self {
            FlowHook::Class => HookBehavior::Override,
            FlowHook::AssignBlockSize => HookBehavior::DelegateThenMarkers,
            FlowHook::ComputeOverflow => HookBehavior::DelegateThenMarkers,
            FlowHook::IterateThroughFragmentBorderBoxes => HookBehavior::DelegateThenMarkers,
            FlowHook::MutateFragments => HookBehavior::DelegateThenMarkers,
            FlowHook::BuildDisplayList => HookBehavior::MarkersThenDelegate,
            _ => HookBehavior::Delegate,
        }
    }

    /// How a list item answers this operation.
    #[verifier::when_used_as_spec(spec_behavior)]
    pub fn behavior(self) -> (behavior: HookBehavior)
        ensures
            behavior == self.spec_behavior(),
    {
        match self {
            FlowHook::Class => HookBehavior::Override,
            FlowHook::AssignBlockSize
            | FlowHook::ComputeOverflow
            | FlowHook::IterateThroughFragmentBorderBoxes
            | FlowHook::MutateFragments => HookBehavior::DelegateThenMarkers,
            FlowHook::BuildDisplayList => HookBehavior::MarkersThenDelegate,
            FlowHook::BubbleInlineSizes
            | FlowHook::AssignInlineSizes
            | FlowHook::ComputeStackingRelativePosition
            | FlowHook::PlaceFloatIfApplicable
            | FlowHook::ContainsRootsOfAbsoluteFlowTree
            | FlowHook::IsAbsoluteContainingBlock
            | FlowHook::UpdateLateComputedInlinePosition
            | FlowHook::UpdateLateComputedBlockPosition
            | FlowHook::CollectStackingContexts
            | FlowHook::RepairStyle
            | FlowHook::GeneratedContainingBlockSize
            | FlowHook::Positioning => HookBehavior::Delegate,
        }
    }

    /// Whether this operation reads or writes the markers at all.
    pub open spec fn spec_touches_markers(self) -> bool {
        self.spec_behavior() is DelegateThenMarkers || self.spec_behavior() is MarkersThenDelegate
    }
}

/// Sizing never involves the markers: the operations that report or assign
/// inline sizes are the block's alone.
pub proof fn lemma_sizing_is_delegated()
    ensures
        FlowHook::BubbleInlineSizes.spec_behavior() == HookBehavior::Delegate,
        FlowHook::AssignInlineSizes.spec_behavior() == HookBehavior::Delegate,
        !FlowHook::BubbleInlineSizes.spec_touches_markers(),
        !FlowHook::AssignInlineSizes.spec_touches_markers(),
{
}

} // verus!
