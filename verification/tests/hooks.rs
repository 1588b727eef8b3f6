use list_item_layout::hooks::{FlowHook, HookBehavior};

#[test]
fn class_is_overridden() {
    assert_eq!(FlowHook::Class.behavior(), HookBehavior::Override);
}

#[test]
fn markers_follow_the_block() {
    for hook in [
        FlowHook::AssignBlockSize,
        FlowHook::ComputeOverflow,
        FlowHook::IterateThroughFragmentBorderBoxes,
        FlowHook::MutateFragments,
    ] {
        assert_eq!(hook.behavior(), HookBehavior::DelegateThenMarkers);
    }
}

#[test]
fn markers_are_painted_before_the_block() {
    assert_eq!(FlowHook::BuildDisplayList.behavior(), HookBehavior::MarkersThenDelegate);
}

#[test]
fn everything_else_is_the_blocks() {
    for hook in [
        FlowHook::BubbleInlineSizes,
        FlowHook::AssignInlineSizes,
        FlowHook::ComputeStackingRelativePosition,
        FlowHook::PlaceFloatIfApplicable,
        FlowHook::ContainsRootsOfAbsoluteFlowTree,
        FlowHook::IsAbsoluteContainingBlock,
        FlowHook::UpdateLateComputedInlinePosition,
        FlowHook::UpdateLateComputedBlockPosition,
        FlowHook::CollectStackingContexts,
        FlowHook::RepairStyle,
        FlowHook::GeneratedContainingBlockSize,
        FlowHook::Positioning,
    ] {
        assert_eq!(hook.behavior(), HookBehavior::Delegate);
    }
}
