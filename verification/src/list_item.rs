//! Layout for elements with a CSS `display` property of `list-item`. These
//! elements consist of a block and an extra inline fragment for the marker.

use vstd::prelude::*;
use crate::block::{
    BaseFlow, BlockFlow, FloatBand, FloatKind, FlowClass, RESOLVE_GENERATED_CONTENT,
};
use crate::display_list::{
    BorderPaintingMode, DisplayItem, DisplayListBuildState, DisplayListSection,
};
use crate::fragment::{
    spec_overflow_union, Fragment, IntrinsicISizes, LineMetrics, Overflow, SpecOverflow,
};
use crate::geometry::{
    spec_size_to_physical, spec_translate, LogicalRect, LogicalSize, Point2D, Rect, Size2D,
    SpecPoint, SpecRect, SpecSize,
};
use crate::units::{clamp_au, Au};

verus! {

/// A block with the CSS `display` property equal to `list-item`.
#[derive(Clone, Debug)]
pub struct ListItemFlow {
    /// Data common to all block flows.
    pub block_flow: BlockFlow,
    /// The marker, if outside. (Markers that are inside are instead just
    /// fragments of the inline content.) The order is that of painting and
    /// of the fragment walks; inline placement runs through it backwards.
    pub marker_fragments: Vec<Fragment>,
}

/// Whether the markers ask for content that the generated-content pass has
/// to resolve: the first marker decides, and no marker asks for nothing.
pub open spec fn spec_markers_need_generated_content(markers: Seq<Fragment>) -> bool {
    markers.len() > 0 && markers[0].style.list_style_type.spec_needs_generated_content()
}

/// The damage that a new list item with these markers starts with: the
/// generated-content flag where the markers need such content, and nothing
/// else.
pub open spec fn spec_initial_damage(markers: Seq<Fragment>) -> u8 {
    if spec_markers_need_generated_content(markers) {
        RESOLVE_GENERATED_CONTENT
    } else {
        0
    }
}

/// The inline cursor once the markers from index `k` to the last are placed,
/// starting at `start` and walking from the last marker down: each marker
/// moves the cursor towards the inline start by its preferred inline size,
/// in the saturating arithmetic of app units.
pub open spec fn spec_inline_cursor(markers: Seq<Fragment>, start: int, k: int) -> int
    decreases markers.len() - k,
{
    if 0 <= k < markers.len() {
        clamp_au(
            spec_inline_cursor(markers, start, k + 1)
                - markers[k].intrinsic_inline_sizes.preferred_inline_size@,
        )
    } else {
        start
    }
}

/// The inline edge that marker placement starts from: the inline start of
/// the free rectangle among the floats, or of the block's own border box
/// where no float is in the way.
pub open spec fn spec_inline_anchor(available_rect: Option<LogicalRect>, block: BlockFlow) -> int {
    match available_rect {
        Some(rect) => rect.start.i@,
        None => block.fragment.border_box.start.i@,
    }
}

/// Whether `after` is `before` placed along the inline axis: its inline size
/// is its preferred inline size, its inline start is `inline_start`, and
/// nothing else has changed.
pub open spec fn spec_placed_inline(before: Fragment, after: Fragment, inline_start: int) -> bool {
    &&& after.border_box.size.inline == before.intrinsic_inline_sizes.preferred_inline_size
    &&& after.border_box.start.i@ == inline_start
    &&& after.border_box.start.b == before.border_box.start.b
    &&& after.border_box.size.block == before.border_box.size.block
    &&& after.style == before.style
    &&& after.intrinsic_inline_sizes == before.intrinsic_inline_sizes
    &&& after.inline_metrics == before.inline_metrics
}

/// The block start that puts a marker of the given ascent on the shared
/// baseline, in the saturating arithmetic of app units.
pub open spec fn spec_block_start(line_metrics: LineMetrics, marker: Fragment) -> int {
    clamp_au(line_metrics.space_above_baseline@ - marker.inline_metrics.ascent@)
}

/// Whether `after` is `before` placed along the block axis: its block start
/// is `block_start`, and nothing else has changed.
pub open spec fn spec_placed_block(before: Fragment, after: Fragment, block_start: int) -> bool {
    &&& after.border_box.start.b@ == block_start
    &&& after.border_box.start.i == before.border_box.start.i
    &&& after.border_box.size == before.border_box.size
    &&& after.style == before.style
    &&& after.intrinsic_inline_sizes == before.intrinsic_inline_sizes
    &&& after.inline_metrics == before.inline_metrics
}

/// Whether `after` is `before` placed along both axes: its inline size is
/// its preferred inline size, its start is at the two given coordinates,
/// and nothing else has changed.
pub open spec fn spec_placed(
    before: Fragment,
    after: Fragment,
    inline_start: int,
    block_start: int,
) -> bool {
    &&& after.border_box.size.inline == before.intrinsic_inline_sizes.preferred_inline_size
    &&& after.border_box.start.i@ == inline_start
    &&& after.border_box.start.b@ == block_start
    &&& after.border_box.size.block == before.border_box.size.block
    &&& after.style == before.style
    &&& after.intrinsic_inline_sizes == before.intrinsic_inline_sizes
    &&& after.inline_metrics == before.inline_metrics
}

/// Whether `item` is the paint item of the marker `marker` of a list item
/// whose flow state is `base`: the marker itself, at its border box in the
/// stacking context, with borders of its own, in the content layer, clipped
/// as the flow is.
pub open spec fn spec_is_marker_item(base: BaseFlow, marker: Fragment, item: DisplayItem) -> bool {
    &&& item.fragment == marker
    &&& item.stacking_relative_border_box@ == base.spec_stacking_relative_border_box_of(marker)
    &&& item.border_painting_mode == BorderPaintingMode::Separate
    &&& item.section == DisplayListSection::Content
    &&& item.clip == base.clip
}

/// The physical size of the flow with state `base`.
pub open spec fn spec_flow_size(base: BaseFlow) -> SpecSize {
    spec_size_to_physical(base.writing_mode, base.position.size@)
}

/// `block_overflow` grown by the first `count` of the overflow areas
/// `parts`, in turn.
pub open spec fn spec_overflow_with_parts(
    block_overflow: SpecOverflow,
    parts: Seq<Overflow>,
    count: int,
) -> SpecOverflow
    decreases count,
{
    if 0 < count <= parts.len() {
        spec_overflow_union(
            spec_overflow_with_parts(block_overflow, parts, count - 1),
            parts[count - 1]@,
        )
    } else {
        block_overflow
    }
}

/// Whether `parts` are the overflow areas of the markers of `flow`, one for
/// each marker in stored order, as `marker_overflow` computes them. What it
/// is given for each marker is the physical size of the flow, `flow_size`,
/// and the size of the containing block that relative offsets refer to.
pub open spec fn spec_marker_overflows<F: Fn(&Fragment, &Size2D, &LogicalSize) -> Overflow>(
    flow: ListItemFlow,
    marker_overflow: F,
    flow_size: Size2D,
    parts: Seq<Overflow>,
) -> bool {
    &&& flow_size@ == spec_flow_size(flow.block_flow.base)
    &&& parts.len() == flow.marker_fragments.len()
    &&& forall|k: int|
        0 <= k < parts.len() ==> call_ensures(
            marker_overflow,
            (
                &flow.marker_fragments[k],
                &flow_size,
                &flow.block_flow.base.early_absolute_position_info.relative_containing_block_size,
            ),
            #[trigger] parts[k],
        )
}

/// Growing by the first `count` parts does not look at the parts after
/// them.
pub proof fn lemma_overflow_with_parts_prefix(
    block_overflow: SpecOverflow,
    parts: Seq<Overflow>,
    next: Overflow,
    count: int,
)
    requires
        count <= parts.len(),
    ensures
        spec_overflow_with_parts(block_overflow, parts.push(next), count)
            == spec_overflow_with_parts(block_overflow, parts, count),
    decreases count,
{
    if 0 < count {
        lemma_overflow_with_parts_prefix(block_overflow, parts, next, count - 1);
    }
}

/// One stop of a walk over fragment border boxes: the marker at index
/// `marker`, at nesting level `level`, with its border box relative to the
/// origin that the walk was given.
#[derive(Clone, Copy, Debug, PartialEq, Eq)]
pub struct BorderBoxVisit {
    pub marker: usize,
    pub level: i32,
    pub border_box: Rect,
}

/// The border box that a walk reports for `marker`: its border box in the
/// stacking context, moved by the position of that context.
pub open spec fn spec_visit_box(
    base: BaseFlow,
    marker: Fragment,
    stacking_context_position: SpecPoint,
) -> SpecRect {
    spec_translate(base.spec_stacking_relative_border_box_of(marker), stacking_context_position)
}

/// Whether the walk `visits` stops at the marker with index `k`.
pub open spec fn spec_visited(visits: Seq<BorderBoxVisit>, k: int) -> bool {
    exists|j: int| 0 <= j < visits.len() && (#[trigger] visits[j]).marker == k
}

impl ListItemFlow {
    /// The list item around `main_fragment` with the given outside markers,
    /// floated as `flotation` says. Where the first marker's content depends
    /// on counters, the new flow is marked for the generated-content pass.
    pub fn from_fragments_and_flotation(
        main_fragment: Fragment,
        marker_fragments: Vec<Fragment>,
        flotation: Option<FloatKind>,
    ) -> (flow: ListItemFlow)
        ensures
            flow.marker_fragments@ == marker_fragments@,
            flow.block_flow.fragment == main_fragment,
            flow.block_flow.float_kind == flotation,
            BaseFlow::spec_unsized(main_fragment.style.writing_mode, flow.block_flow.base),
            flow.block_flow.base.restyle_damage.bits == spec_initial_damage(marker_fragments@),
    {
        let mut this = ListItemFlow {
            block_flow: BlockFlow::from_fragment_and_float_kind(main_fragment, flotation),
            marker_fragments,
        };
        if this.marker_fragments.len() > 0 {
            if this.marker_fragments[0].style.list_style_type.needs_generated_content() {
                this.block_flow.base.restyle_damage.insert(RESOLVE_GENERATED_CONTENT);
                assert(0u8 | 0x40u8 == 0x40u8) by (bit_vector);
            }
        }
        this
    }

    /// The band of the float area that decides where the markers go. In
    /// the block's own coordinates, where its block-axis start is zero, the
    /// band runs from one line height above that start to one line height
    /// below it, in a container as wide as the block's. `line_height` is the
    /// line height of the block.
    pub fn marker_float_band(&self, line_height: Au) -> (band: FloatBand)
        ensures
            band.block_start@ == -line_height@,
            band.block_size@ == clamp_au(2 * line_height@),
            band.inline_size == self.block_flow.base.block_container_inline_size,
    {
        FloatBand {
            block_start: line_height.neg(),
            block_size: line_height.add(line_height),
            inline_size: self.block_flow.base.block_container_inline_size,
        }
    }

    /// Assign inline size and position for the markers. `available_rect` is
    /// what the float area answers for the band of `marker_float_band`, one
    /// line height to either side of the block's start: the free rectangle
    /// of that band, or nothing where no float reaches into it. The query
    /// is made once, before any marker is moved, and only once the block's
    /// own block size is assigned, because only then are the floats around
    /// it placed.
    ///
    /// The markers are placed from the last to the first, each ending where
    /// the one after it starts, so that they grow towards the inline start
    /// and flow around floats as the block's content does.
    pub fn assign_marker_inline_sizes(&mut self, available_rect: Option<LogicalRect>)
        ensures
            final(self).block_flow == old(self).block_flow,
            final(self).marker_fragments.len() == old(self).marker_fragments.len(),
            forall|k: int|
                0 <= k < old(self).marker_fragments.len() ==> spec_placed_inline(
                    old(self).marker_fragments[k],
                    #[trigger] final(self).marker_fragments[k],
                    spec_inline_cursor(
                        old(self).marker_fragments@,
                        spec_inline_anchor(available_rect, old(self).block_flow),
                        k,
                    ),
                ),
    {
        let mut marker_inline_start = match available_rect {
            Some(rect) => rect.start.i,
            None => self.block_flow.fragment.border_box.start.i,
        };
        let ghost before = self.marker_fragments@;
        let ghost anchor = marker_inline_start@;
        let count = self.marker_fragments.len();
        let mut i = count;
        while i > 0
            invariant
                i <= count,
                count == before.len(),
                self.marker_fragments.len() == count,
                self.block_flow == old(self).block_flow,
                marker_inline_start@ == spec_inline_cursor(before, anchor, i as int),
                forall|k: int| 0 <= k < i ==> self.marker_fragments[k] == before[k],
                forall|k: int|
                    i <= k < count ==> spec_placed_inline(
                        before[k],
                        #[trigger] self.marker_fragments[k],
                        spec_inline_cursor(before, anchor, k),
                    ),
            decreases i,
        {
            i = i - 1;
            let mut marker = self.marker_fragments[i];
            // Markers do not contribute to the inline size of the flow, so
            // their own inline size is settled only here.
            let inline_size = marker.preferred_inline_size();
            marker.border_box.size.inline = inline_size;
            marker_inline_start = marker_inline_start.sub(inline_size);
            marker.border_box.start.i = marker_inline_start;
            self.marker_fragments[i] = marker;
        }
    }

    /// Assign the block position of the markers. `line_metrics` are the
    /// metrics that the markers share as one line, measured with the block's
    /// own style as the dominant font. Each marker is put where its own
    /// baseline falls on the shared one.
    pub fn assign_marker_block_sizes(&mut self, line_metrics: &LineMetrics)
        ensures
            final(self).block_flow == old(self).block_flow,
            final(self).marker_fragments.len() == old(self).marker_fragments.len(),
            forall|k: int|
                0 <= k < old(self).marker_fragments.len() ==> spec_placed_block(
                    old(self).marker_fragments[k],
                    #[trigger] final(self).marker_fragments[k],
                    spec_block_start(*line_metrics, old(self).marker_fragments[k]),
                ),
    {
        let ghost before = self.marker_fragments@;
        let count = self.marker_fragments.len();
        let mut i: usize = 0;
        while i < count
            invariant
                i <= count,
                count == before.len(),
                self.marker_fragments.len() == count,
                self.block_flow == old(self).block_flow,
                forall|k: int| i <= k < count ==> self.marker_fragments[k] == before[k],
                forall|k: int|
                    0 <= k < i ==> spec_placed_block(
                        before[k],
                        #[trigger] self.marker_fragments[k],
                        spec_block_start(*line_metrics, before[k]),
                    ),
            decreases count - i,
        {
            let mut marker = self.marker_fragments[i];
            marker.border_box.start.b = line_metrics.space_above_baseline.sub(
                marker.inline_metrics.ascent,
            );
            self.marker_fragments[i] = marker;
            i = i + 1;
        }
    }

    /// Assign the block size: what is left of it once the block has assigned
    /// its own. The markers are placed along the inline axis and then along
    /// the block axis. `available_rect` is the float area's answer for
    /// `marker_float_band` and `line_metrics` are the markers' shared line
    /// metrics; both exist only after the block's own pass.
    pub fn assign_block_size(
        &mut self,
        available_rect: Option<LogicalRect>,
        line_metrics: &LineMetrics,
    )
        ensures
            final(self).block_flow == old(self).block_flow,
            final(self).marker_fragments.len() == old(self).marker_fragments.len(),
            forall|k: int|
                0 <= k < old(self).marker_fragments.len() ==> spec_placed(
                    old(self).marker_fragments[k],
                    #[trigger] final(self).marker_fragments[k],
                    spec_inline_cursor(
                        old(self).marker_fragments@,
                        spec_inline_anchor(available_rect, old(self).block_flow),
                        k,
                    ),
                    spec_block_start(*line_metrics, old(self).marker_fragments[k]),
                ),
    {
        self.assign_marker_inline_sizes(available_rect);
        self.assign_marker_block_sizes(line_metrics);
    }

    /// The kind of this flow, by which the tree walker tells it from a plain
    /// block.
    pub fn class(&self) -> (class: FlowClass)
        ensures
            class == FlowClass::ListItem,
    {
        FlowClass::ListItem
    }

    /// The block that this list item is built on.
    pub fn as_block(&self) -> (block: &BlockFlow)
        ensures
            *block == self.block_flow,
    {
        &self.block_flow
    }

    /// The block that this list item is built on, to be changed in place.
    /// The markers stay as they are.
    pub fn as_mut_block(&mut self) -> (block: &mut BlockFlow)
        ensures
            *block == old(self).block_flow,
            final(self).block_flow == *final(block),
            final(self).marker_fragments == old(self).marker_fragments,
    {
        &mut self.block_flow
    }

    /// The intrinsic inline sizes that this flow reports to its container.
    pub open spec fn spec_intrinsic_inline_sizes(self) -> IntrinsicISizes {
        self.block_flow.base.intrinsic_inline_sizes
    }

    /// The intrinsic inline sizes that this flow reports to its container:
    /// those of the block. The markers contribute nothing.
    pub fn intrinsic_inline_sizes(&self) -> (sizes: IntrinsicISizes)
        ensures
            sizes == self.spec_intrinsic_inline_sizes(),
    {
        self.block_flow.base.intrinsic_inline_sizes
    }

    /// Draws the markers: each becomes a paint item of its own, in stored
    /// order, after what the list already holds. The block paints itself
    /// after them.
    pub fn build_display_list(&self, state: &mut DisplayListBuildState)
        ensures
            final(state).items.len() == old(state).items.len() + self.marker_fragments.len(),
            forall|j: int|
                0 <= j < old(state).items.len() ==> final(state).items[j] == old(state).items[j],
            forall|k: int|
                0 <= k < self.marker_fragments.len() ==> spec_is_marker_item(
                    self.block_flow.base,
                    self.marker_fragments[k],
                    #[trigger] final(state).items[old(state).items.len() + k],
                ),
    {
        let ghost before = state.items@;
        let count = self.marker_fragments.len();
        let mut i: usize = 0;
        while i < count
            invariant
                i <= count,
                count == self.marker_fragments.len(),
                state.items.len() == before.len() + i,
                forall|j: int| 0 <= j < before.len() ==> state.items[j] == before[j],
                forall|k: int|
                    0 <= k < i ==> spec_is_marker_item(
                        self.block_flow.base,
                        self.marker_fragments[k],
                        #[trigger] state.items[before.len() + k],
                    ),
            decreases count - i,
        {
            let marker = &self.marker_fragments[i];
            let stacking_relative_border_box =
                self.block_flow.base.stacking_relative_border_box_for_display_list(marker);
            marker.build_display_list(
                state,
                stacking_relative_border_box,
                BorderPaintingMode::Separate,
                DisplayListSection::Content,
                self.block_flow.base.clip,
            );
            i = i + 1;
        }
    }

    /// The overflow of the whole list item: `block_overflow`, which is what
    /// the block computes for itself, grown by each marker's own overflow.
    /// `marker_overflow` computes the overflow of one fragment; it is asked
    /// once for each marker, in stored order, with the physical size of this
    /// flow and the size of the containing block of relative offsets.
    pub fn compute_overflow<F: Fn(&Fragment, &Size2D, &LogicalSize) -> Overflow>(
        &self,
        block_overflow: Overflow,
        marker_overflow: F,
    ) -> (overflow: Overflow)
        requires
            forall|fragment: Fragment, flow_size: Size2D, containing: LogicalSize|
                call_requires(marker_overflow, (&fragment, &flow_size, &containing)),
        ensures
            exists|flow_size: Size2D, parts: Seq<Overflow>|
                #[trigger] spec_marker_overflows(*self, marker_overflow, flow_size, parts)
                    && overflow@ == spec_overflow_with_parts(
                    block_overflow@,
                    parts,
                    parts.len() as int,
                ),
    {
        let mut overflow = block_overflow;
        let flow_size = self.block_flow.base.position.size.to_physical(
            self.block_flow.base.writing_mode,
        );
        let relative_containing_block_size =
            &self.block_flow.base.early_absolute_position_info.relative_containing_block_size;
        let ghost mut parts: Seq<Overflow> = Seq::empty();
        let count = self.marker_fragments.len();
        let mut i: usize = 0;
        while i < count
            invariant
                i <= count,
                count == self.marker_fragments.len(),
                *relative_containing_block_size
                    == self.block_flow.base.early_absolute_position_info.relative_containing_block_size,
                forall|fragment: Fragment, flow_size: Size2D, containing: LogicalSize|
                    call_requires(marker_overflow, (&fragment, &flow_size, &containing)),
                parts.len() == i,
                forall|k: int|
                    0 <= k < i ==> call_ensures(
                        marker_overflow,
                        (&self.marker_fragments[k], &flow_size, relative_containing_block_size),
                        #[trigger] parts[k],
                    ),
                overflow@ == spec_overflow_with_parts(block_overflow@, parts, i as int),
            decreases count - i,
        {
            let part = marker_overflow(
                &self.marker_fragments[i],
                &flow_size,
                relative_containing_block_size,
            );
            overflow.union(&part);
            proof {
                lemma_overflow_with_parts_prefix(block_overflow@, parts, part, i as int);
                parts = parts.push(part);
            }
            i = i + 1;
        }
        proof {
            assert(spec_marker_overflows(*self, marker_overflow, flow_size, parts));
        }
        overflow
    }

    /// Walks the border boxes of the markers, after the block has walked its
    /// own. The markers are taken in stored order: `should_process` is
    /// asked about a marker, and if it accepts, `process` is handed the
    /// marker, `level` and the marker's border box relative to
    /// `stacking_context_position`, before the next marker is asked about.
    /// The stops that were made are returned.
    pub fn iterate_through_fragment_border_boxes<
        P: Fn(&Fragment) -> bool,
        V: Fn(&Fragment, i32, &Rect),
    >(
        &self,
        should_process: P,
        process: V,
        level: i32,
        stacking_context_position: &Point2D,
    ) -> (visits: Vec<BorderBoxVisit>)
        requires
            forall|fragment: Fragment| call_requires(should_process, (&fragment,)),
            forall|fragment: Fragment, at: i32, border_box: Rect|
                call_requires(process, (&fragment, at, &border_box)),
        ensures
            forall|j: int|
                0 <= j < visits.len() ==> {
                    &&& (#[trigger] visits[j]).marker < self.marker_fragments.len()
                    &&& call_ensures(
                        should_process,
                        (&self.marker_fragments[visits[j].marker as int],),
                        true,
                    )
                    &&& call_ensures(
                        process,
                        (
                            &self.marker_fragments[visits[j].marker as int],
                            level,
                            &visits[j].border_box,
                        ),
                        (),
                    )
                    &&& visits[j].level == level
                    &&& visits[j].border_box@ == spec_visit_box(
                        self.block_flow.base,
                        self.marker_fragments[visits[j].marker as int],
                        stacking_context_position@,
                    )
                },
            forall|j1: int, j2: int|
                #![trigger visits[j1], visits[j2]]
                0 <= j1 < j2 < visits.len() ==> visits[j1].marker < visits[j2].marker,
            forall|k: int|
                0 <= k < self.marker_fragments.len() && !spec_visited(visits@, k) ==> call_ensures(
                    should_process,
                    (&#[trigger] self.marker_fragments[k],),
                    false,
                ),
    {
        let mut visits: Vec<BorderBoxVisit> = Vec::new();
        let count = self.marker_fragments.len();
        let mut i: usize = 0;
        while i < count
            invariant
                i <= count,
                count == self.marker_fragments.len(),
                forall|fragment: Fragment| call_requires(should_process, (&fragment,)),
                forall|fragment: Fragment, at: i32, border_box: Rect|
                    call_requires(process, (&fragment, at, &border_box)),
                forall|j: int|
                    0 <= j < visits.len() ==> {
                        &&& (#[trigger] visits[j]).marker < i
                        &&& call_ensures(
                            should_process,
                            (&self.marker_fragments[visits[j].marker as int],),
                            true,
                        )
                        &&& call_ensures(
                            process,
                            (
                                &self.marker_fragments[visits[j].marker as int],
                                level,
                                &visits[j].border_box,
                            ),
                            (),
                        )
                        &&& visits[j].level == level
                        &&& visits[j].border_box@ == spec_visit_box(
                            self.block_flow.base,
                            self.marker_fragments[visits[j].marker as int],
                            stacking_context_position@,
                        )
                    },
                forall|j1: int, j2: int|
                    #![trigger visits[j1], visits[j2]]
                    0 <= j1 < j2 < visits.len() ==> visits[j1].marker < visits[j2].marker,
                forall|k: int|
                    0 <= k < i && !spec_visited(visits@, k) ==> call_ensures(
                        should_process,
                        (&#[trigger] self.marker_fragments[k],),
                        false,
                    ),
            decreases count - i,
        {
            let marker = &self.marker_fragments[i];
            let ghost earlier = visits@;
            if should_process(marker) {
                let border_box = self.block_flow.base.stacking_relative_border_box_for_display_list(
                    marker,
                ).translate(stacking_context_position);
                process(marker, level, &border_box);
                visits.push(BorderBoxVisit { marker: i, level, border_box });
                proof {
                    assert forall|k: int| 0 <= k < i && !spec_visited(visits@, k) implies call_ensures(
                        should_process,
                        (&#[trigger] self.marker_fragments[k],),
                        false,
                    ) by {
                        if spec_visited(earlier, k) {
                            let j = choose|j: int|
                                0 <= j < earlier.len() && (#[trigger] earlier[j]).marker == k;
                            assert(visits@[j].marker == k);
                        }
                    }
                    assert(visits@[visits.len() - 1].marker == i);
                }
            }
            i = i + 1;
        }
        visits
    }

    /// Applies `mutator` to every marker once, in stored order, after the
    /// block has applied it to its own fragments. Each marker is replaced
    /// by what `mutator` makes of it.
    pub fn mutate_fragments<F: Fn(Fragment) -> Fragment>(&mut self, mutator: F)
        requires
            forall|fragment: Fragment| call_requires(mutator, (fragment,)),
        ensures
            final(self).block_flow == old(self).block_flow,
            final(self).marker_fragments.len() == old(self).marker_fragments.len(),
            forall|k: int|
                0 <= k < old(self).marker_fragments.len() ==> call_ensures(
                    mutator,
                    (old(self).marker_fragments[k],),
                    #[trigger] final(self).marker_fragments[k],
                ),
    {
        let ghost before = self.marker_fragments@;
        let count = self.marker_fragments.len();
        let mut i: usize = 0;
        while i < count
            invariant
                i <= count,
                count == before.len(),
                self.marker_fragments.len() == count,
                self.block_flow == old(self).block_flow,
                forall|fragment: Fragment| call_requires(mutator, (fragment,)),
                forall|k: int| i <= k < count ==> self.marker_fragments[k] == before[k],
                forall|k: int|
                    0 <= k < i ==> call_ensures(
                        mutator,
                        (before[k],),
                        #[trigger] self.marker_fragments[k],
                    ),
            decreases count - i,
        {
            let marker = mutator(self.marker_fragments[i]);
            self.marker_fragments[i] = marker;
            i = i + 1;
        }
    }
}

} // verus!
