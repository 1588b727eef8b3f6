//! What holds of marker layout as a whole: the laws that connect the
//! classifier, the constructor and the two placement passes.

use vstd::prelude::*;
use crate::block::{BlockFlow, RestyleDamage, RESOLVE_GENERATED_CONTENT};
use crate::content::{GeneratedContentInfo, ListStyleType, ListStyleTypeContent};
use crate::fragment::{Fragment, LineMetrics};
use crate::geometry::SpecLogicalRect;
use crate::list_item::{
    spec_block_start, spec_inline_cursor, spec_initial_damage,
    spec_markers_need_generated_content, ListItemFlow,
};
use crate::units::au_in_range;

verus! {

/// A fixed-glyph keyword is classified as static text with its glyph, and a
/// list item whose first marker has such a keyword is not marked for the
/// generated-content pass.
pub proof fn lemma_static_glyph_is_static_text(markers: Seq<Fragment>)
    requires
        markers.len() > 0,
        markers[0].style.list_style_type.spec_is_static_glyph(),
    ensures
        ListStyleTypeContent::spec_from_list_style_type(markers[0].style.list_style_type)
            == ListStyleTypeContent::StaticText(
            markers[0].style.list_style_type.spec_static_representation(),
        ),
        !(RestyleDamage { bits: spec_initial_damage(markers) }).spec_contains(
            RESOLVE_GENERATED_CONTENT,
        ),
{
    assert(0u8 & 0x40u8 != 0x40u8) by (bit_vector);
}

/// A keyword that is neither `none` nor a fixed glyph is classified as
/// generated list-item content, and a list item whose first marker has such
/// a keyword is marked for the generated-content pass.
pub proof fn lemma_counter_is_generated_content(markers: Seq<Fragment>)
    requires
        markers.len() > 0,
        !(markers[0].style.list_style_type is NoMarker),
        !markers[0].style.list_style_type.spec_is_static_glyph(),
    ensures
        ListStyleTypeContent::spec_from_list_style_type(markers[0].style.list_style_type)
            == ListStyleTypeContent::GeneratedContent(Box::new(GeneratedContentInfo::ListItem)),
        (RestyleDamage { bits: spec_initial_damage(markers) }).spec_contains(
            RESOLVE_GENERATED_CONTENT,
        ),
{
    assert(0x40u8 & 0x40u8 == 0x40u8) by (bit_vector);
}

/// The keyword `none` is classified as no content at all, and neither it
/// nor the absence of markers marks the list item for the generated-content
/// pass.
pub proof fn lemma_none_is_absent(markers: Seq<Fragment>)
    requires
        markers.len() == 0 || markers[0].style.list_style_type is NoMarker,
    ensures
        ListStyleTypeContent::spec_from_list_style_type(ListStyleType::NoMarker)
            == ListStyleTypeContent::Absent,
        !(RestyleDamage { bits: spec_initial_damage(markers) }).spec_contains(
            RESOLVE_GENERATED_CONTENT,
        ),
{
    assert(0u8 & 0x40u8 != 0x40u8) by (bit_vector);
}

/// The intrinsic inline sizes that a list item reports are those of its
/// block: two list items on the same block report the same sizes, whatever
/// their markers are.
pub proof fn lemma_markers_do_not_widen(block: BlockFlow, first: ListItemFlow, second: ListItemFlow)
    requires
        first.block_flow == block,
        second.block_flow == block,
    ensures
        first.spec_intrinsic_inline_sizes() == second.spec_intrinsic_inline_sizes(),
        first.spec_intrinsic_inline_sizes() == block.base.intrinsic_inline_sizes,
{
}

/// The sum of the preferred inline sizes of the markers from index `k` to
/// the last.
pub open spec fn spec_total_inline_size(markers: Seq<Fragment>, k: int) -> int
    decreases markers.len() - k,
{
    if 0 <= k < markers.len() {
        markers[k].intrinsic_inline_sizes.preferred_inline_size@ + spec_total_inline_size(
            markers,
            k + 1,
        )
    } else {
        0
    }
}

/// Whether inline placement from `anchor` stays within the range of app
/// units at every marker, so that no step saturates.
pub open spec fn spec_inline_in_range(markers: Seq<Fragment>, anchor: int) -> bool {
    forall|k: int|
        0 <= k < markers.len() ==> au_in_range(
            #[trigger] spec_inline_cursor(markers, anchor, k + 1)
                - markers[k].intrinsic_inline_sizes.preferred_inline_size@,
        )
}

/// Where no step saturates, the cursor before marker `k` is the anchor less
/// the inline sizes of the markers from `k` on.
pub proof fn lemma_inline_cursor_is_anchor_less_sizes(markers: Seq<Fragment>, anchor: int, k: int)
    requires
        spec_inline_in_range(markers, anchor),
        0 <= k <= markers.len(),
    ensures
        spec_inline_cursor(markers, anchor, k) == anchor - spec_total_inline_size(markers, k),
    decreases markers.len() - k,
{
    if k < markers.len() {
        lemma_inline_cursor_is_anchor_less_sizes(markers, anchor, k + 1);
        assert(au_in_range(
            spec_inline_cursor(markers, anchor, k + 1)
                - markers[k].intrinsic_inline_sizes.preferred_inline_size@,
        ));
    }
}

/// Markers placed from the inline edge `anchor` line up without gaps, as
/// long as no step saturates: the last marker ends at the anchor, every
/// other marker ends where the next one starts, and the first marker starts
/// at the anchor less the inline sizes of all markers. Here
/// `spec_inline_cursor(markers, anchor, k)` is the inline start that
/// placement gives marker `k`, and its preferred inline size is the inline
/// size it gets.
pub proof fn lemma_markers_abut(markers: Seq<Fragment>, anchor: int)
    requires
        spec_inline_in_range(markers, anchor),
    ensures
        markers.len() > 0 ==> spec_inline_cursor(markers, anchor, markers.len() - 1)
            + markers[markers.len() - 1].intrinsic_inline_sizes.preferred_inline_size@ == anchor,
        forall|k: int|
            0 <= k < markers.len() - 1 ==> #[trigger] spec_inline_cursor(markers, anchor, k)
                + markers[k].intrinsic_inline_sizes.preferred_inline_size@ == spec_inline_cursor(
                markers,
                anchor,
                k + 1,
            ),
        spec_inline_cursor(markers, anchor, 0) == anchor - spec_total_inline_size(markers, 0),
{
    lemma_inline_cursor_is_anchor_less_sizes(markers, anchor, 0);
    assert forall|k: int| 0 <= k < markers.len() implies #[trigger] spec_inline_cursor(
        markers,
        anchor,
        k,
    ) + markers[k].intrinsic_inline_sizes.preferred_inline_size@ == spec_inline_cursor(
        markers,
        anchor,
        k + 1,
    ) by {
        assert(au_in_range(
            spec_inline_cursor(markers, anchor, k + 1)
                - markers[k].intrinsic_inline_sizes.preferred_inline_size@,
        ));
    }
    if markers.len() > 0 {
        let last = markers.len() - 1;
        assert(spec_inline_cursor(markers, anchor, last + 1) == anchor);
    }
}

/// Where the free rectangle among the floats has no inline extent, so that
/// its inline end `rect.i + rect.inline` is its inline start, the markers
/// line up from that inline end: the last marker ends there, every other
/// marker ends where the next one starts, and the first marker starts at
/// the inline end less the inline sizes of all markers. For a rectangle
/// with an inline extent the markers line up from its inline start, as
/// `lemma_markers_abut` says, and stay clear of the rectangle.
pub proof fn lemma_markers_abut_at_inline_end(markers: Seq<Fragment>, rect: SpecLogicalRect)
    requires
        rect.inline == 0,
        spec_inline_in_range(markers, rect.i),
    ensures
        markers.len() > 0 ==> spec_inline_cursor(markers, rect.i, markers.len() - 1)
            + markers[markers.len() - 1].intrinsic_inline_sizes.preferred_inline_size@ == rect.i
            + rect.inline,
        forall|k: int|
            0 <= k < markers.len() - 1 ==> #[trigger] spec_inline_cursor(markers, rect.i, k)
                + markers[k].intrinsic_inline_sizes.preferred_inline_size@ == spec_inline_cursor(
                markers,
                rect.i,
                k + 1,
            ),
        spec_inline_cursor(markers, rect.i, 0) == rect.i + rect.inline - spec_total_inline_size(
            markers,
            0,
        ),
{
    lemma_markers_abut(markers, rect.i);
}

/// Markers placed along the block axis share one baseline: for every marker
/// whose placement does not saturate, block start plus ascent is the space
/// that the line keeps above its baseline, so it is the same for any two of
/// them.
pub proof fn lemma_markers_share_baseline(line_metrics: LineMetrics, first: Fragment, second: Fragment)
    requires
        au_in_range(line_metrics.space_above_baseline@ - first.inline_metrics.ascent@),
        au_in_range(line_metrics.space_above_baseline@ - second.inline_metrics.ascent@),
    ensures
        spec_block_start(line_metrics, first) + first.inline_metrics.ascent@
            == line_metrics.space_above_baseline@,
        spec_block_start(line_metrics, first) + first.inline_metrics.ascent@ == spec_block_start(
            line_metrics,
            second,
        ) + second.inline_metrics.ascent@,
{
}

/// The damage of a new list item holds the generated-content flag exactly
/// when its markers need generated content.
pub proof fn lemma_initial_damage(markers: Seq<Fragment>)
    ensures
        (RestyleDamage { bits: spec_initial_damage(markers) }).spec_contains(
            RESOLVE_GENERATED_CONTENT,
        ) <==> spec_markers_need_generated_content(markers),
{
    assert(0x40u8 & 0x40u8 == 0x40u8) by (bit_vector);
    assert(0u8 & 0x40u8 != 0x40u8) by (bit_vector);
}

} // verus!
