//! Laws of the pipeline: the general properties the stages guarantee,
//! stated and proved over the same spec functions the stage contracts use.

use vstd::prelude::*;
use crate::color::{Rgba, spec_mix, lemma_mul_bound, SCALAR_LIMIT, VALUE_SCALE};
use crate::store::{BarEntry, EntityView, SourceReading, ParentLink, ResourceReading,
    view_for, parent_for, source_for, resource_for};
use crate::stages::switch_colored;
use crate::extraction::{DrawRecord, base_x, base_y, clamped_value, entry_records, fill_record,
    track_record, border_record, fill_offset};
use crate::schedule::{KindRegistration, ObservationMode, frame_step_entry};

verus! {

/// The extent of a record along the bar's major axis.
pub open spec fn major_extent(e: BarEntry, r: DrawRecord) -> int {
    if e.bar.vertical {
        r.height as int
    } else {
        r.width as int
    }
}

/// For every value in the nominal range, the fill rectangle's major-axis
/// extent is exactly the value times the bar length, for both
/// orientations: in fine units it is `2 * value * length`, and scaled
/// against the full track it satisfies
/// `VALUE_SCALE * fill = value * track` with no rounding.
pub proof fn lemma_fill_size_exact(e: BarEntry, view: EntityView, z: i64)
    requires
        e.wf(),
        0 <= e.bar.value <= VALUE_SCALE,
    ensures
        major_extent(e, fill_record(e, view, z))
            == 2 * e.bar.value * e.bar.length,
        VALUE_SCALE * major_extent(e, fill_record(e, view, z))
            == e.bar.value * major_extent(e, track_record(e, view, z)),
{
    assert(clamped_value(e.bar.value) == e.bar.value);
    assert((2000int) * 1048576 == 2097152000) by (nonlinear_arith);
    lemma_mul_bound(2 * e.bar.value, e.bar.length as int, 2 * VALUE_SCALE as int, SCALAR_LIMIT as int);
    assert(2 * (e.bar.value as int) * e.bar.length == (2 * clamped_value(e.bar.value)) * e.bar.length)
        by (nonlinear_arith)
        requires clamped_value(e.bar.value) == e.bar.value;
    assert(VALUE_SCALE * ((2 * clamped_value(e.bar.value)) * e.bar.length)
        == e.bar.value * (2 * VALUE_SCALE * (e.bar.length as int))) by (nonlinear_arith)
        requires clamped_value(e.bar.value) == e.bar.value;
}

/// For a drawn bar (resolved position, visible, not hidden) with any
/// stored value, the empty track is emitted iff the raw value is below
/// full, the fill iff the raw value is above empty, and the fill's
/// major-axis extent comes from the value clamped into the nominal range.
/// The border, when decorated, is always emitted first, and the fill last.
pub proof fn lemma_emission_conditions(e: BarEntry, views: Seq<EntityView>, view: EntityView, z: i64)
    requires
        e.wf(),
        view_for(views, e.entity) == Some(view),
        view.visible,
        !e.bar.hide,
    ensures
        entry_records(e, views, z).len()
            == (if e.border is Some { 1int } else { 0int })
                + (if e.bar.value < VALUE_SCALE { 1int } else { 0int })
                + (if e.bar.value > 0 { 1int } else { 0int }),
        e.border is Some
            ==> entry_records(e, views, z)[0] == border_record(e, e.border->Some_0, view, z),
        e.bar.value < VALUE_SCALE
            ==> entry_records(e, views, z)[if e.border is Some { 1int } else { 0int }]
                == track_record(e, view, z),
        e.bar.value > 0
            ==> entry_records(e, views, z).last() == fill_record(e, view, z),
        e.bar.value > 0
            ==> major_extent(e, fill_record(e, view, z))
                == (2 * clamped_value(e.bar.value)) * e.bar.length,
{
    let recs = entry_records(e, views, z);
    assert(recs == (match e.border {
        Some(b) => seq![border_record(e, b, view, z)],
        None => Seq::<DrawRecord>::empty(),
    }) + (if e.bar.value < VALUE_SCALE {
        seq![track_record(e, view, z)]
    } else {
        Seq::<DrawRecord>::empty()
    }) + (if e.bar.value > 0 {
        seq![fill_record(e, view, z)]
    } else {
        Seq::<DrawRecord>::empty()
    }));
    if e.bar.value > 0 {
        let vc = clamped_value(e.bar.value) as int;
        assert((2000int) * 1048576 == 2097152000) by (nonlinear_arith);
        lemma_mul_bound(2 * vc, e.bar.length as int, 2 * VALUE_SCALE as int, SCALAR_LIMIT as int);
    }
}

/// A hidden descriptor, a non-visible entity, or an entity without a
/// resolved world position contributes zero draw records, whatever the
/// value and decorations.
pub proof fn lemma_hidden_emits_nothing(e: BarEntry, views: Seq<EntityView>, z: i64)
    requires
        e.bar.hide || (match view_for(views, e.entity) {
            Some(view) => !view.visible,
            None => true,
        }),
    ensures
        entry_records(e, views, z) == Seq::<DrawRecord>::empty(),
{
}

/// The switch policy is discrete and its boundary is inclusive to the low
/// color: a changed bar of the registered kind with a switch decoration
/// takes the low color whenever its value is at or below the pivot —
/// including exactly at the pivot — and the high color otherwise.
pub proof fn lemma_switch_policy(e: BarEntry, kind: u64, sw: crate::model::StatbarColorSwitch)
    requires
        e.kind == kind,
        e.bar_changed,
        e.color_switch == Some(sw),
    ensures
        e.bar.value <= sw.pivot ==> switch_colored(e, kind).bar.color == sw.low,
        e.bar.value > sw.pivot ==> switch_colored(e, kind).bar.color == sw.high,
        e.bar.value == sw.pivot ==> switch_colored(e, kind).bar.color == sw.low,
{
}

/// The interpolation policy hits its endpoints and its midpoint exactly:
/// at value 0 the result is the min color, at full value the max color,
/// and at half value the exact componentwise midpoint of the two, all as
/// rational RGBA values.
pub proof fn lemma_lerp_endpoints_and_midpoint(min: Rgba, max: Rgba)
    requires
        min.narrow(),
        max.narrow(),
    ensures
        spec_mix(min, max, 0).equiv(min),
        spec_mix(min, max, VALUE_SCALE).equiv(max),
        spec_mix(min, max, (VALUE_SCALE / 2) as i64).equiv(Rgba {
            red: (min.red * max.den + max.red * min.den) as i64,
            green: (min.green * max.den + max.green * min.den) as i64,
            blue: (min.blue * max.den + max.blue * min.den) as i64,
            alpha: (min.alpha * max.den + max.alpha * min.den) as i64,
            den: (2 * min.den * max.den) as i64,
        }),
{
    assert(VALUE_SCALE / 2 == 500);
    crate::color::lemma_spec_mix_wf(min, max, 0);
    crate::color::lemma_spec_mix_wf(min, max, VALUE_SCALE);
    crate::color::lemma_spec_mix_wf(min, max, 500);
    assert((1048576int) * 1048576 == 0x100_0000_0000) by (nonlinear_arith);
    lemma_mul_bound(min.red as int, max.den as int, 1048576, 1048576);
    lemma_mul_bound(max.red as int, min.den as int, 1048576, 1048576);
    lemma_mul_bound(min.green as int, max.den as int, 1048576, 1048576);
    lemma_mul_bound(max.green as int, min.den as int, 1048576, 1048576);
    lemma_mul_bound(min.blue as int, max.den as int, 1048576, 1048576);
    lemma_mul_bound(max.blue as int, min.den as int, 1048576, 1048576);
    lemma_mul_bound(min.alpha as int, max.den as int, 1048576, 1048576);
    lemma_mul_bound(max.alpha as int, min.den as int, 1048576, 1048576);
    lemma_mul_bound(min.den as int, max.den as int, 1048576, 1048576);
    assert((2097152int) * 1048576 == 0x200_0000_0000) by (nonlinear_arith);
    lemma_mul_bound(2 * (min.den as int), max.den as int, 2097152, 1048576);
    lemma_mix_channel_laws(min.red as int, min.den as int, max.red as int, max.den as int, 500);
    lemma_mix_channel_laws(min.green as int, min.den as int, max.green as int, max.den as int, 500);
    lemma_mix_channel_laws(min.blue as int, min.den as int, max.blue as int, max.den as int, 500);
    lemma_mix_channel_laws(min.alpha as int, min.den as int, max.alpha as int, max.den as int, 500);
}

/// Endpoint and midpoint identities of one interpolated channel, as
/// cross-multiplied rational equalities.
proof fn lemma_mix_channel_laws(a: int, ad: int, b: int, bd: int, h: int)
    by (nonlinear_arith)
    requires
        1 <= ad,
        1 <= bd,
        2 * h == VALUE_SCALE,
    ensures
        (a * bd * (VALUE_SCALE - 0) + b * ad * 0) * ad == a * (ad * bd * VALUE_SCALE),
        (a * bd * (VALUE_SCALE - VALUE_SCALE) + b * ad * VALUE_SCALE) * bd
            == b * (ad * bd * VALUE_SCALE),
        (a * bd * (VALUE_SCALE - h) + b * ad * h) * (2 * ad * bd)
            == (a * bd + b * ad) * (ad * bd * VALUE_SCALE),
{
}

/// Resource fan-out: when a kind is registered for resource observation
/// and its resource changed this frame, one frame step sets the value of
/// every bar of that kind to the resource's value — within the same frame,
/// before the color policies read it.
pub proof fn lemma_resource_fanout(e: BarEntry, reg: KindRegistration, sources: Seq<SourceReading>, parents: Seq<ParentLink>, resources: Seq<ResourceReading>, reading: ResourceReading)
    requires
        reg.mode == ObservationMode::Resource,
        resource_for(resources, reg.kind) == Some(reading),
        reading.changed,
        e.kind == reg.kind,
    ensures
        frame_step_entry(e, reg, sources, parents, resources).bar.value == reading.value,
{
}

/// Observation priority: when one bar carries both the parent marker and
/// the entity marker, the parent observation is the one applied and the
/// entity observation is ignored — even when the parent has no source to
/// offer while the named entity does.
pub proof fn lemma_parent_overrides_entity(e: BarEntry, reg: KindRegistration, sources: Seq<SourceReading>, parents: Seq<ParentLink>, resources: Seq<ResourceReading>)
    requires
        reg.mode == ObservationMode::Component,
        e.kind == reg.kind,
        e.observe_parent is Some,
        e.observe_entity is Some,
    ensures
        (match parent_for(parents, e.entity) {
            Some(p) => match source_for(sources, p, reg.kind) {
                Some(s) => frame_step_entry(e, reg, sources, parents, resources).bar.value
                    == (if s.changed { s.value } else { e.bar.value }),
                None => frame_step_entry(e, reg, sources, parents, resources).bar.value
                    == e.bar.value,
            },
            None => frame_step_entry(e, reg, sources, parents, resources).bar.value
                == e.bar.value,
        }),
{
}

/// The reverse flag flips which end of the major axis the fill anchors
/// to, and changes nothing else: the fill keeps its exact extents and its
/// minor-axis position, while its major-axis center mirrors to the other
/// side of the bar center.
pub proof fn lemma_reverse_flips_anchor(e: BarEntry, flipped: BarEntry, view: EntityView, z: i64)
    requires
        e.wf(),
        view.wf(),
        flipped == (BarEntry {
            bar: crate::model::Statbar { reverse: !e.bar.reverse, ..e.bar },
            ..e
        }),
    ensures
        fill_record(flipped, view, z).width == fill_record(e, view, z).width,
        fill_record(flipped, view, z).height == fill_record(e, view, z).height,
        fill_record(flipped, view, z).depth == fill_record(e, view, z).depth,
        fill_record(flipped, view, z).color == fill_record(e, view, z).color,
        fill_offset(flipped, clamped_value(flipped.bar.value) as int)
            == -fill_offset(e, clamped_value(e.bar.value) as int),
        e.bar.vertical ==> fill_record(flipped, view, z).x == fill_record(e, view, z).x,
        !e.bar.vertical ==> fill_record(flipped, view, z).y == fill_record(e, view, z).y,
        !e.bar.vertical
            ==> fill_record(flipped, view, z).x + fill_record(e, view, z).x
                == 2 * base_x(e, view),
        e.bar.vertical
            ==> fill_record(flipped, view, z).y + fill_record(e, view, z).y
                == 2 * base_y(e, view),
{
    let vc = clamped_value(e.bar.value) as int;
    assert((1048576int) * 1000 == 1048576000) by (nonlinear_arith);
    lemma_mul_bound(e.bar.length as int, vc - VALUE_SCALE, SCALAR_LIMIT as int, VALUE_SCALE as int);
    lemma_mul_bound(-(e.bar.length as int), vc - VALUE_SCALE, SCALAR_LIMIT as int, VALUE_SCALE as int);
    assert(-1048576000 <= fill_offset(e, vc) <= 1048576000);
    assert(-1048576000 <= fill_offset(flipped, vc) <= 1048576000);
    assert(clamped_value(flipped.bar.value) == clamped_value(e.bar.value));
    if !e.bar.vertical {
        assert(fill_record(e, view, z).x as int == base_x(e, view) + fill_offset(e, vc));
        assert(fill_record(flipped, view, z).x as int == base_x(flipped, view) + fill_offset(flipped, vc));
        assert(base_x(flipped, view) == base_x(e, view));
    } else {
        assert(fill_record(e, view, z).y as int == base_y(e, view) + fill_offset(e, vc));
        assert(fill_record(flipped, view, z).y as int == base_y(flipped, view) + fill_offset(flipped, vc));
        assert(base_y(flipped, view) == base_y(e, view));
    }
    assert(fill_offset(flipped, vc) == -fill_offset(e, vc)) by (nonlinear_arith)
        requires
            flipped.bar.reverse == !e.bar.reverse,
            flipped.bar.length == e.bar.length,
            fill_offset(e, vc) == (if e.bar.reverse { -(e.bar.length as int) } else {
                e.bar.length as int
            }) * (vc - VALUE_SCALE),
            fill_offset(flipped, vc) == (if flipped.bar.reverse { -(flipped.bar.length as int) } else {
                flipped.bar.length as int
            }) * (vc - VALUE_SCALE),
    ;
}

} // verus!
