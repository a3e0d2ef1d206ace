//! The value propagation and color policy stages.
//!
//! Each stage is one pass over the bar store for one bar kind. Propagation
//! mirrors each bar's value from exactly one bound data source, only when
//! that source changed this frame; it writes nothing but the value field
//! and the change mark. The color policies then derive the fill color from
//! the value of every bar whose descriptor changed this frame. Observation
//! bindings are mutually exclusive per bar and resolved in priority order:
//! a parent marker overrides an entity marker, and either marker overrides
//! a co-located source.

use vstd::prelude::*;
use crate::color::{Rgba, spec_mix, SCALAR_LIMIT};
use crate::model::Statbar;
use crate::store::{BarEntry, SourceReading, ParentLink,
    source_for, parent_for, find_source, find_parent};

verus! {

/// One bar after the self-component binding ran for `kind`: a bar of that
/// kind without observation markers mirrors the co-located source's value
/// if that source changed; everything else is untouched.
pub open spec fn self_updated(e: BarEntry, kind: u64, sources: Seq<SourceReading>) -> BarEntry {
    if e.kind == kind && e.observe_parent is None && e.observe_entity is None {
        match source_for(sources, e.entity, kind) {
            Some(s) => if s.changed {
                BarEntry { bar: Statbar { value: s.value, ..e.bar }, bar_changed: true, ..e }
            } else {
                e
            },
            None => e,
        }
    } else {
        e
    }
}

/// One bar after the entity binding ran for `kind`: a bar of that kind
/// carrying an entity marker and no parent marker mirrors the target
/// entity's source if that source changed; a dangling target or a target
/// without a source leaves the value unchanged.
pub open spec fn entity_updated(e: BarEntry, kind: u64, sources: Seq<SourceReading>) -> BarEntry {
    if e.kind == kind && e.observe_parent is None {
        match e.observe_entity {
            Some(t) => match source_for(sources, t.0, kind) {
                Some(s) => if s.changed {
                    BarEntry { bar: Statbar { value: s.value, ..e.bar }, bar_changed: true, ..e }
                } else {
                    e
                },
                None => e,
            },
            None => e,
        }
    } else {
        e
    }
}

/// One bar after the parent binding ran for `kind`: a bar of that kind
/// carrying a parent marker mirrors the parent entity's source if that
/// source changed. The parent marker wins over an entity marker, so the
/// entity marker is not consulted here. A bar without a parent, or whose
/// parent has no source, keeps its value.
pub open spec fn parent_updated(e: BarEntry, kind: u64, parents: Seq<ParentLink>, sources: Seq<SourceReading>) -> BarEntry {
    if e.kind == kind && e.observe_parent is Some {
        match parent_for(parents, e.entity) {
            Some(p) => match source_for(sources, p, kind) {
                Some(s) => if s.changed {
                    BarEntry { bar: Statbar { value: s.value, ..e.bar }, bar_changed: true, ..e }
                } else {
                    e
                },
                None => e,
            },
            None => e,
        }
    } else {
        e
    }
}

/// One bar after the resource binding ran for `kind` with the given
/// resource reading: every bar of that kind mirrors the resource's value
/// if the resource changed (fan-out).
pub open spec fn resource_updated(e: BarEntry, kind: u64, value: i64, changed: bool) -> BarEntry {
    if changed && e.kind == kind {
        BarEntry { bar: Statbar { value, ..e.bar }, bar_changed: true, ..e }
    } else {
        e
    }
}

/// One bar after the color switch policy ran for `kind`: a changed bar of
/// that kind with a switch decoration takes the low color at or below the
/// pivot and the high color above it.
pub open spec fn switch_colored(e: BarEntry, kind: u64) -> BarEntry {
    if e.kind == kind && e.bar_changed {
        match e.color_switch {
            Some(sw) => BarEntry {
                bar: Statbar {
                    color: if e.bar.value <= sw.pivot { sw.low } else { sw.high },
                    ..e.bar
                },
                ..e
            },
            None => e,
        }
    } else {
        e
    }
}

/// One bar after the color interpolation policy ran for `kind`: a changed
/// bar of that kind with a lerp decoration takes the exact componentwise
/// interpolation of the decoration's endpoints at the bar's value, which
/// extrapolates outside the nominal range.
pub open spec fn lerp_colored(e: BarEntry, kind: u64) -> BarEntry {
    if e.kind == kind && e.bar_changed {
        match e.color_lerp {
            Some(l) => BarEntry {
                bar: Statbar { color: spec_mix(l.min, l.max, e.bar.value), ..e.bar },
                ..e
            },
            None => e,
        }
    } else {
        e
    }
}

/// One bar after the frame's change marks were retired for `kind`.
pub open spec fn change_cleared(e: BarEntry, kind: u64) -> BarEntry {
    if e.kind == kind {
        BarEntry { bar_changed: false, ..e }
    } else {
        e
    }
}

/// A reading found by `source_for` among well-formed readings is itself
/// well-formed.
pub proof fn lemma_source_for_wf(sources: Seq<SourceReading>, entity: u64, kind: u64)
    requires
        forall|j: int| 0 <= j < sources.len() ==> (#[trigger] sources[j]).wf(),
    ensures
        source_for(sources, entity, kind) matches Some(s) ==> s.wf(),
    decreases sources.len(),
{
    if sources.len() != 0 {
        assert(forall|j: int| 0 <= j < sources.drop_first().len()
            ==> (#[trigger] sources.drop_first()[j]) == sources[j + 1]);
        lemma_source_for_wf(sources.drop_first(), entity, kind);
    }
}

/// For every bar of `kind` without observation markers whose co-located
/// source changed this frame, mirror the source's value into the bar.
pub fn update_statbar_values(bars: &mut Vec<BarEntry>, kind: u64, sources: &Vec<SourceReading>)
    requires
        forall|j: int| 0 <= j < sources@.len() ==> (#[trigger] sources@[j]).wf(),
    ensures
        final(bars)@.len() == old(bars)@.len(),
        forall|i: int| 0 <= i < old(bars)@.len()
            ==> final(bars)@[i] == self_updated(old(bars)@[i], kind, sources@),
        forall|i: int| 0 <= i < old(bars)@.len() && (#[trigger] old(bars)@[i]).wf()
            ==> final(bars)@[i].wf(),
{
    let n = bars.len();
    let mut i: usize = 0;
    while i < n
        invariant
            0 <= i <= n,
            n == bars@.len(),
            bars@.len() == old(bars)@.len(),
            forall|j: int| 0 <= j < sources@.len() ==> (#[trigger] sources@[j]).wf(),
            forall|j: int| i <= j < n ==> bars@[j] == old(bars)@[j],
            forall|j: int| 0 <= j < i
                ==> bars@[j] == self_updated(old(bars)@[j], kind, sources@),
            forall|j: int| 0 <= j < i && (#[trigger] old(bars)@[j]).wf() ==> bars@[j].wf(),
        decreases n - i,
    {
        let e = bars[i];
        if e.kind == kind && e.observe_parent.is_none() && e.observe_entity.is_none() {
            match find_source(sources, e.entity, kind) {
                Some(s) => {
                    proof {
                        lemma_source_for_wf(sources@, e.entity, kind);
                    }
                    if s.changed {
                        let mut updated = e;
                        updated.bar.value = s.value;
                        updated.bar_changed = true;
                        bars.set(i, updated);
                    }
                }
                None => {}
            }
        }
        i += 1;
    }
}

/// For every bar of `kind` with an entity marker and no parent marker,
/// mirror the target entity's source value if that source changed; a
/// missing target or source leaves the bar silently unchanged.
pub fn update_statbar_values_from_other(bars: &mut Vec<BarEntry>, kind: u64, sources: &Vec<SourceReading>)
    requires
        forall|j: int| 0 <= j < sources@.len() ==> (#[trigger] sources@[j]).wf(),
    ensures
        final(bars)@.len() == old(bars)@.len(),
        forall|i: int| 0 <= i < old(bars)@.len()
            ==> final(bars)@[i] == entity_updated(old(bars)@[i], kind, sources@),
        forall|i: int| 0 <= i < old(bars)@.len() && (#[trigger] old(bars)@[i]).wf()
            ==> final(bars)@[i].wf(),
{
    let n = bars.len();
    let mut i: usize = 0;
    while i < n
        invariant
            0 <= i <= n,
            n == bars@.len(),
            bars@.len() == old(bars)@.len(),
            forall|j: int| 0 <= j < sources@.len() ==> (#[trigger] sources@[j]).wf(),
            forall|j: int| i <= j < n ==> bars@[j] == old(bars)@[j],
            forall|j: int| 0 <= j < i
                ==> bars@[j] == entity_updated(old(bars)@[j], kind, sources@),
            forall|j: int| 0 <= j < i && (#[trigger] old(bars)@[j]).wf() ==> bars@[j].wf(),
        decreases n - i,
    {
        let e = bars[i];
        if e.kind == kind && e.observe_parent.is_none() {
            match e.observe_entity {
                Some(target) => {
                    match find_source(sources, target.0, kind) {
                        Some(s) => {
                            proof {
                                lemma_source_for_wf(sources@, target.0, kind);
                            }
                            if s.changed {
                                let mut updated = e;
                                updated.bar.value = s.value;
                                updated.bar_changed = true;
                                bars.set(i, updated);
                            }
                        }
                        None => {}
                    }
                }
                None => {}
            }
        }
        i += 1;
    }
}

/// For every bar of `kind` with a parent marker, mirror the parent
/// entity's source value if that source changed. The parent marker
/// overrides an entity marker; a bar without a parent, or whose parent has
/// no source, is silently unchanged.
pub fn update_statbar_values_from_parents(bars: &mut Vec<BarEntry>, kind: u64, parents: &Vec<ParentLink>, sources: &Vec<SourceReading>)
    requires
        forall|j: int| 0 <= j < sources@.len() ==> (#[trigger] sources@[j]).wf(),
    ensures
        final(bars)@.len() == old(bars)@.len(),
        forall|i: int| 0 <= i < old(bars)@.len()
            ==> final(bars)@[i] == parent_updated(old(bars)@[i], kind, parents@, sources@),
        forall|i: int| 0 <= i < old(bars)@.len() && (#[trigger] old(bars)@[i]).wf()
            ==> final(bars)@[i].wf(),
{
    let n = bars.len();
    let mut i: usize = 0;
    while i < n
        invariant
            0 <= i <= n,
            n == bars@.len(),
            bars@.len() == old(bars)@.len(),
            forall|j: int| 0 <= j < sources@.len() ==> (#[trigger] sources@[j]).wf(),
            forall|j: int| i <= j < n ==> bars@[j] == old(bars)@[j],
            forall|j: int| 0 <= j < i
                ==> bars@[j] == parent_updated(old(bars)@[j], kind, parents@, sources@),
            forall|j: int| 0 <= j < i && (#[trigger] old(bars)@[j]).wf() ==> bars@[j].wf(),
        decreases n - i,
    {
        let e = bars[i];
        if e.kind == kind && e.observe_parent.is_some() {
            match find_parent(parents, e.entity) {
                Some(p) => {
                    match find_source(sources, p, kind) {
                        Some(s) => {
                            proof {
                                lemma_source_for_wf(sources@, p, kind);
                            }
                            if s.changed {
                                let mut updated = e;
                                updated.bar.value = s.value;
                                updated.bar_changed = true;
                                bars.set(i, updated);
                            }
                        }
                        None => {}
                    }
                }
                None => {}
            }
        }
        i += 1;
    }
}

/// If the observable resource bound to `kind` changed this frame, mirror
/// its value into every bar of that kind (fan-out: one resource change
/// updates all bars of the kind).
pub fn update_statbar_from_resource(bars: &mut Vec<BarEntry>, kind: u64, value: i64, changed: bool)
    requires
        -SCALAR_LIMIT <= value <= SCALAR_LIMIT,
    ensures
        final(bars)@.len() == old(bars)@.len(),
        forall|i: int| 0 <= i < old(bars)@.len()
            ==> final(bars)@[i] == resource_updated(old(bars)@[i], kind, value, changed),
        forall|i: int| 0 <= i < old(bars)@.len() && (#[trigger] old(bars)@[i]).wf()
            ==> final(bars)@[i].wf(),
{
    if !changed {
        return;
    }
    let n = bars.len();
    let mut i: usize = 0;
    while i < n
        invariant
            0 <= i <= n,
            n == bars@.len(),
            bars@.len() == old(bars)@.len(),
            -SCALAR_LIMIT <= value <= SCALAR_LIMIT,
            forall|j: int| i <= j < n ==> bars@[j] == old(bars)@[j],
            forall|j: int| 0 <= j < i
                ==> bars@[j] == resource_updated(old(bars)@[j], kind, value, true),
            forall|j: int| 0 <= j < i && (#[trigger] old(bars)@[j]).wf() ==> bars@[j].wf(),
        decreases n - i,
    {
        let e = bars[i];
        if e.kind == kind {
            let mut updated = e;
            updated.bar.value = value;
            updated.bar_changed = true;
            bars.set(i, updated);
        }
        i += 1;
    }
}

/// For every changed bar of `kind` with a switch decoration, set the fill
/// color to the low color if the value is at or below the pivot, and to
/// the high color otherwise; the boundary value itself takes the low
/// color.
pub fn switch_stat_bar_colors(bars: &mut Vec<BarEntry>, kind: u64)
    ensures
        final(bars)@.len() == old(bars)@.len(),
        forall|i: int| 0 <= i < old(bars)@.len()
            ==> final(bars)@[i] == switch_colored(old(bars)@[i], kind),
        forall|i: int| 0 <= i < old(bars)@.len() && (#[trigger] old(bars)@[i]).wf()
            ==> final(bars)@[i].wf(),
{
    let n = bars.len();
    let mut i: usize = 0;
    while i < n
        invariant
            0 <= i <= n,
            n == bars@.len(),
            bars@.len() == old(bars)@.len(),
            forall|j: int| i <= j < n ==> bars@[j] == old(bars)@[j],
            forall|j: int| 0 <= j < i ==> bars@[j] == switch_colored(old(bars)@[j], kind),
            forall|j: int| 0 <= j < i && (#[trigger] old(bars)@[j]).wf() ==> bars@[j].wf(),
        decreases n - i,
    {
        let e = bars[i];
        if e.kind == kind && e.bar_changed {
            match e.color_switch {
                Some(switcher) => {
                    let mut updated = e;
                    updated.bar.color = if e.bar.value <= switcher.pivot {
                        switcher.low
                    } else {
                        switcher.high
                    };
                    bars.set(i, updated);
                }
                None => {}
            }
        }
        i += 1;
    }
}

/// For every changed bar of `kind` with a lerp decoration, set the fill
/// color to the exact interpolation of the decoration's endpoints at the
/// bar's value.
pub fn lerp_stat_bar_colors(bars: &mut Vec<BarEntry>, kind: u64)
    requires
        forall|j: int| 0 <= j < old(bars)@.len() ==> (#[trigger] old(bars)@[j]).wf(),
    ensures
        final(bars)@.len() == old(bars)@.len(),
        forall|i: int| 0 <= i < old(bars)@.len()
            ==> final(bars)@[i] == lerp_colored(old(bars)@[i], kind),
        forall|i: int| 0 <= i < old(bars)@.len() ==> (#[trigger] final(bars)@[i]).wf(),
{
    let n = bars.len();
    let mut i: usize = 0;
    while i < n
        invariant
            0 <= i <= n,
            n == bars@.len(),
            bars@.len() == old(bars)@.len(),
            forall|j: int| i <= j < n ==> bars@[j] == old(bars)@[j],
            forall|j: int| 0 <= j < old(bars)@.len() ==> (#[trigger] old(bars)@[j]).wf(),
            forall|j: int| 0 <= j < i ==> bars@[j] == lerp_colored(old(bars)@[j], kind),
            forall|j: int| 0 <= j < i ==> (#[trigger] bars@[j]).wf(),
        decreases n - i,
    {
        let e = bars[i];
        if e.kind == kind && e.bar_changed {
            match e.color_lerp {
                Some(lerper) => {
                    let mut updated = e;
                    updated.bar.color = lerper.min.mix(&lerper.max, e.bar.value);
                    bars.set(i, updated);
                }
                None => {}
            }
        }
        i += 1;
    }
}

/// Retire the change marks of every bar of `kind` at the end of a frame,
/// so next frame's color policies only react to next frame's writes. This
/// is the explicit form of the host's change-detection bookkeeping.
pub fn clear_change_marks(bars: &mut Vec<BarEntry>, kind: u64)
    ensures
        final(bars)@.len() == old(bars)@.len(),
        forall|i: int| 0 <= i < old(bars)@.len()
            ==> final(bars)@[i] == change_cleared(old(bars)@[i], kind),
        forall|i: int| 0 <= i < old(bars)@.len() && (#[trigger] old(bars)@[i]).wf()
            ==> final(bars)@[i].wf(),
{
    let n = bars.len();
    let mut i: usize = 0;
    while i < n
        invariant
            0 <= i <= n,
            n == bars@.len(),
            bars@.len() == old(bars)@.len(),
            forall|j: int| i <= j < n ==> bars@[j] == old(bars)@[j],
            forall|j: int| 0 <= j < i ==> bars@[j] == change_cleared(old(bars)@[j], kind),
            forall|j: int| 0 <= j < i && (#[trigger] old(bars)@[j]).wf() ==> bars@[j].wf(),
        decreases n - i,
    {
        let e = bars[i];
        if e.kind == kind && e.bar_changed {
            let mut updated = e;
            updated.bar_changed = false;
            bars.set(i, updated);
        }
        i += 1;
    }
}

} // verus!
