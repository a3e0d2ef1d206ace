//! The draw-list extraction stage.
//!
//! Once per render frame this stage translates every visible, non-hidden
//! bar of one kind into two or three axis-aligned colored rectangles:
//! border (if decorated), empty track (if the bar is not full), and fill
//! (if the bar is not empty). The stage retains no state: it regenerates
//! all records from scratch on every call.
//!
//! Positions and sizes of the records are centers and extents in fine
//! units of `1 / (2 * VALUE_SCALE)` of a world unit, so the fill rectangle
//! is exact: its major-axis size is the clamped value times the bar length
//! with no rounding. Draw order is depth layers over a shared base depth:
//! border at the base, track one layer above, fill two layers above.

use vstd::prelude::*;
use crate::color::{Rgba, SCALAR_LIMIT, VALUE_SCALE};
use crate::model::{StatbarBorder, StatbarDepth};
use crate::store::{BarEntry, EntityView, view_for, find_view};

verus! {

/// The base draw-order depth used when no `StatbarDepth` resource is
/// present.
pub const DEFAULT_Z_DEPTH: i64 = 990;

/// One renderer-agnostic colored rectangle: a center position, a
/// draw-order depth layer, extents, and a color. Positions and extents
/// are in fine units of `1 / (2 * VALUE_SCALE)` of a world unit.
#[derive(Clone, Copy, Debug, PartialEq)]
pub struct DrawRecord {
    /// center x, in fine units
    pub x: i64,
    /// center y, in fine units
    pub y: i64,
    /// draw-order depth layer; higher draws in front
    pub depth: i64,
    /// x extent, in fine units
    pub width: i64,
    /// y extent, in fine units
    pub height: i64,
    /// fill color of the rectangle
    pub color: Rgba,
}

/// The base depth: the override resource's value if present, the default
/// otherwise.
pub open spec fn depth_base(depth: Option<StatbarDepth>) -> i64 {
    match depth {
        Some(d) => d.0,
        None => DEFAULT_Z_DEPTH,
    }
}

/// The bar's value clamped into the nominal range, for geometry purposes
/// only; the stored value itself is never clamped.
pub open spec fn clamped_value(v: i64) -> i64 {
    if v < 0 {
        0
    } else if v > VALUE_SCALE {
        VALUE_SCALE
    } else {
        v
    }
}

/// Center x of the bar in fine units: the world position plus the flat
/// displacement.
pub open spec fn base_x(e: BarEntry, view: EntityView) -> int {
    2 * VALUE_SCALE * (view.x + e.bar.displacement_x)
}

/// Center y of the bar in fine units.
pub open spec fn base_y(e: BarEntry, view: EntityView) -> int {
    2 * VALUE_SCALE * (view.y + e.bar.displacement_y)
}

/// Full x extent of the bar in fine units: the length when horizontal,
/// the thickness when vertical.
pub open spec fn size_x(e: BarEntry) -> int {
    2 * VALUE_SCALE * (if e.bar.vertical { e.bar.thickness as int } else { e.bar.length as int })
}

/// Full y extent of the bar in fine units.
pub open spec fn size_y(e: BarEntry) -> int {
    2 * VALUE_SCALE * (if e.bar.vertical { e.bar.length as int } else { e.bar.thickness as int })
}

/// The border rectangle: the bar's full extent grown by the four edge
/// thicknesses, at the base position and base depth, in the border color.
pub open spec fn border_record(e: BarEntry, b: StatbarBorder, view: EntityView, z: i64) -> DrawRecord {
    DrawRecord {
        x: base_x(e, view) as i64,
        y: base_y(e, view) as i64,
        depth: z,
        width: (size_x(e) + 2 * VALUE_SCALE * (b.left + b.right)) as i64,
        height: (size_y(e) + 2 * VALUE_SCALE * (b.bottom + b.top)) as i64,
        color: b.color,
    }
}

/// The empty-track rectangle: the bar's full extent at the base position,
/// one depth layer above the border, in the empty color.
pub open spec fn track_record(e: BarEntry, view: EntityView, z: i64) -> DrawRecord {
    DrawRecord {
        x: base_x(e, view) as i64,
        y: base_y(e, view) as i64,
        depth: (z + 1) as i64,
        width: size_x(e) as i64,
        height: size_y(e) as i64,
        color: e.bar.empty_color,
    }
}

/// The fill anchor offset along the major axis, in fine units: the fill
/// rectangle's center sits half of the missing part away from the bar
/// center, toward the start of the axis, or toward its end when the
/// reverse flag is set.
pub open spec fn fill_offset(e: BarEntry, vc: int) -> int {
    (if e.bar.reverse { -(e.bar.length as int) } else { e.bar.length as int }) * (vc - VALUE_SCALE)
}

/// The fill rectangle: major-axis extent is exactly the clamped value
/// times the bar length, minor-axis extent is the thickness, anchored at
/// one end of the track, two depth layers above the border, in the bar's
/// current fill color.
pub open spec fn fill_record(e: BarEntry, view: EntityView, z: i64) -> DrawRecord {
    let vc = clamped_value(e.bar.value) as int;
    if e.bar.vertical {
        DrawRecord {
            x: base_x(e, view) as i64,
            y: (base_y(e, view) + fill_offset(e, vc)) as i64,
            depth: (z + 2) as i64,
            width: size_x(e) as i64,
            height: ((2 * vc) * e.bar.length) as i64,
            color: e.bar.color,
        }
    } else {
        DrawRecord {
            x: (base_x(e, view) + fill_offset(e, vc)) as i64,
            y: base_y(e, view) as i64,
            depth: (z + 2) as i64,
            width: ((2 * vc) * e.bar.length) as i64,
            height: size_y(e) as i64,
            color: e.bar.color,
        }
    }
}

/// All records of one bar, in draw order: border behind track behind
/// fill. A hidden bar, a non-visible entity, or an entity without a
/// resolved world position contributes no records; the border is always
/// emitted when decorated, the track only when the raw value is below
/// full, the fill only when the raw value is above empty.
pub open spec fn entry_records(e: BarEntry, views: Seq<EntityView>, z: i64) -> Seq<DrawRecord> {
    match view_for(views, e.entity) {
        None => Seq::empty(),
        Some(view) => if e.bar.hide || !view.visible {
            Seq::empty()
        } else {
            (match e.border {
                Some(b) => seq![border_record(e, b, view, z)],
                None => Seq::empty(),
            }) + (if e.bar.value < VALUE_SCALE {
                seq![track_record(e, view, z)]
            } else {
                Seq::empty()
            }) + (if e.bar.value > 0 {
                seq![fill_record(e, view, z)]
            } else {
                Seq::empty()
            })
        },
    }
}

/// The records one store entry contributes to the pass for `kind`.
pub open spec fn entry_part(e: BarEntry, kind: u64, views: Seq<EntityView>, z: i64) -> Seq<DrawRecord> {
    if e.kind == kind {
        entry_records(e, views, z)
    } else {
        Seq::empty()
    }
}

/// All records of one extraction pass over the store for `kind`, in store
/// order.
pub open spec fn kind_records(bars: Seq<BarEntry>, kind: u64, views: Seq<EntityView>, z: i64) -> Seq<DrawRecord>
    decreases bars.len(),
{
    if bars.len() == 0 {
        Seq::empty()
    } else {
        entry_part(bars[0], kind, views, z) + kind_records(bars.drop_first(), kind, views, z)
    }
}

/// Appending one entry to a pass appends that entry's records.
pub proof fn lemma_kind_records_snoc(bars: Seq<BarEntry>, e: BarEntry, kind: u64, views: Seq<EntityView>, z: i64)
    ensures
        kind_records(bars.push(e), kind, views, z)
            == kind_records(bars, kind, views, z) + entry_part(e, kind, views, z),
    decreases bars.len(),
{
    if bars.len() == 0 {
        assert(bars.push(e).drop_first() =~= Seq::<BarEntry>::empty());
        assert(bars.push(e)[0] == e);
        assert(kind_records(Seq::<BarEntry>::empty(), kind, views, z) == Seq::<DrawRecord>::empty());
        assert(kind_records(bars.push(e), kind, views, z)
            == entry_part(e, kind, views, z) + Seq::<DrawRecord>::empty());
        assert(kind_records(bars.push(e), kind, views, z)
            =~= kind_records(bars, kind, views, z) + entry_part(e, kind, views, z));
    } else {
        assert(bars.push(e)[0] == bars[0]);
        assert(bars.push(e).drop_first() =~= bars.drop_first().push(e));
        lemma_kind_records_snoc(bars.drop_first(), e, kind, views, z);
        assert(kind_records(bars.push(e), kind, views, z)
            =~= kind_records(bars, kind, views, z) + entry_part(e, kind, views, z));
    }
}

/// A view found by `view_for` among well-formed views is itself
/// well-formed.
pub proof fn lemma_view_for_wf(views: Seq<EntityView>, entity: u64)
    requires
        forall|j: int| 0 <= j < views.len() ==> (#[trigger] views[j]).wf(),
    ensures
        view_for(views, entity) matches Some(v) ==> v.wf(),
    decreases views.len(),
{
    if views.len() != 0 {
        assert(forall|j: int| 0 <= j < views.drop_first().len()
            ==> (#[trigger] views.drop_first()[j]) == views[j + 1]);
        lemma_view_for_wf(views.drop_first(), entity);
    }
}

/// Extract the draw records of every bar of `kind`, fully regenerated for
/// this render frame: per visible bar its border (if decorated), its empty
/// track (unless full), and its fill (unless empty), sized and anchored
/// exactly as the bar's value prescribes.
pub fn extract_stat_bars(bars: &Vec<BarEntry>, kind: u64, views: &Vec<EntityView>, depth: Option<StatbarDepth>) -> (out: Vec<DrawRecord>)
    requires
        forall|j: int| 0 <= j < bars@.len() ==> (#[trigger] bars@[j]).wf(),
        forall|j: int| 0 <= j < views@.len() ==> (#[trigger] views@[j]).wf(),
        -SCALAR_LIMIT <= depth_base(depth) <= SCALAR_LIMIT,
    ensures
        out@ == kind_records(bars@, kind, views@, depth_base(depth)),
{
    let z: i64 = match depth {
        Some(d) => d.0,
        None => DEFAULT_Z_DEPTH,
    };
    let mut out: Vec<DrawRecord> = Vec::new();
    let n = bars.len();
    let mut i: usize = 0;
    proof {
        assert(bars@.take(0) =~= Seq::<BarEntry>::empty());
    }
    while i < n
        invariant
            0 <= i <= n,
            n == bars@.len(),
            z == depth_base(depth),
            -SCALAR_LIMIT <= z <= SCALAR_LIMIT,
            forall|j: int| 0 <= j < bars@.len() ==> (#[trigger] bars@[j]).wf(),
            forall|j: int| 0 <= j < views@.len() ==> (#[trigger] views@[j]).wf(),
            out@ == kind_records(bars@.take(i as int), kind, views@, z),
        decreases n - i,
    {
        let ghost out_before = out@;
        let e = bars[i];
        if e.kind == kind {
            match find_view(views, e.entity) {
                Some(view) => {
                    proof {
                        lemma_view_for_wf(views@, e.entity);
                    }
                    if !e.bar.hide && view.visible {
                        let bx: i64 = 2 * VALUE_SCALE * (view.x + e.bar.displacement_x);
                        let by: i64 = 2 * VALUE_SCALE * (view.y + e.bar.displacement_y);
                        let sx: i64 = 2 * VALUE_SCALE
                            * (if e.bar.vertical { e.bar.thickness } else { e.bar.length });
                        let sy: i64 = 2 * VALUE_SCALE
                            * (if e.bar.vertical { e.bar.length } else { e.bar.thickness });
                        match e.border {
                            Some(b) => {
                                proof {
                                    assert(b.wf());
                                }
                                let edge_w: i64 = b.left + b.right;
                                let edge_h: i64 = b.bottom + b.top;
                                out.push(DrawRecord {
                                    x: bx,
                                    y: by,
                                    depth: z,
                                    width: sx + 2 * VALUE_SCALE * edge_w,
                                    height: sy + 2 * VALUE_SCALE * edge_h,
                                    color: b.color,
                                });
                            }
                            None => {}
                        }
                        if e.bar.value < VALUE_SCALE {
                            out.push(DrawRecord {
                                x: bx,
                                y: by,
                                depth: z + 1,
                                width: sx,
                                height: sy,
                                color: e.bar.empty_color,
                            });
                        }
                        if e.bar.value > 0 {
                            let vc: i64 = if e.bar.value > VALUE_SCALE {
                                VALUE_SCALE
                            } else {
                                e.bar.value
                            };
                            proof {
                                crate::color::lemma_mul_bound(
                                    (2 * vc) as int, e.bar.length as int,
                                    2 * VALUE_SCALE as int, SCALAR_LIMIT as int);
                                crate::color::lemma_mul_bound(
                                    (if e.bar.reverse { -(e.bar.length as int) } else { e.bar.length as int }),
                                    vc - VALUE_SCALE,
                                    SCALAR_LIMIT as int, VALUE_SCALE as int);
                                assert((2000int) * 1048576 == 2097152000) by (nonlinear_arith);
                                assert((1048576int) * 1000 == 1048576000) by (nonlinear_arith);
                            }
                            let fill_main: i64 = (2 * vc) * e.bar.length;
                            let dir_len: i64 = if e.bar.reverse { -e.bar.length } else { e.bar.length };
                            let off: i64 = dir_len * (vc - VALUE_SCALE);
                            if e.bar.vertical {
                                out.push(DrawRecord {
                                    x: bx,
                                    y: by + off,
                                    depth: z + 2,
                                    width: sx,
                                    height: fill_main,
                                    color: e.bar.color,
                                });
                            } else {
                                out.push(DrawRecord {
                                    x: bx + off,
                                    y: by,
                                    depth: z + 2,
                                    width: fill_main,
                                    height: sy,
                                    color: e.bar.color,
                                });
                            }
                        }
                        proof {
                            assert(out@ =~= out_before + entry_part(bars@[i as int], kind, views@, z));
                        }
                    } else {
                        proof {
                            assert(out@ =~= out_before + entry_part(bars@[i as int], kind, views@, z));
                        }
                    }
                }
                None => {
                    proof {
                        assert(out@ =~= out_before + entry_part(bars@[i as int], kind, views@, z));
                    }
                }
            }
        } else {
            proof {
                assert(out@ =~= out_before + entry_part(bars@[i as int], kind, views@, z));
            }
        }
        proof {
            lemma_kind_records_snoc(bars@.take(i as int), bars@[i as int], kind, views@, z);
            assert(bars@.take(i as int + 1) =~= bars@.take(i as int).push(bars@[i as int]));
        }
        i += 1;
    }
    proof {
        assert(bars@.take(n as int) =~= bars@);
    }
    out
}

} // verus!
