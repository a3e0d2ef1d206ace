//! Draw-list extraction on concrete scenarios: record counts, exact
//! geometry in fine units, depth layering, and orientation handling.

use stat_bars::{
    BarEntry, DrawRecord, EntityView, RegisterStatbarSubject, Rgba, Statbar, StatbarBorder,
    StatbarDepth, StatbarSchedule, DEFAULT_Z_DEPTH, VALUE_SCALE,
    extract_stat_bars, run_extraction,
};

fn entry(entity: u64, kind: u64) -> BarEntry {
    BarEntry {
        entity,
        kind,
        bar: Statbar::default(),
        border: None,
        color_lerp: None,
        color_switch: None,
        observe_parent: None,
        observe_entity: None,
        bar_changed: false,
    }
}

fn view(entity: u64, x: i64, y: i64) -> EntityView {
    EntityView { entity, x, y, visible: true }
}

const WHITE: Rgba = Rgba { red: 255, green: 255, blue: 255, alpha: 255, den: 255 };

#[test]
fn partial_bar_emits_track_and_exact_fill() {
    let mut e = entry(1, 0);
    e.bar.value = 250;
    e.bar.displacement_x = 3;
    e.bar.displacement_y = 4;
    let records = extract_stat_bars(&vec![e], 0, &vec![view(1, 10, 20)], None);
    assert_eq!(records.len(), 2);
    let track = records[0];
    assert_eq!(
        track,
        DrawRecord {
            x: 2 * VALUE_SCALE * 13,
            y: 2 * VALUE_SCALE * 24,
            depth: DEFAULT_Z_DEPTH + 1,
            width: 2 * VALUE_SCALE * 100,
            height: 2 * VALUE_SCALE * 16,
            color: Rgba { red: 200, green: 200, blue: 0, alpha: 1000, den: 1000 },
        }
    );
    let fill = records[1];
    // exactly value * length along the major axis: 25 world units in fine units
    assert_eq!(fill.width, 2 * 250 * 100);
    assert_eq!(VALUE_SCALE * fill.width, 250 * track.width);
    assert_eq!(fill.height, 2 * VALUE_SCALE * 16);
    // anchored at the start of the axis: center shifted back by half the missing part
    assert_eq!(fill.x, 2 * VALUE_SCALE * 13 + 100 * (250 - VALUE_SCALE));
    assert_eq!(fill.y, 2 * VALUE_SCALE * 24);
    assert_eq!(fill.depth, DEFAULT_Z_DEPTH + 2);
    assert_eq!(fill.color, e.bar.color);
}

#[test]
fn vertical_bar_swaps_axes() {
    let mut e = entry(1, 0);
    e.bar.value = 250;
    e.bar.vertical = true;
    let records = extract_stat_bars(&vec![e], 0, &vec![view(1, 0, 0)], None);
    assert_eq!(records.len(), 2);
    let track = records[0];
    assert_eq!(track.width, 2 * VALUE_SCALE * 16);
    assert_eq!(track.height, 2 * VALUE_SCALE * 100);
    let fill = records[1];
    assert_eq!(fill.width, 2 * VALUE_SCALE * 16);
    assert_eq!(fill.height, 2 * 250 * 100);
    assert_eq!(fill.x, 0);
    assert_eq!(fill.y, 100 * (250 - VALUE_SCALE));
}

#[test]
fn reverse_flips_anchor_without_changing_fill_size() {
    let mut forward = entry(1, 0);
    forward.bar.value = 250;
    let mut backward = forward;
    backward.bar.reverse = true;
    let records_f = extract_stat_bars(&vec![forward], 0, &vec![view(1, 0, 0)], None);
    let records_b = extract_stat_bars(&vec![backward], 0, &vec![view(1, 0, 0)], None);
    let fill_f = records_f[1];
    let fill_b = records_b[1];
    assert_eq!(fill_f.width, fill_b.width);
    assert_eq!(fill_f.height, fill_b.height);
    assert_eq!(fill_f.y, fill_b.y);
    assert_eq!(fill_f.x, 100 * (250 - VALUE_SCALE));
    assert_eq!(fill_b.x, -(100 * (250 - VALUE_SCALE)));
}

#[test]
fn overfull_value_drops_track_and_clamps_fill() {
    let mut e = entry(1, 0);
    e.bar.value = 1500;
    let records = extract_stat_bars(&vec![e], 0, &vec![view(1, 0, 0)], None);
    assert_eq!(records.len(), 1);
    let fill = records[0];
    assert_eq!(fill.width, 2 * VALUE_SCALE * 100);
    assert_eq!(fill.x, 0);
    assert_eq!(fill.depth, DEFAULT_Z_DEPTH + 2);
}

#[test]
fn negative_value_drops_fill_and_keeps_track() {
    let mut e = entry(1, 0);
    e.bar.value = -5;
    let records = extract_stat_bars(&vec![e], 0, &vec![view(1, 0, 0)], None);
    assert_eq!(records.len(), 1);
    assert_eq!(records[0].depth, DEFAULT_Z_DEPTH + 1);
    assert_eq!(records[0].width, 2 * VALUE_SCALE * 100);
}

#[test]
fn empty_and_full_bars_emit_one_record_each() {
    let mut empty = entry(1, 0);
    empty.bar.value = 0;
    let records = extract_stat_bars(&vec![empty], 0, &vec![view(1, 0, 0)], None);
    assert_eq!(records.len(), 1);
    assert_eq!(records[0].color, Rgba { red: 200, green: 200, blue: 0, alpha: 1000, den: 1000 });
    let mut full = entry(1, 0);
    full.bar.value = VALUE_SCALE;
    let records = extract_stat_bars(&vec![full], 0, &vec![view(1, 0, 0)], None);
    assert_eq!(records.len(), 1);
    assert_eq!(records[0].width, 2 * VALUE_SCALE * 100);
    assert_eq!(records[0].depth, DEFAULT_Z_DEPTH + 2);
}

#[test]
fn border_grows_by_edges_and_sits_behind() {
    let mut e = entry(1, 0);
    e.bar.value = 500;
    e.border = Some(StatbarBorder::all(WHITE, 2));
    let records = extract_stat_bars(&vec![e], 0, &vec![view(1, 0, 0)], Some(StatbarDepth(5)));
    assert_eq!(records.len(), 3);
    let border = records[0];
    assert_eq!(border.width, 2 * VALUE_SCALE * 100 + 2 * VALUE_SCALE * 4);
    assert_eq!(border.height, 2 * VALUE_SCALE * 16 + 2 * VALUE_SCALE * 4);
    assert_eq!(border.depth, 5);
    assert_eq!(border.color, WHITE);
    assert_eq!(records[1].depth, 6);
    assert_eq!(records[2].depth, 7);
}

#[test]
fn asymmetric_border_uses_each_edge() {
    let mut e = entry(1, 0);
    e.bar.value = VALUE_SCALE;
    e.border = Some(StatbarBorder {
        color: WHITE,
        left: 1,
        right: 2,
        bottom: 3,
        top: 4,
    });
    let records = extract_stat_bars(&vec![e], 0, &vec![view(1, 0, 0)], None);
    let border = records[0];
    assert_eq!(border.width, 2 * VALUE_SCALE * (100 + 1 + 2));
    assert_eq!(border.height, 2 * VALUE_SCALE * (16 + 3 + 4));
}

#[test]
fn border_is_emitted_regardless_of_value() {
    let mut drained = entry(1, 0);
    drained.bar.value = -5;
    drained.border = Some(StatbarBorder::all(WHITE, 2));
    let records = extract_stat_bars(&vec![drained], 0, &vec![view(1, 0, 0)], None);
    assert_eq!(records.len(), 2);
    assert_eq!(records[0].color, WHITE);
    assert_eq!(records[0].depth, DEFAULT_Z_DEPTH);
    let mut brimming = entry(2, 0);
    brimming.bar.value = 1500;
    brimming.border = Some(StatbarBorder::all(WHITE, 2));
    let records = extract_stat_bars(&vec![brimming], 0, &vec![view(2, 0, 0)], None);
    assert_eq!(records.len(), 2);
    assert_eq!(records[0].color, WHITE);
    assert_eq!(records[1].depth, DEFAULT_Z_DEPTH + 2);
}

#[test]
fn hidden_bar_emits_nothing() {
    let mut e = entry(1, 0);
    e.bar.hide = true;
    e.border = Some(StatbarBorder::default());
    let records = extract_stat_bars(&vec![e], 0, &vec![view(1, 0, 0)], None);
    assert_eq!(records.len(), 0);
}

#[test]
fn invisible_or_unresolved_entity_emits_nothing() {
    let e = entry(1, 0);
    let invisible = EntityView { entity: 1, x: 0, y: 0, visible: false };
    assert_eq!(extract_stat_bars(&vec![e], 0, &vec![invisible], None).len(), 0);
    let unrelated = view(9, 0, 0);
    assert_eq!(extract_stat_bars(&vec![e], 0, &vec![unrelated], None).len(), 0);
}

#[test]
fn extraction_filters_by_kind() {
    let a = entry(1, 0);
    let b = entry(1, 4);
    let records = extract_stat_bars(&vec![a, b], 4, &vec![view(1, 0, 0)], None);
    assert_eq!(records.len(), 2);
}

#[test]
fn depth_override_applies_to_all_layers() {
    let mut e = entry(1, 0);
    e.bar.value = 500;
    let records = extract_stat_bars(&vec![e], 0, &vec![view(1, 0, 0)], Some(StatbarDepth(-7)));
    assert_eq!(records[0].depth, -6);
    assert_eq!(records[1].depth, -5);
}

#[test]
fn run_extraction_concatenates_registered_kinds_in_order() {
    let mut first = entry(1, 1);
    first.bar.value = 0;
    let mut second = entry(2, 2);
    second.bar.value = 0;
    let mut schedule = StatbarSchedule::new();
    schedule.add_statbar_component_observer(2);
    schedule.add_standalone_statbar(1);
    let bars = vec![first, second];
    let views = vec![view(1, 5, 0), view(2, 9, 0)];
    let records = run_extraction(&schedule, &bars, &views, None);
    assert_eq!(records.len(), 2);
    assert_eq!(records[0].x, 2 * VALUE_SCALE * 9);
    assert_eq!(records[1].x, 2 * VALUE_SCALE * 5);
}

#[test]
fn extraction_is_idempotent_across_frames() {
    let mut e = entry(1, 0);
    e.bar.value = 640;
    let bars = vec![e];
    let views = vec![view(1, 2, 3)];
    let once = extract_stat_bars(&bars, 0, &views, None);
    let twice = extract_stat_bars(&bars, 0, &views, None);
    assert_eq!(once, twice);
}
