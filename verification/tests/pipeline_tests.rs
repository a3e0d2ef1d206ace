//! Propagation, color policy, and frame driver behavior on concrete
//! scenarios.

use stat_bars::{
    BarEntry, ParentLink, RegisterStatbarSubject, ResourceReading, Rgba, SourceReading, Statbar,
    StatbarColorLerp, StatbarColorSwitch, StatbarObservable, StatbarObserveEntity,
    StatbarObserveParent, StatbarSchedule, VALUE_SCALE,
    clear_change_marks, find_source, lerp_stat_bar_colors, run_frame, switch_stat_bar_colors,
    update_statbar_from_resource, update_statbar_values, update_statbar_values_from_other,
    update_statbar_values_from_parents,
};

fn entry(entity: u64, kind: u64) -> BarEntry {
    BarEntry {
        entity,
        kind,
        bar: Statbar::default(),
        border: None,
        color_lerp: None,
        color_switch: None,
        observe_parent: None,
        observe_entity: None,
        bar_changed: false,
    }
}

const RED: Rgba = Rgba { red: 255, green: 0, blue: 0, alpha: 255, den: 255 };
const GREEN: Rgba = Rgba { red: 0, green: 128, blue: 0, alpha: 255, den: 255 };

#[test]
fn default_statbar_matches_documentation() {
    let bar = Statbar::default();
    assert_eq!(bar.color, Rgba { red: 255, green: 255, blue: 0, alpha: 255, den: 255 });
    assert_eq!(bar.empty_color, Rgba { red: 200, green: 200, blue: 0, alpha: 1000, den: 1000 });
    assert_eq!(bar.length, 100);
    assert_eq!(bar.thickness, 16);
    assert_eq!(bar.displacement_x, 0);
    assert_eq!(bar.displacement_y, 0);
    assert!(!bar.vertical);
    assert!(!bar.reverse);
    assert!(!bar.hide);
    assert_eq!(bar.value, 750);
}

#[test]
fn default_decorations_match_documentation() {
    let sw = StatbarColorSwitch::default();
    assert_eq!(sw.pivot, 250);
    assert_eq!(sw.low, RED);
    assert_eq!(sw.high, GREEN);
    let lerp = StatbarColorLerp::default();
    assert_eq!(lerp.min, RED);
    assert_eq!(lerp.max, GREEN);
}

#[test]
fn self_binding_mirrors_changed_source() {
    let mut bars = vec![entry(1, 0)];
    let sources = vec![SourceReading { entity: 1, kind: 0, value: 330, changed: true }];
    update_statbar_values(&mut bars, 0, &sources);
    assert_eq!(bars[0].bar.value, 330);
    assert!(bars[0].bar_changed);
}

#[test]
fn self_binding_skips_unchanged_source() {
    let mut bars = vec![entry(1, 0)];
    let sources = vec![SourceReading { entity: 1, kind: 0, value: 330, changed: false }];
    update_statbar_values(&mut bars, 0, &sources);
    assert_eq!(bars[0].bar.value, 750);
    assert!(!bars[0].bar_changed);
}

#[test]
fn self_binding_ignores_other_kinds_and_marked_bars() {
    let mut marked = entry(1, 0);
    marked.observe_entity = Some(StatbarObserveEntity(9));
    let mut bars = vec![marked, entry(1, 5)];
    let sources = vec![
        SourceReading { entity: 1, kind: 0, value: 100, changed: true },
        SourceReading { entity: 1, kind: 5, value: 200, changed: true },
    ];
    update_statbar_values(&mut bars, 0, &sources);
    assert_eq!(bars[0].bar.value, 750);
    assert_eq!(bars[1].bar.value, 750);
}

#[test]
fn first_matching_source_wins() {
    let mut bars = vec![entry(1, 0)];
    let sources = vec![
        SourceReading { entity: 1, kind: 0, value: 100, changed: true },
        SourceReading { entity: 1, kind: 0, value: 200, changed: true },
    ];
    assert_eq!(find_source(&sources, 1, 0).unwrap().value, 100);
    update_statbar_values(&mut bars, 0, &sources);
    assert_eq!(bars[0].bar.value, 100);
}

#[test]
fn entity_binding_mirrors_target_and_tolerates_dangling_target() {
    let mut observing = entry(1, 0);
    observing.observe_entity = Some(StatbarObserveEntity(2));
    let mut dangling = entry(3, 0);
    dangling.observe_entity = Some(StatbarObserveEntity(77));
    let mut bars = vec![observing, dangling];
    let sources = vec![SourceReading { entity: 2, kind: 0, value: 420, changed: true }];
    update_statbar_values_from_other(&mut bars, 0, &sources);
    assert_eq!(bars[0].bar.value, 420);
    assert_eq!(bars[1].bar.value, 750);
    assert!(!bars[1].bar_changed);
}

#[test]
fn parent_binding_mirrors_parent_source() {
    let mut child = entry(5, 0);
    child.observe_parent = Some(StatbarObserveParent);
    let mut bars = vec![child];
    let parents = vec![ParentLink { child: 5, parent: 2 }];
    let sources = vec![SourceReading { entity: 2, kind: 0, value: 640, changed: true }];
    update_statbar_values_from_parents(&mut bars, 0, &parents, &sources);
    assert_eq!(bars[0].bar.value, 640);
}

#[test]
fn parent_binding_leaves_value_when_parent_lacks_source() {
    let mut child = entry(5, 0);
    child.observe_parent = Some(StatbarObserveParent);
    let mut bars = vec![child];
    let parents = vec![ParentLink { child: 5, parent: 2 }];
    let sources = vec![SourceReading { entity: 8, kind: 0, value: 640, changed: true }];
    update_statbar_values_from_parents(&mut bars, 0, &parents, &sources);
    assert_eq!(bars[0].bar.value, 750);
}

#[test]
fn resource_fanout_updates_every_bar_of_the_kind() {
    let mut bars = vec![entry(1, 7), entry(2, 7), entry(3, 7), entry(4, 8)];
    update_statbar_from_resource(&mut bars, 7, 640, true);
    assert_eq!(bars[0].bar.value, 640);
    assert_eq!(bars[1].bar.value, 640);
    assert_eq!(bars[2].bar.value, 640);
    assert_eq!(bars[3].bar.value, 750);
}

#[test]
fn resource_fanout_is_gated_on_change() {
    let mut bars = vec![entry(1, 7)];
    update_statbar_from_resource(&mut bars, 7, 640, false);
    assert_eq!(bars[0].bar.value, 750);
    assert!(!bars[0].bar_changed);
}

#[test]
fn switch_policy_boundary_is_inclusive_to_low() {
    let mut at_pivot = entry(1, 0);
    at_pivot.color_switch = Some(StatbarColorSwitch::new(250, RED, GREEN));
    at_pivot.bar.value = 250;
    at_pivot.bar_changed = true;
    let mut above = entry(2, 0);
    above.color_switch = Some(StatbarColorSwitch::new(250, RED, GREEN));
    above.bar.value = 251;
    above.bar_changed = true;
    let mut below = entry(3, 0);
    below.color_switch = Some(StatbarColorSwitch::new(250, RED, GREEN));
    below.bar.value = 0;
    below.bar_changed = true;
    let mut bars = vec![at_pivot, above, below];
    switch_stat_bar_colors(&mut bars, 0);
    assert_eq!(bars[0].bar.color, RED);
    assert_eq!(bars[1].bar.color, GREEN);
    assert_eq!(bars[2].bar.color, RED);
}

#[test]
fn switch_policy_skips_unchanged_bars() {
    let mut stale = entry(1, 0);
    stale.color_switch = Some(StatbarColorSwitch::new(250, RED, GREEN));
    stale.bar.value = 0;
    stale.bar_changed = false;
    let previous = stale.bar.color;
    let mut bars = vec![stale];
    switch_stat_bar_colors(&mut bars, 0);
    assert_eq!(bars[0].bar.color, previous);
}

#[test]
fn lerp_policy_writes_exact_interpolation() {
    let mut changed = entry(1, 0);
    changed.color_lerp = Some(StatbarColorLerp::new(RED, GREEN));
    changed.bar.value = 500;
    changed.bar_changed = true;
    let mut bars = vec![changed];
    lerp_stat_bar_colors(&mut bars, 0);
    let midpoint = Rgba {
        red: 255 * 255,
        green: 128 * 255,
        blue: 0,
        alpha: 2 * 255 * 255,
        den: 2 * 255 * 255,
    };
    assert!(bars[0].bar.color.eq_color(&midpoint));
}

#[test]
fn clear_change_marks_retires_only_the_kind() {
    let mut a = entry(1, 0);
    a.bar_changed = true;
    let mut b = entry(2, 3);
    b.bar_changed = true;
    let mut bars = vec![a, b];
    clear_change_marks(&mut bars, 0);
    assert!(!bars[0].bar_changed);
    assert!(bars[1].bar_changed);
}

#[test]
fn parent_marker_overrides_entity_marker_in_a_frame() {
    let mut both = entry(5, 7);
    both.observe_parent = Some(StatbarObserveParent);
    both.observe_entity = Some(StatbarObserveEntity(9));
    let mut bars = vec![both];
    let parents = vec![ParentLink { child: 5, parent: 2 }];
    let sources = vec![
        SourceReading { entity: 2, kind: 7, value: 400, changed: true },
        SourceReading { entity: 9, kind: 7, value: 900, changed: true },
    ];
    let mut schedule = StatbarSchedule::new();
    schedule.add_statbar_component_observer(7);
    run_frame(&schedule, &mut bars, &sources, &parents, &vec![]);
    assert_eq!(bars[0].bar.value, 400);
}

#[test]
fn parent_marker_blocks_entity_marker_even_without_parent_source() {
    let mut both = entry(5, 7);
    both.observe_parent = Some(StatbarObserveParent);
    both.observe_entity = Some(StatbarObserveEntity(9));
    both.bar.value = 123;
    let mut bars = vec![both];
    let parents = vec![ParentLink { child: 5, parent: 2 }];
    let sources = vec![SourceReading { entity: 9, kind: 7, value: 900, changed: true }];
    let mut schedule = StatbarSchedule::new();
    schedule.add_statbar_component_observer(7);
    run_frame(&schedule, &mut bars, &sources, &parents, &vec![]);
    assert_eq!(bars[0].bar.value, 123);
}

#[test]
fn resource_frame_updates_values_then_colors_then_clears_marks() {
    let mut watched = entry(1, 7);
    watched.color_switch = Some(StatbarColorSwitch::new(650, RED, GREEN));
    let mut bars = vec![watched, entry(2, 8)];
    let resources = vec![ResourceReading { kind: 7, value: 640, changed: true }];
    let mut schedule = StatbarSchedule::new();
    schedule.add_statbar_resource_observer(7);
    run_frame(&schedule, &mut bars, &vec![], &vec![], &resources);
    assert_eq!(bars[0].bar.value, 640);
    assert_eq!(bars[0].bar.color, RED);
    assert!(!bars[0].bar_changed);
    assert_eq!(bars[1].bar.value, 750);
}

#[test]
fn standalone_frame_recolors_host_written_bars() {
    let mut manual = entry(1, 3);
    manual.color_switch = Some(StatbarColorSwitch::new(250, RED, GREEN));
    manual.bar.value = 700;
    manual.bar_changed = true;
    let mut bars = vec![manual];
    let mut schedule = StatbarSchedule::new();
    schedule.add_standalone_statbar(3);
    run_frame(&schedule, &mut bars, &vec![], &vec![], &vec![]);
    assert_eq!(bars[0].bar.color, GREEN);
    assert!(!bars[0].bar_changed);
}

#[test]
fn both_policies_attached_interpolation_wins_last() {
    let mut decorated = entry(1, 0);
    decorated.color_switch = Some(StatbarColorSwitch::new(250, RED, GREEN));
    decorated.color_lerp = Some(StatbarColorLerp::new(RED, GREEN));
    decorated.bar.value = 0;
    decorated.bar_changed = true;
    let mut bars = vec![decorated];
    let mut schedule = StatbarSchedule::new();
    schedule.add_standalone_statbar(0);
    run_frame(&schedule, &mut bars, &vec![], &vec![], &vec![]);
    assert!(bars[0].bar.color.eq_color(&RED));
    assert_eq!(bars[0].bar.color.den, 255 * 255 * 1000);
}

struct Stat {
    value: i64,
    max: i64,
}

impl StatbarObservable for Stat {
    fn get_statbar_value(&self) -> i64 {
        self.value * VALUE_SCALE / self.max
    }
}

#[test]
fn observable_ratio_reaches_descriptor_exactly() {
    let stat = Stat { value: 15, max: 20 };
    let reading = SourceReading::read(1, 0, &stat, true);
    assert_eq!(reading.value, 750);
    let mut bars = vec![entry(1, 0)];
    bars[0].bar.value = 0;
    update_statbar_values(&mut bars, 0, &vec![reading]);
    assert_eq!(bars[0].bar.value, 15 * VALUE_SCALE / 20);
}
