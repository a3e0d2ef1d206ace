//! Registration of bar kinds and the per-frame drivers.
//!
//! The host wires each bar kind into the pipeline in one of three
//! observation modes: component observation (self, entity, and parent
//! bindings), resource observation (fan-out from one global source), or
//! standalone (no propagation; the host writes values directly). The frame
//! driver then runs, for every registered kind in registration order, the
//! value propagation stage strictly before the color policy stage, and
//! retires the change marks at the end of the frame. The extraction driver
//! runs the draw-list stage for every registered kind, in a separate
//! render pass.
//!
//! When both color policies are attached to one bar the final color is
//! last-write-wins between them, an open design choice; this driver runs
//! the switch first and the interpolation second, so the interpolated
//! color stands.

use vstd::prelude::*;
use crate::color::SCALAR_LIMIT;
use crate::model::StatbarDepth;
use crate::store::{BarEntry, SourceReading, ParentLink, ResourceReading, EntityView,
    resource_for, find_resource};
use crate::stages::{self_updated, entity_updated, parent_updated, resource_updated,
    switch_colored, lerp_colored, change_cleared,
    update_statbar_values, update_statbar_values_from_other,
    update_statbar_values_from_parents, update_statbar_from_resource,
    switch_stat_bar_colors, lerp_stat_bar_colors, clear_change_marks};
use crate::extraction::{DrawRecord, kind_records, depth_base, extract_stat_bars,
    lemma_kind_records_snoc};

verus! {

/// The three stages of the pipeline, in their mandatory per-frame order:
/// values are updated strictly before colors, and extraction reads
/// whatever state the simulation frame last committed.
#[derive(Debug, Hash, PartialEq, Eq, Clone, Copy)]
pub enum StatbarSystem {
    UpdateValues,
    UpdateColors,
    ExtractSprites,
}

/// How a registered bar kind observes its data source each frame.
#[derive(Clone, Copy, Debug, PartialEq, Eq, Structural)]
pub enum ObservationMode {
    /// bars observe a co-located source, or another entity's or the
    /// parent's source when a marker says so
    Component,
    /// every bar of the kind observes one global resource
    Resource,
    /// no propagation; the host writes bar values directly
    Standalone,
}

/// One bar kind wired into the pipeline.
#[derive(Clone, Copy, Debug, PartialEq, Eq, Structural)]
pub struct KindRegistration {
    pub kind: u64,
    pub mode: ObservationMode,
}

/// The pipeline wiring: which bar kinds the drivers process, in order,
/// and in which observation mode.
#[derive(Debug)]
pub struct StatbarSchedule {
    pub registrations: Vec<KindRegistration>,
}

impl StatbarSchedule {
    /// An empty schedule: no kinds wired yet.
    pub fn new() -> (r: Self)
        ensures
            r.registrations@ == Seq::<KindRegistration>::empty(),
    {
        let registrations: Vec<KindRegistration> = Vec::new();
        StatbarSchedule { registrations }
    }
}

impl Default for StatbarSchedule {
    fn default() -> (r: Self)
        ensures
            r.registrations@ == Seq::<KindRegistration>::empty(),
    {
        Self::new()
    }
}

/// Registration entry points: wire a bar kind into the propagation, color
/// policy, and extraction stages in one of the three observation modes.
pub trait RegisterStatbarSubject {
    /// The kinds wired so far, in registration order.
    spec fn wired(&self) -> Seq<KindRegistration>;

    /// Wire `kind` for component observation: each frame its bars mirror
    /// a co-located, named-entity, or parent source, then recolor.
    fn add_statbar_component_observer(&mut self, kind: u64)
        ensures
            final(self).wired() == old(self).wired().push(
                KindRegistration { kind, mode: ObservationMode::Component }),
    ;

    /// Wire `kind` for resource observation: each frame one global
    /// resource fans out to every bar of the kind, which then recolors.
    fn add_statbar_resource_observer(&mut self, kind: u64)
        ensures
            final(self).wired() == old(self).wired().push(
                KindRegistration { kind, mode: ObservationMode::Resource }),
    ;

    /// Wire `kind` with no observation: values are only what the host
    /// writes, but color policies and extraction still run.
    fn add_standalone_statbar(&mut self, kind: u64)
        ensures
            final(self).wired() == old(self).wired().push(
                KindRegistration { kind, mode: ObservationMode::Standalone }),
    ;
}

impl RegisterStatbarSubject for StatbarSchedule {
    open spec fn wired(&self) -> Seq<KindRegistration> {
        self.registrations@
    }

    fn add_statbar_component_observer(&mut self, kind: u64) {
        self.registrations.push(KindRegistration { kind, mode: ObservationMode::Component });
    }

    fn add_statbar_resource_observer(&mut self, kind: u64) {
        self.registrations.push(KindRegistration { kind, mode: ObservationMode::Resource });
    }

    fn add_standalone_statbar(&mut self, kind: u64) {
        self.registrations.push(KindRegistration { kind, mode: ObservationMode::Standalone });
    }
}

/// One bar after one registered kind's simulation systems ran: value
/// propagation according to the registration's mode, then the switch
/// policy, then the interpolation policy, then the frame's change marks
/// are retired.
pub open spec fn frame_step_entry(e: BarEntry, reg: KindRegistration, sources: Seq<SourceReading>, parents: Seq<ParentLink>, resources: Seq<ResourceReading>) -> BarEntry {
    let after_values = match reg.mode {
        ObservationMode::Component => parent_updated(
            entity_updated(self_updated(e, reg.kind, sources), reg.kind, sources),
            reg.kind, parents, sources),
        ObservationMode::Resource => match resource_for(resources, reg.kind) {
            Some(r) => resource_updated(e, reg.kind, r.value, r.changed),
            None => e,
        },
        ObservationMode::Standalone => e,
    };
    change_cleared(lerp_colored(switch_colored(after_values, reg.kind), reg.kind), reg.kind)
}

/// One bar after a whole simulation frame: the step of every registered
/// kind, in registration order.
pub open spec fn frame_entry(e: BarEntry, regs: Seq<KindRegistration>, sources: Seq<SourceReading>, parents: Seq<ParentLink>, resources: Seq<ResourceReading>) -> BarEntry
    decreases regs.len(),
{
    if regs.len() == 0 {
        e
    } else {
        frame_entry(frame_step_entry(e, regs[0], sources, parents, resources),
            regs.drop_first(), sources, parents, resources)
    }
}

/// Running one more registration steps the folded frame result once more.
pub proof fn lemma_frame_entry_snoc(e: BarEntry, regs: Seq<KindRegistration>, reg: KindRegistration, sources: Seq<SourceReading>, parents: Seq<ParentLink>, resources: Seq<ResourceReading>)
    ensures
        frame_entry(e, regs.push(reg), sources, parents, resources)
            == frame_step_entry(frame_entry(e, regs, sources, parents, resources), reg, sources, parents, resources),
    decreases regs.len(),
{
    if regs.len() == 0 {
        assert(regs.push(reg).drop_first() =~= Seq::<KindRegistration>::empty());
        assert(regs.push(reg)[0] == reg);
        assert(frame_entry(e, regs, sources, parents, resources) == e);
        assert(frame_entry(frame_step_entry(e, reg, sources, parents, resources),
            Seq::<KindRegistration>::empty(), sources, parents, resources)
            == frame_step_entry(e, reg, sources, parents, resources));
    } else {
        assert(regs.push(reg)[0] == regs[0]);
        assert(regs.push(reg).drop_first() =~= regs.drop_first().push(reg));
        lemma_frame_entry_snoc(frame_step_entry(e, regs[0], sources, parents, resources),
            regs.drop_first(), reg, sources, parents, resources);
    }
}

/// A reading found by `resource_for` among well-formed readings is itself
/// well-formed.
pub proof fn lemma_resource_for_wf(resources: Seq<ResourceReading>, kind: u64)
    requires
        forall|j: int| 0 <= j < resources.len() ==> (#[trigger] resources[j]).wf(),
    ensures
        resource_for(resources, kind) matches Some(r) ==> r.wf(),
    decreases resources.len(),
{
    if resources.len() != 0 {
        assert(forall|j: int| 0 <= j < resources.drop_first().len()
            ==> (#[trigger] resources.drop_first()[j]) == resources[j + 1]);
        lemma_resource_for_wf(resources.drop_first(), kind);
    }
}

/// Run one whole simulation frame: for every registered kind, in
/// registration order, propagate values according to its observation
/// mode, then recolor every changed bar, then retire the frame's change
/// marks. Side effects are confined to each bar's value, color, and
/// change mark.
pub fn run_frame(schedule: &StatbarSchedule, bars: &mut Vec<BarEntry>, sources: &Vec<SourceReading>, parents: &Vec<ParentLink>, resources: &Vec<ResourceReading>)
    requires
        forall|j: int| 0 <= j < sources@.len() ==> (#[trigger] sources@[j]).wf(),
        forall|j: int| 0 <= j < resources@.len() ==> (#[trigger] resources@[j]).wf(),
        forall|j: int| 0 <= j < old(bars)@.len() ==> (#[trigger] old(bars)@[j]).wf(),
    ensures
        final(bars)@.len() == old(bars)@.len(),
        forall|i: int| 0 <= i < old(bars)@.len()
            ==> final(bars)@[i] == frame_entry(old(bars)@[i], schedule.registrations@, sources@, parents@, resources@),
        forall|i: int| 0 <= i < old(bars)@.len() ==> (#[trigger] final(bars)@[i]).wf(),
{
    let m = schedule.registrations.len();
    let mut r: usize = 0;
    proof {
        assert(schedule.registrations@.take(0) =~= Seq::<KindRegistration>::empty());
    }
    while r < m
        invariant
            0 <= r <= m,
            m == schedule.registrations@.len(),
            bars@.len() == old(bars)@.len(),
            forall|j: int| 0 <= j < sources@.len() ==> (#[trigger] sources@[j]).wf(),
            forall|j: int| 0 <= j < resources@.len() ==> (#[trigger] resources@[j]).wf(),
            forall|i: int| 0 <= i < old(bars)@.len()
                ==> bars@[i] == frame_entry(old(bars)@[i], schedule.registrations@.take(r as int), sources@, parents@, resources@),
            forall|i: int| 0 <= i < bars@.len() ==> (#[trigger] bars@[i]).wf(),
        decreases m - r,
    {
        let reg = schedule.registrations[r];
        let ghost before = bars@;
        match reg.mode {
            ObservationMode::Component => {
                update_statbar_values(bars, reg.kind, sources);
                update_statbar_values_from_other(bars, reg.kind, sources);
                update_statbar_values_from_parents(bars, reg.kind, parents, sources);
            }
            ObservationMode::Resource => {
                match find_resource(resources, reg.kind) {
                    Some(reading) => {
                        proof {
                            lemma_resource_for_wf(resources@, reg.kind);
                        }
                        update_statbar_from_resource(bars, reg.kind, reading.value, reading.changed);
                    }
                    None => {}
                }
            }
            ObservationMode::Standalone => {}
        }
        switch_stat_bar_colors(bars, reg.kind);
        lerp_stat_bar_colors(bars, reg.kind);
        clear_change_marks(bars, reg.kind);
        proof {
            assert forall|i: int| 0 <= i < before.len()
                implies bars@[i] == frame_step_entry(before[i], reg, sources@, parents@, resources@) by {
            }
            assert forall|i: int| 0 <= i < old(bars)@.len()
                implies bars@[i] == frame_entry(old(bars)@[i], schedule.registrations@.take(r as int + 1), sources@, parents@, resources@) by {
                lemma_frame_entry_snoc(old(bars)@[i], schedule.registrations@.take(r as int), reg, sources@, parents@, resources@);
                assert(schedule.registrations@.take(r as int + 1)
                    =~= schedule.registrations@.take(r as int).push(reg));
            }
        }
        r += 1;
    }
    proof {
        assert(schedule.registrations@.take(m as int) =~= schedule.registrations@);
    }
}

/// All draw records of one render frame: one extraction pass per
/// registered kind, in registration order.
pub open spec fn schedule_records(regs: Seq<KindRegistration>, bars: Seq<BarEntry>, views: Seq<EntityView>, z: i64) -> Seq<DrawRecord>
    decreases regs.len(),
{
    if regs.len() == 0 {
        Seq::empty()
    } else {
        kind_records(bars, regs[0].kind, views, z)
            + schedule_records(regs.drop_first(), bars, views, z)
    }
}

/// Extracting one more registered kind appends that kind's records.
pub proof fn lemma_schedule_records_snoc(regs: Seq<KindRegistration>, reg: KindRegistration, bars: Seq<BarEntry>, views: Seq<EntityView>, z: i64)
    ensures
        schedule_records(regs.push(reg), bars, views, z)
            == schedule_records(regs, bars, views, z) + kind_records(bars, reg.kind, views, z),
    decreases regs.len(),
{
    if regs.len() == 0 {
        assert(regs.push(reg).drop_first() =~= Seq::<KindRegistration>::empty());
        assert(regs.push(reg)[0] == reg);
        assert(schedule_records(Seq::<KindRegistration>::empty(), bars, views, z)
            == Seq::<DrawRecord>::empty());
        assert(schedule_records(regs.push(reg), bars, views, z)
            == kind_records(bars, reg.kind, views, z) + Seq::<DrawRecord>::empty());
        assert(schedule_records(regs.push(reg), bars, views, z)
            =~= schedule_records(regs, bars, views, z) + kind_records(bars, reg.kind, views, z));
    } else {
        assert(regs.push(reg)[0] == regs[0]);
        assert(regs.push(reg).drop_first() =~= regs.drop_first().push(reg));
        lemma_schedule_records_snoc(regs.drop_first(), reg, bars, views, z);
        assert(schedule_records(regs.push(reg), bars, views, z)
            =~= schedule_records(regs, bars, views, z) + kind_records(bars, reg.kind, views, z));
    }
}

/// Run one whole render frame: extract the draw records of every
/// registered kind, in registration order, fully regenerated from the
/// current store. Reads everything, writes nothing back.
pub fn run_extraction(schedule: &StatbarSchedule, bars: &Vec<BarEntry>, views: &Vec<EntityView>, depth: Option<StatbarDepth>) -> (out: Vec<DrawRecord>)
    requires
        forall|j: int| 0 <= j < bars@.len() ==> (#[trigger] bars@[j]).wf(),
        forall|j: int| 0 <= j < views@.len() ==> (#[trigger] views@[j]).wf(),
        -SCALAR_LIMIT <= depth_base(depth) <= SCALAR_LIMIT,
    ensures
        out@ == schedule_records(schedule.registrations@, bars@, views@, depth_base(depth)),
{
    let mut out: Vec<DrawRecord> = Vec::new();
    let m = schedule.registrations.len();
    let mut r: usize = 0;
    proof {
        assert(schedule.registrations@.take(0) =~= Seq::<KindRegistration>::empty());
    }
    while r < m
        invariant
            0 <= r <= m,
            m == schedule.registrations@.len(),
            forall|j: int| 0 <= j < bars@.len() ==> (#[trigger] bars@[j]).wf(),
            forall|j: int| 0 <= j < views@.len() ==> (#[trigger] views@[j]).wf(),
            -SCALAR_LIMIT <= depth_base(depth) <= SCALAR_LIMIT,
            out@ == schedule_records(schedule.registrations@.take(r as int), bars@, views@, depth_base(depth)),
        decreases m - r,
    {
        let reg = schedule.registrations[r];
        let mut part = extract_stat_bars(bars, reg.kind, views, depth);
        out.append(&mut part);
        proof {
            lemma_schedule_records_snoc(schedule.registrations@.take(r as int), reg, bars@, views@, depth_base(depth));
            assert(schedule.registrations@.take(r as int + 1)
                =~= schedule.registrations@.take(r as int).push(reg));
        }
        r += 1;
    }
    proof {
        assert(schedule.registrations@.take(m as int) =~= schedule.registrations@);
    }
    out
}

} // verus!
