//! The keyed bar store and the per-frame snapshots of host data.
//!
//! The host scene graph owns entity lifecycle; this library only keeps one
//! entry per (entity, kind) pair, holding the bar descriptor and whatever
//! decorations and observation markers are attached to it. Each frame the
//! host hands the stages plain-value snapshots of its data: observable
//! component readings, parent links, observable resource readings, and, for
//! extraction, world positions with visibility.

use vstd::prelude::*;
use crate::color::SCALAR_LIMIT;
use crate::model::{Statbar, StatbarBorder, StatbarColorLerp, StatbarColorSwitch,
    StatbarObservable, StatbarObserveEntity, StatbarObserveParent};

verus! {

/// One bar attached to one entity: the descriptor, its decorations, its
/// observation markers, and the change mark of the descriptor itself.
#[derive(Clone, Copy, Debug)]
pub struct BarEntry {
    /// the entity the bar is attached to
    pub entity: u64,
    /// the bar kind: one entity may carry several bars of distinct kinds
    pub kind: u64,
    /// the bar descriptor
    pub bar: Statbar,
    /// optional border decoration
    pub border: Option<StatbarBorder>,
    /// optional color interpolation policy
    pub color_lerp: Option<StatbarColorLerp>,
    /// optional color switch policy
    pub color_switch: Option<StatbarColorSwitch>,
    /// observe the parent entity's source instead of a co-located one
    pub observe_parent: Option<StatbarObserveParent>,
    /// observe a named other entity's source instead of a co-located one
    pub observe_entity: Option<StatbarObserveEntity>,
    /// whether the descriptor was written this frame (by a propagation
    /// stage, or directly by the host); gates the color policy stage
    pub bar_changed: bool,
}

impl BarEntry {
    /// Machine bounds on everything the stages read from this entry.
    pub open spec fn wf(self) -> bool {
        &&& self.bar.wf()
        &&& (self.border matches Some(b) ==> b.wf())
        &&& (self.color_lerp matches Some(l) ==> l.wf())
        &&& (self.color_switch matches Some(s) ==> s.wf())
    }
}

/// The value read this frame from an observable component on one entity,
/// with its change mark.
#[derive(Clone, Copy, Debug)]
pub struct SourceReading {
    /// the entity carrying the observable component
    pub entity: u64,
    /// the bar kind the component feeds
    pub kind: u64,
    /// the component's normalized value
    pub value: i64,
    /// whether the component changed since the stage last ran
    pub changed: bool,
}

impl SourceReading {
    /// The value bound every reading carries, forced by machine arithmetic
    /// downstream.
    pub open spec fn wf(self) -> bool {
        -SCALAR_LIMIT <= self.value <= SCALAR_LIMIT
    }

    /// Read one observable source into a snapshot for this frame.
    pub fn read<T: StatbarObservable>(entity: u64, kind: u64, source: &T, changed: bool) -> (r: SourceReading)
        ensures
            r.entity == entity,
            r.kind == kind,
            r.changed == changed,
            r.wf(),
    {
        SourceReading { entity, kind, value: source.get_statbar_value(), changed }
    }
}

/// The value read this frame from a global observable resource bound to
/// one bar kind, with its change mark.
#[derive(Clone, Copy, Debug)]
pub struct ResourceReading {
    /// the bar kind the resource feeds
    pub kind: u64,
    /// the resource's normalized value
    pub value: i64,
    /// whether the resource changed since the stage last ran
    pub changed: bool,
}

impl ResourceReading {
    /// The value bound every reading carries.
    pub open spec fn wf(self) -> bool {
        -SCALAR_LIMIT <= self.value <= SCALAR_LIMIT
    }
}

/// One edge of the host's transform hierarchy: `child`'s parent is
/// `parent`.
#[derive(Clone, Copy, Debug)]
pub struct ParentLink {
    pub child: u64,
    pub parent: u64,
}

/// One entity's resolved world position (translation only) and inherited
/// visibility, as extraction reads them.
#[derive(Clone, Copy, Debug)]
pub struct EntityView {
    /// the entity
    pub entity: u64,
    /// world-space x position
    pub x: i64,
    /// world-space y position
    pub y: i64,
    /// whether the entity is currently visible
    pub visible: bool,
}

impl EntityView {
    /// Machine bounds on the position.
    pub open spec fn wf(self) -> bool {
        &&& -SCALAR_LIMIT <= self.x <= SCALAR_LIMIT
        &&& -SCALAR_LIMIT <= self.y <= SCALAR_LIMIT
    }
}

/// The first reading for (`entity`, `kind`), if any.
pub open spec fn source_for(sources: Seq<SourceReading>, entity: u64, kind: u64) -> Option<SourceReading>
    decreases sources.len(),
{
    if sources.len() == 0 {
        None
    } else if sources[0].entity == entity && sources[0].kind == kind {
        Some(sources[0])
    } else {
        source_for(sources.drop_first(), entity, kind)
    }
}

/// The first parent link for `child`, if any.
pub open spec fn parent_for(parents: Seq<ParentLink>, child: u64) -> Option<u64>
    decreases parents.len(),
{
    if parents.len() == 0 {
        None
    } else if parents[0].child == child {
        Some(parents[0].parent)
    } else {
        parent_for(parents.drop_first(), child)
    }
}

/// The first reading for `kind`, if any.
pub open spec fn resource_for(resources: Seq<ResourceReading>, kind: u64) -> Option<ResourceReading>
    decreases resources.len(),
{
    if resources.len() == 0 {
        None
    } else if resources[0].kind == kind {
        Some(resources[0])
    } else {
        resource_for(resources.drop_first(), kind)
    }
}

/// The first view of `entity`, if any.
pub open spec fn view_for(views: Seq<EntityView>, entity: u64) -> Option<EntityView>
    decreases views.len(),
{
    if views.len() == 0 {
        None
    } else if views[0].entity == entity {
        Some(views[0])
    } else {
        view_for(views.drop_first(), entity)
    }
}

/// Find the first reading for (`entity`, `kind`).
pub fn find_source(sources: &Vec<SourceReading>, entity: u64, kind: u64) -> (r: Option<SourceReading>)
    ensures
        r == source_for(sources@, entity, kind),
{
    let n = sources.len();
    proof {
        assert(sources@.skip(0) =~= sources@);
    }
    let mut i: usize = 0;
    while i < n
        invariant
            0 <= i <= n,
            n == sources@.len(),
            source_for(sources@, entity, kind) == source_for(sources@.skip(i as int), entity, kind),
            forall|j: int| 0 <= j < i ==> !(sources@[j].entity == entity && sources@[j].kind == kind),
        decreases n - i,
    {
        proof {
            assert(sources@.skip(i as int)[0] == sources@[i as int]);
            assert(sources@.skip(i as int).drop_first() =~= sources@.skip(i as int + 1));
        }
        if sources[i].entity == entity && sources[i].kind == kind {
            return Some(sources[i]);
        }
        i += 1;
    }
    proof {
        assert(sources@.skip(n as int) =~= Seq::<SourceReading>::empty());
    }
    None
}

/// Find the first parent link for `child`.
pub fn find_parent(parents: &Vec<ParentLink>, child: u64) -> (r: Option<u64>)
    ensures
        r == parent_for(parents@, child),
{
    let n = parents.len();
    proof {
        assert(parents@.skip(0) =~= parents@);
    }
    let mut i: usize = 0;
    while i < n
        invariant
            0 <= i <= n,
            n == parents@.len(),
            parent_for(parents@, child) == parent_for(parents@.skip(i as int), child),
        decreases n - i,
    {
        proof {
            assert(parents@.skip(i as int)[0] == parents@[i as int]);
            assert(parents@.skip(i as int).drop_first() =~= parents@.skip(i as int + 1));
        }
        if parents[i].child == child {
            return Some(parents[i].parent);
        }
        i += 1;
    }
    proof {
        assert(parents@.skip(n as int) =~= Seq::<ParentLink>::empty());
    }
    None
}

/// Find the first resource reading for `kind`.
pub fn find_resource(resources: &Vec<ResourceReading>, kind: u64) -> (r: Option<ResourceReading>)
    ensures
        r == resource_for(resources@, kind),
{
    let n = resources.len();
    proof {
        assert(resources@.skip(0) =~= resources@);
    }
    let mut i: usize = 0;
    while i < n
        invariant
            0 <= i <= n,
            n == resources@.len(),
            resource_for(resources@, kind) == resource_for(resources@.skip(i as int), kind),
        decreases n - i,
    {
        proof {
            assert(resources@.skip(i as int)[0] == resources@[i as int]);
            assert(resources@.skip(i as int).drop_first() =~= resources@.skip(i as int + 1));
        }
        if resources[i].kind == kind {
            return Some(resources[i]);
        }
        i += 1;
    }
    proof {
        assert(resources@.skip(n as int) =~= Seq::<ResourceReading>::empty());
    }
    None
}

/// Find the first view of `entity`.
pub fn find_view(views: &Vec<EntityView>, entity: u64) -> (r: Option<EntityView>)
    ensures
        r == view_for(views@, entity),
{
    let n = views.len();
    proof {
        assert(views@.skip(0) =~= views@);
    }
    let mut i: usize = 0;
    while i < n
        invariant
            0 <= i <= n,
            n == views@.len(),
            view_for(views@, entity) == view_for(views@.skip(i as int), entity),
        decreases n - i,
    {
        proof {
            assert(views@.skip(i as int)[0] == views@[i as int]);
            assert(views@.skip(i as int).drop_first() =~= views@.skip(i as int + 1));
        }
        if views[i].entity == entity {
            return Some(views[i]);
        }
        i += 1;
    }
    proof {
        assert(views@.skip(n as int) =~= Seq::<EntityView>::empty());
    }
    None
}

} // verus!
