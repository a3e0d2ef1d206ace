//! Stat bar overlays for entities in a scene graph: per-entity bar
//! descriptors hold a normalized value, pluggable color policies derive the
//! fill color from that value, and an extraction pass turns each visible bar
//! into two or three colored rectangle draw records.
//!
//! All scalars are exact fixed-point integers: a bar value of
//! `VALUE_SCALE` means "full", and draw records are emitted in fine units of
//! `1 / (2 * VALUE_SCALE)` of a world unit, so fill sizes and anchor offsets
//! are exact.

mod color;
mod extraction;
mod laws;
mod model;
mod schedule;
mod stages;
mod store;

pub use model::Statbar;
pub use model::StatbarBorder;
pub use model::StatbarColorLerp;
pub use model::StatbarColorSwitch;
pub use model::StatbarDepth;
pub use model::StatbarObservable;
pub use model::StatbarObserveEntity;
pub use model::StatbarObserveParent;
pub use model::StatbarObserveResource;
pub use model::spec_default_statbar;

pub use laws::lemma_emission_conditions;
pub use laws::lemma_fill_size_exact;
pub use laws::lemma_hidden_emits_nothing;
pub use laws::lemma_lerp_endpoints_and_midpoint;
pub use laws::lemma_parent_overrides_entity;
pub use laws::lemma_resource_fanout;
pub use laws::lemma_reverse_flips_anchor;
pub use laws::lemma_switch_policy;
pub use laws::major_extent;

pub use extraction::DrawRecord;
pub use extraction::DEFAULT_Z_DEPTH;
pub use extraction::base_x;
pub use extraction::base_y;
pub use extraction::border_record;
pub use extraction::clamped_value;
pub use extraction::depth_base;
pub use extraction::entry_part;
pub use extraction::entry_records;
pub use extraction::extract_stat_bars;
pub use extraction::fill_offset;
pub use extraction::fill_record;
pub use extraction::kind_records;
pub use extraction::lemma_kind_records_snoc;
pub use extraction::lemma_view_for_wf;
pub use extraction::size_x;
pub use extraction::size_y;
pub use extraction::track_record;

pub use schedule::KindRegistration;
pub use schedule::ObservationMode;
pub use schedule::RegisterStatbarSubject;
pub use schedule::StatbarSchedule;
pub use schedule::StatbarSystem;
pub use schedule::frame_entry;
pub use schedule::frame_step_entry;
pub use schedule::lemma_frame_entry_snoc;
pub use schedule::lemma_resource_for_wf;
pub use schedule::lemma_schedule_records_snoc;
pub use schedule::run_extraction;
pub use schedule::run_frame;
pub use schedule::schedule_records;

pub use stages::change_cleared;
pub use stages::clear_change_marks;
pub use stages::entity_updated;
pub use stages::lemma_source_for_wf;
pub use stages::lerp_colored;
pub use stages::lerp_stat_bar_colors;
pub use stages::parent_updated;
pub use stages::resource_updated;
pub use stages::self_updated;
pub use stages::switch_colored;
pub use stages::switch_stat_bar_colors;
pub use stages::update_statbar_from_resource;
pub use stages::update_statbar_values;
pub use stages::update_statbar_values_from_other;
pub use stages::update_statbar_values_from_parents;

pub use store::BarEntry;
pub use store::EntityView;
pub use store::ParentLink;
pub use store::ResourceReading;
pub use store::SourceReading;
pub use store::find_parent;
pub use store::find_resource;
pub use store::find_source;
pub use store::find_view;
pub use store::parent_for;
pub use store::resource_for;
pub use store::source_for;
pub use store::view_for;

pub use color::Rgba;
pub use color::lemma_mul3_bound;
pub use color::lemma_mul_bound;
pub use color::lemma_spec_mix_wf;
pub use color::mix_channel;
pub use color::spec_mix;
pub use color::CHANNEL_LIMIT;
pub use color::CHANNEL_WIDE_LIMIT;
pub use color::DEN_LIMIT;
pub use color::DEN_WIDE_LIMIT;
pub use color::VALUE_SCALE;
pub use color::SCALAR_LIMIT;
