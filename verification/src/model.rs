//! The bar descriptor and its decorations.
//!
//! A `Statbar` describes one bar attached to one entity: geometry, colors,
//! orientation, and the current normalized value. Decorations attach a
//! border or a color policy to the same bar. All scalars are fixed-point
//! integers over `VALUE_SCALE`; positions and lengths are in whatever world
//! unit the host uses, bounded by `SCALAR_LIMIT` so that draw geometry
//! never overflows.

use vstd::prelude::*;
use crate::color::{Rgba, SCALAR_LIMIT};

verus! {

/// Set as a global resource to override the base draw-order depth of all
/// bars.
#[derive(Clone, Copy, Debug, PartialEq, Eq)]
pub struct StatbarDepth(pub i64);

/// Capability of a data source to expose a normalized scalar: `VALUE_SCALE`
/// means full, 0 means empty. A value outside that range is allowed; it is
/// stored raw and clamped only when draw geometry is computed. The bound is
/// forced by machine arithmetic in the draw-geometry products.
pub trait StatbarObservable {
    fn get_statbar_value(&self) -> (v: i64)
        ensures
            -SCALAR_LIMIT <= v <= SCALAR_LIMIT,
    ;
}

/// Attach to observe the observable source on another entity.
///
/// Overrides a co-located observable source.
/// Overridden by `StatbarObserveParent`.
#[derive(Clone, Copy, Debug, PartialEq, Eq)]
pub struct StatbarObserveEntity(pub u64);

/// Attach to observe the observable source on the entity's parent.
/// Overrides a co-located observable source and `StatbarObserveEntity`.
#[derive(Clone, Copy, Debug, PartialEq, Eq)]
pub struct StatbarObserveParent;

/// Marker for a bar kind whose value comes from a global observable
/// resource rather than from a component.
#[derive(Clone, Copy, Debug, PartialEq, Eq)]
pub struct StatbarObserveResource;

impl Default for StatbarObserveResource {
    fn default() -> (r: Self)
        ensures
            r == StatbarObserveResource,
    {
        StatbarObserveResource
    }
}

/// One stat bar attached to one entity. An entity may carry several bars,
/// distinguished by the kind key of the entry holding the descriptor.
#[derive(Clone, Copy, Debug, PartialEq)]
pub struct Statbar {
    /// color of the full part of the bar
    pub color: Rgba,
    /// color of the empty part of the bar
    pub empty_color: Rgba,
    /// length of the bar (major axis extent)
    pub length: i64,
    /// thickness of the bar (minor axis extent)
    pub thickness: i64,
    /// displacement from the world position, x part; a flat offset, never
    /// rotated or scaled by the transform
    pub displacement_x: i64,
    /// displacement from the world position, y part
    pub displacement_y: i64,
    /// false => horizontally orientated bar,
    /// true => vertically orientated bar
    pub vertical: bool,
    /// direction of fill growth along the major axis:
    /// false => fill grows from the start of the axis,
    /// true => fill grows from the opposite end
    pub reverse: bool,
    /// if true, do not draw
    pub hide: bool,
    /// value of the bar:
    /// * 0 => bar entirely in the empty color
    /// * `3 * VALUE_SCALE / 4` => three quarters full color
    /// * `VALUE_SCALE` => bar entirely in the full color
    pub value: i64,
}

impl Statbar {
    /// Machine bounds on the descriptor scalars: every draw-geometry
    /// product then fits in `i64`. Positive length and thickness are the
    /// caller's responsibility and are not enforced here; geometry is
    /// degenerate without them.
    pub open spec fn wf(self) -> bool {
        &&& self.color.wf()
        &&& self.empty_color.wf()
        &&& -SCALAR_LIMIT <= self.length <= SCALAR_LIMIT
        &&& -SCALAR_LIMIT <= self.thickness <= SCALAR_LIMIT
        &&& -SCALAR_LIMIT <= self.displacement_x <= SCALAR_LIMIT
        &&& -SCALAR_LIMIT <= self.displacement_y <= SCALAR_LIMIT
        &&& -SCALAR_LIMIT <= self.value <= SCALAR_LIMIT
    }
}

impl Default for Statbar {
    /// A yellow bar, three quarters full, over a dark yellow-tinted track.
    fn default() -> (r: Self)
        ensures
            r == spec_default_statbar(),
            r.wf(),
    {
        Statbar {
            color: Rgba { red: 255, green: 255, blue: 0, alpha: 255, den: 255 },
            empty_color: Rgba { red: 200, green: 200, blue: 0, alpha: 1000, den: 1000 },
            length: 100,
            thickness: 16,
            displacement_x: 0,
            displacement_y: 0,
            vertical: false,
            reverse: false,
            hide: false,
            value: 750,
        }
    }
}

/// The default bar descriptor.
pub open spec fn spec_default_statbar() -> Statbar {
    Statbar {
        color: Rgba { red: 255, green: 255, blue: 0, alpha: 255, den: 255 },
        empty_color: Rgba { red: 200, green: 200, blue: 0, alpha: 1000, den: 1000 },
        length: 100,
        thickness: 16,
        displacement_x: 0,
        displacement_y: 0,
        vertical: false,
        reverse: false,
        hide: false,
        value: 750,
    }
}

/// Adds a border around the corresponding bar: purely additive geometry,
/// no effect on value or color logic.
#[derive(Clone, Copy, Debug, PartialEq)]
pub struct StatbarBorder {
    /// color of the border
    pub color: Rgba,
    /// thickness of the border on the left
    pub left: i64,
    /// thickness of the border on the right
    pub right: i64,
    /// thickness of the border on the bottom
    pub bottom: i64,
    /// thickness of the border on the top
    pub top: i64,
}

impl StatbarBorder {
    /// Machine bounds on the edge thicknesses.
    pub open spec fn wf(self) -> bool {
        &&& self.color.wf()
        &&& -SCALAR_LIMIT <= self.left <= SCALAR_LIMIT
        &&& -SCALAR_LIMIT <= self.right <= SCALAR_LIMIT
        &&& -SCALAR_LIMIT <= self.bottom <= SCALAR_LIMIT
        &&& -SCALAR_LIMIT <= self.top <= SCALAR_LIMIT
    }

    /// A border with the same thickness on all four sides.
    pub fn all(color: Rgba, thickness: i64) -> (r: Self)
        ensures
            r == (StatbarBorder {
                color,
                left: thickness,
                right: thickness,
                bottom: thickness,
                top: thickness,
            }),
    {
        StatbarBorder { color, left: thickness, right: thickness, bottom: thickness, top: thickness }
    }
}

impl Default for StatbarBorder {
    /// A white border, two units thick on every side.
    fn default() -> (r: Self)
        ensures
            r == (StatbarBorder {
                color: Rgba { red: 255, green: 255, blue: 255, alpha: 255, den: 255 },
                left: 2,
                right: 2,
                bottom: 2,
                top: 2,
            }),
            r.wf(),
    {
        Self::all(Rgba { red: 255, green: 255, blue: 255, alpha: 255, den: 255 }, 2)
    }
}

/// Linearly interpolate the bar's fill color between `min` and `max` using
/// the bar's value:
/// * value == 0 => color == `min`
/// * value == `VALUE_SCALE` => color == `max`
#[derive(Clone, Copy, Debug, PartialEq)]
pub struct StatbarColorLerp {
    /// bar color when the value is 0
    pub min: Rgba,
    /// bar color when the value is `VALUE_SCALE`
    pub max: Rgba,
}

impl StatbarColorLerp {
    /// Narrow bounds on the endpoint colors, so interpolation never
    /// overflows.
    pub open spec fn wf(self) -> bool {
        &&& self.min.narrow()
        &&& self.max.narrow()
    }

    pub fn new(min: Rgba, max: Rgba) -> (r: Self)
        ensures
            r == (StatbarColorLerp { min, max }),
    {
        StatbarColorLerp { min, max }
    }
}

impl Default for StatbarColorLerp {
    /// Red when empty, green when full.
    fn default() -> (r: Self)
        ensures
            r == (StatbarColorLerp {
                min: Rgba { red: 255, green: 0, blue: 0, alpha: 255, den: 255 },
                max: Rgba { red: 0, green: 128, blue: 0, alpha: 255, den: 255 },
            }),
            r.wf(),
    {
        StatbarColorLerp {
            min: Rgba { red: 255, green: 0, blue: 0, alpha: 255, den: 255 },
            max: Rgba { red: 0, green: 128, blue: 0, alpha: 255, den: 255 },
        }
    }
}

/// Switch the bar's fill color depending on the bar's value: at or below
/// the pivot the bar shows `low`, above it `high`. Useful for a health bar
/// that turns red when little health remains.
#[derive(Clone, Copy, Debug, PartialEq)]
pub struct StatbarColorSwitch {
    /// * `value <= pivot` => sets the bar's color to `low`
    /// * `pivot < value` => sets the bar's color to `high`
    pub pivot: i64,
    /// bar color when the value is less than or equal to the pivot
    pub low: Rgba,
    /// bar color when the value is greater than the pivot
    pub high: Rgba,
}

impl StatbarColorSwitch {
    /// Narrow bounds on the two colors and a machine bound on the pivot.
    pub open spec fn wf(self) -> bool {
        &&& -SCALAR_LIMIT <= self.pivot <= SCALAR_LIMIT
        &&& self.low.narrow()
        &&& self.high.narrow()
    }

    pub fn new(pivot: i64, low: Rgba, high: Rgba) -> (r: Self)
        ensures
            r == (StatbarColorSwitch { pivot, low, high }),
    {
        StatbarColorSwitch { pivot, low, high }
    }
}

impl Default for StatbarColorSwitch {
    /// Red at or below one quarter, green above it.
    fn default() -> (r: Self)
        ensures
            r == (StatbarColorSwitch {
                pivot: 250,
                low: Rgba { red: 255, green: 0, blue: 0, alpha: 255, den: 255 },
                high: Rgba { red: 0, green: 128, blue: 0, alpha: 255, den: 255 },
            }),
            r.wf(),
    {
        StatbarColorSwitch {
            pivot: 250,
            low: Rgba { red: 255, green: 0, blue: 0, alpha: 255, den: 255 },
            high: Rgba { red: 0, green: 128, blue: 0, alpha: 255, den: 255 },
        }
    }
}

} // verus!
