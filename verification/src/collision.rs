//! Axis-aligned boxes on an integer grid of sub-units.
//!
//! World coordinates are whole numbers of sub-units, with `SUBUNITS_PER_UNIT`
//! of them to one world unit, so that every quantity of the simulation
//! (a tenth of a unit of gravity, half a unit of sensor extent) is exact.

use vstd::prelude::*;

verus! {

/// Sub-units in one world unit.
pub const SUBUNITS_PER_UNIT: i64 = 10;

/// A point or a displacement in the plane, in sub-units.
#[derive(Clone, Copy, Debug, PartialEq, Eq, Structural)]
pub struct Vector2 {
    pub x: i64,
    pub y: i64,
}

/// The value in the range of `i64` that is nearest to `v`.
pub open spec fn clamp(v: int) -> i64 {
    if v < i64::MIN {
        i64::MIN
    } else if v > i64::MAX {
        i64::MAX
    } else {
        v as i64
    }
}

/// Adds two coordinates; a sum outside the range of `i64` stops at the
/// nearest end of the range.
pub fn saturating_sum(a: i64, b: i64) -> (sum: i64)
    ensures
        sum == clamp(a + b),
{
    match a.checked_add(b) {
        Some(sum) => sum,
        None => if a < 0 {
            i64::MIN
        } else {
            i64::MAX
        },
    }
}

impl Vector2 {
    /// The point reached from `self` by the displacement `by`, each
    /// coordinate saturating on its own.
    pub open spec fn offset(self, by: Vector2) -> Vector2 {
        Vector2 { x: clamp(self.x + by.x), y: clamp(self.y + by.y) }
    }

    pub fn new(x: i64, y: i64) -> (v: Vector2)
        ensures
            v == (Vector2 { x, y }),
    {
        Vector2 { x, y }
    }

    /// Exec counterpart of [`Vector2::offset`].
    pub fn moved_by(&self, by: Vector2) -> (moved: Vector2)
        ensures
            moved == self.offset(by),
    {
        Vector2 { x: saturating_sum(self.x, by.x), y: saturating_sum(self.y, by.y) }
    }
}

/// A closed axis-aligned box. Its edges are measured in half sub-units, so
/// that a box of odd extent centred on a whole position has exact edges.
#[derive(Clone, Copy, Debug, PartialEq, Eq, Structural)]
pub struct Aabb {
    pub min_x: i128,
    pub min_y: i128,
    pub max_x: i128,
    pub max_y: i128,
}

impl Aabb {
    /// Two boxes intersect when they share at least one point; boxes that
    /// only touch along an edge or at a corner do intersect.
    pub open spec fn overlaps(self, other: Aabb) -> bool {
        &&& self.min_x <= other.max_x
        &&& self.max_x >= other.min_x
        &&& self.min_y <= other.max_y
        &&& self.max_y >= other.min_y
    }

    pub fn intersects(&self, other: &Aabb) -> (hit: bool)
        ensures
            hit == self.overlaps(*other),
    {
        let x_overlaps = self.min_x <= other.max_x && self.max_x >= other.min_x;
        let y_overlaps = self.min_y <= other.max_y && self.max_y >= other.min_y;
        x_overlaps && y_overlaps
    }
}

/// The collision shape of an entity: a box of the given full extents,
/// centred on the position of whoever owns it.
#[derive(Clone, Copy, Debug, PartialEq, Eq, Structural)]
pub struct Collider {
    /// Full horizontal extent, in sub-units.
    pub width: u32,
    /// Full vertical extent, in sub-units.
    pub height: u32,
    /// Set of layers the collider lives on, one bit each.
    pub layer_mask: u8,
    /// A trigger reports overlap and never blocks motion.
    pub is_trigger: bool,
}

impl Collider {
    /// A collider that blocks has positive extents. A trigger may be as
    /// small as a point.
    pub open spec fn wf(self) -> bool {
        self.is_trigger || (self.width > 0 && self.height > 0)
    }

    /// The box that the collider covers when its owner stands at `center`.
    pub open spec fn aabb(self, center: Vector2) -> Aabb {
        Aabb {
            min_x: (2 * center.x - self.width) as i128,
            min_y: (2 * center.y - self.height) as i128,
            max_x: (2 * center.x + self.width) as i128,
            max_y: (2 * center.y + self.height) as i128,
        }
    }

    /// Two colliders interact when their masks have a layer in common.
    pub open spec fn shares_layer(self, other: Collider) -> bool {
        self.layer_mask & other.layer_mask != 0
    }

    /// `other` stops the motion of `self`: they share a layer and `other`
    /// is no trigger.
    pub open spec fn blocked_by(self, other: Collider) -> bool {
        self.shares_layer(other) && !other.is_trigger
    }

    pub fn new(width: u32, height: u32, layer_mask: u8, is_trigger: bool) -> (c: Collider)
        ensures
            c == (Collider { width, height, layer_mask, is_trigger }),
    {
        Collider { width, height, layer_mask, is_trigger }
    }

    pub fn get_aabb2d(&self, center: Vector2) -> (bounds: Aabb)
        ensures
            bounds == self.aabb(center),
    {
        let cx: i128 = 2 * (center.x as i128);
        let cy: i128 = 2 * (center.y as i128);
        let w: i128 = self.width as i128;
        let h: i128 = self.height as i128;
        Aabb { min_x: cx - w, min_y: cy - h, max_x: cx + w, max_y: cy + h }
    }

    pub fn is_valid(&self) -> (valid: bool)
        ensures
            valid == self.wf(),
    {
        self.is_trigger || (self.width > 0 && self.height > 0)
    }

    pub fn interacts_with(&self, other: &Collider) -> (shared: bool)
        ensures
            shared == self.shares_layer(*other),
    {
        self.layer_mask & other.layer_mask != 0
    }

    pub fn is_blocked_by(&self, other: &Collider) -> (blocked: bool)
        ensures
            blocked == self.blocked_by(*other),
    {
        self.interacts_with(other) && !other.is_trigger
    }
}

/// A collider together with the position of its owner.
#[derive(Clone, Copy, Debug, PartialEq, Eq, Structural)]
pub struct Body {
    pub position: Vector2,
    pub collider: Collider,
}

impl Body {
    /// The box that the body covers.
    pub open spec fn bounds(self) -> Aabb {
        self.collider.aabb(self.position)
    }

    pub fn new(position: Vector2, collider: Collider) -> (b: Body)
        ensures
            b == (Body { position, collider }),
    {
        Body { position, collider }
    }

    pub fn bounding_box(&self) -> (bounds: Aabb)
        ensures
            bounds == self.bounds(),
    {
        self.collider.get_aabb2d(self.position)
    }
}

} // verus!
