use vstd::prelude::*;

use crate::utils::{EntityId, SCREEN_HEIGHT, SCREEN_WIDTH};

verus! {

/// An axis-aligned rectangle in whole pixels.
#[derive(Clone, Copy, PartialEq, Eq, Debug, Structural)]
pub struct Boundary {
    pub min_x: i32,
    pub min_y: i32,
    pub max_x: i32,
    pub max_y: i32,
}

/// The rectangle that keeps the bodies in.
#[derive(Clone, Copy, PartialEq, Eq, Debug, Structural)]
pub struct PhysicConfig {
    pub boundary: Boundary,
}

/// A circle of `radius` pixels whose center lies `radius` pixels right of and
/// below its object's position.
#[derive(Clone, Copy, PartialEq, Eq, Debug, Structural)]
pub struct CircleCollider {
    pub radius: u8,
}

/// Two bodies found overlapping in one scan.
#[derive(Clone, Copy, PartialEq, Eq, Debug, Structural)]
pub struct Collision {
    pub entity1: EntityId,
    pub entity2: EntityId,
}

pub open spec fn spec_screen_boundary() -> Boundary {
    Boundary { min_x: 0, min_y: 0, max_x: SCREEN_WIDTH, max_y: SCREEN_HEIGHT }
}

impl Default for PhysicConfig {
    fn default() -> (r: PhysicConfig)
        ensures
            r.boundary == (Boundary { min_x: 0, min_y: 0, max_x: 0, max_y: 0 }),
    {
        PhysicConfig { boundary: Boundary { min_x: 0, min_y: 0, max_x: 0, max_y: 0 } }
    }
}

impl PhysicConfig {
    /// The whole screen.
    pub fn screen_boundary() -> (r: PhysicConfig)
        ensures
            r.boundary == spec_screen_boundary(),
    {
        let mut new_val = PhysicConfig::default();
        new_val.set_screen_boundary();
        new_val
    }

    pub fn set_screen_boundary(&mut self)
        ensures
            final(self).boundary == spec_screen_boundary(),
    {
        self.boundary = Boundary { min_x: 0, min_y: 0, max_x: SCREEN_WIDTH, max_y: SCREEN_HEIGHT };
    }

    pub fn with_screen_boundary(self) -> (r: PhysicConfig)
        ensures
            r.boundary == spec_screen_boundary(),
    {
        let mut s = self;
        s.set_screen_boundary();
        s
    }

    /// The screen inside its walls: 16 pixels off the sides and bottom, 32
    /// pixels off the top, where the heads-up text sits.
    pub fn play_area() -> (r: PhysicConfig)
        ensures
            r.boundary == (Boundary {
                min_x: 16,
                min_y: 32,
                max_x: (SCREEN_WIDTH - 16) as i32,
                max_y: (SCREEN_HEIGHT - 16) as i32,
            }),
    {
        PhysicConfig {
            boundary: Boundary {
                min_x: 16,
                min_y: 32,
                max_x: SCREEN_WIDTH - 16,
                max_y: SCREEN_HEIGHT - 16,
            },
        }
    }
}

impl From<u8> for CircleCollider {
    fn from(value: u8) -> (r: CircleCollider)
        ensures
            r.radius == value,
    {
        CircleCollider { radius: value }
    }
}

impl vstd::std_specs::convert::FromSpecImpl<u8> for CircleCollider {
    open spec fn obeys_from_spec() -> bool {
        true
    }

    open spec fn from_spec(v: u8) -> CircleCollider {
        CircleCollider { radius: v }
    }
}

impl CircleCollider {
    /// Offset from the object's position to the circle's center, in pixels.
    pub fn center_offset(&self) -> (r: (i32, i32))
        ensures
            r.0 == self.radius as i32,
            r.1 == self.radius as i32,
    {
        (self.radius as i32, self.radius as i32)
    }

    /// Two circles overlap when their centers are closer than the sum of
    /// their radii; this is that sum, squared.
    pub fn collision_distance_squared(&self, other: &CircleCollider) -> (r: u32)
        ensures
            r == (self.radius as int + other.radius as int) * (self.radius as int
                + other.radius as int),
    {
        let d: u32 = self.radius as u32 + other.radius as u32;
        assert(d * d <= 510 * 510) by (nonlinear_arith)
            requires
                d <= 510,
        ;
        d * d
    }
}

impl Collision {
    /// Seen from `target`: the pair (itself, the other ball), or `None` when
    /// the collision does not involve it.
    pub fn self_and_other(&self, target: &EntityId) -> (r: Option<(EntityId, EntityId)>)
        ensures
            *target == self.entity1 ==> r == Some((self.entity1, self.entity2)),
            *target != self.entity1 && *target == self.entity2 ==> r == Some(
                (self.entity2, self.entity1),
            ),
            *target != self.entity1 && *target != self.entity2 ==> r is None,
    {
        if *target == self.entity1 {
            Some((self.entity1, self.entity2))
        } else if *target == self.entity2 {
            Some((self.entity2, self.entity1))
        } else {
            None
        }
    }

    /// The collision reaches both of its balls; the impulse exchange runs
    /// only on the delivery to the first one.
    pub fn resolves_on(&self, target: &EntityId) -> (r: bool)
        ensures
            r == (*target != self.entity2),
    {
        *target != self.entity2
    }
}

/// `a` comes before `b` in the scan, which goes by first index, then second.
pub open spec fn scan_before(a: (usize, usize), b: (usize, usize)) -> bool {
    a.0 < b.0 || (a.0 == b.0 && a.1 < b.1)
}

/// A pair the collision scan tests: two enabled bodies, written `(i, j)`
/// with `j < i`.
pub open spec fn is_candidate(enabled: Seq<bool>, p: (usize, usize)) -> bool {
    &&& p.0 < enabled.len()
    &&& p.1 < p.0
    &&& enabled[p.0 as int]
    &&& enabled[p.1 as int]
}

/// Lists the pairs of bodies whose circles the scan compares, given which
/// bodies take part in physics: each unordered pair of enabled bodies exactly
/// once, without self-pairs, in scan order.
pub fn collision_candidates(enabled: &Vec<bool>) -> (r: Vec<(usize, usize)>)
    ensures
        forall|k: int| 0 <= k < r@.len() ==> is_candidate(enabled@, #[trigger] r@[k]),
        forall|p: (usize, usize)| is_candidate(enabled@, p) ==> r@.contains(p),
        forall|a: int, b: int|
            0 <= a < b < r@.len() ==> scan_before(#[trigger] r@[a], #[trigger] r@[b]),
{
    let mut r: Vec<(usize, usize)> = Vec::new();
    let n = enabled.len();
    let mut i: usize = 0;
    while i < n
        invariant
            n == enabled@.len(),
            i <= n,
            forall|k: int| 0 <= k < r@.len() ==> is_candidate(enabled@, #[trigger] r@[k]),
            forall|k: int| 0 <= k < r@.len() ==> (#[trigger] r@[k]).0 < i,
            forall|p: (usize, usize)| is_candidate(enabled@, p) && p.0 < i ==> r@.contains(p),
            forall|a: int, b: int|
                0 <= a < b < r@.len() ==> scan_before(#[trigger] r@[a], #[trigger] r@[b]),
        decreases n - i,
    {
        if enabled[i] {
            let mut j: usize = 0;
            while j < i
                invariant
                    n == enabled@.len(),
                    i < n,
                    j <= i,
                    enabled@[i as int],
                    forall|k: int| 0 <= k < r@.len() ==> is_candidate(enabled@, #[trigger] r@[k]),
                    forall|k: int|
                        0 <= k < r@.len() ==> scan_before(#[trigger] r@[k], (i, j)),
                    forall|p: (usize, usize)|
                        is_candidate(enabled@, p) && (p.0 < i || (p.0 == i && p.1 < j))
                            ==> r@.contains(p),
                    forall|a: int, b: int|
                        0 <= a < b < r@.len() ==> scan_before(#[trigger] r@[a], #[trigger] r@[b]),
                decreases i - j,
            {
                if enabled[j] {
                    let ghost old_r = r@;
                    r.push((i, j));
                    assert forall|p: (usize, usize)|
                        is_candidate(enabled@, p) && (p.0 < i || (p.0 == i && p.1 < j + 1))
                            implies r@.contains(p) by {
                        if p == (i, j) {
                            assert(r@[old_r.len() as int] == p);
                        } else {
                            let k = choose|k: int| 0 <= k < old_r.len() && old_r[k] == p;
                            assert(r@[k] == p);
                        }
                    }
                }
                j = j + 1;
            }
        }
        i = i + 1;
    }
    r
}

} // verus!
