//! Poles, the points at which cords are fastened to them, and the search
//! for the pole nearest to the player.

use vstd::prelude::*;
use crate::components::AttachmentPoint;
use crate::geometry::{distance_squared_within, square, Point};

verus! {

/// A pole the cord can attach to.
#[derive(Clone, Copy, Debug, PartialEq, Eq, Structural)]
pub struct AnchorPoint {
    pub entity: u64,
    pub position: Point,
}

/// `poles[i]` lies within `range` of `from`.
pub open spec fn in_range(poles: Seq<AnchorPoint>, from: Point, range: int, i: int) -> bool {
    0 <= i < poles.len() && from.dist_sq(poles[i].position) <= square(range)
}

/// `poles[i]` is the nearest pole within `range` of `from`, and the first
/// of those that are equally near: no pole in range is nearer, and every
/// earlier pole in range is farther.
pub open spec fn is_first_closest(poles: Seq<AnchorPoint>, from: Point, range: int, i: int) -> bool {
    &&& in_range(poles, from, range, i)
    &&& forall|j: int| #[trigger]
        in_range(poles, from, range, j) ==> from.dist_sq(poles[i].position) <= from.dist_sq(
            poles[j].position,
        )
    &&& forall|j: int| #[trigger]
        in_range(poles, from, range, j) && j < i ==> from.dist_sq(poles[j].position)
            > from.dist_sq(poles[i].position)
}

/// The pole the player attaches to from `from`: the first closest pole in
/// range, or none where no pole is in range.
pub open spec fn closest_pole(poles: Seq<AnchorPoint>, from: Point, range: int) -> Option<AnchorPoint> {
    if exists|i: int| is_first_closest(poles, from, range, i) {
        Some(poles[choose|i: int| is_first_closest(poles, from, range, i)])
    } else {
        None
    }
}

/// At most one pole is the first closest.
pub proof fn lemma_first_closest_is_unique(
    poles: Seq<AnchorPoint>,
    from: Point,
    range: int,
    i: int,
    k: int,
)
    requires
        is_first_closest(poles, from, range, i),
        is_first_closest(poles, from, range, k),
    ensures
        i == k,
{
    assert(in_range(poles, from, range, i));
    assert(in_range(poles, from, range, k));
}

/// Index of the pole nearest to `player_pos` among those within `max_range`,
/// the first of them where several are equally near.
pub fn find_closest_pole_index(player_pos: Point, poles: &Vec<AnchorPoint>, max_range: u32) -> (found:
    Option<usize>)
    ensures
        found matches Some(i) ==> is_first_closest(poles@, player_pos, max_range as int, i as int),
        found is None ==> forall|j: int| !in_range(poles@, player_pos, max_range as int, j),
{
    let mut best: Option<usize> = None;
    let mut best_d2: u64 = 0;
    let mut k: usize = 0;
    while k < poles.len()
        invariant
            k <= poles.len(),
            best is None ==> forall|j: int|
                j < k ==> !in_range(poles@, player_pos, max_range as int, j),
            best matches Some(i) ==> {
                &&& i < k
                &&& in_range(poles@, player_pos, max_range as int, i as int)
                &&& best_d2 == player_pos.dist_sq(poles@[i as int].position)
                &&& forall|j: int| #[trigger]
                    in_range(poles@, player_pos, max_range as int, j) && j < k ==> best_d2
                        <= player_pos.dist_sq(poles@[j].position)
                &&& forall|j: int| #[trigger]
                    in_range(poles@, player_pos, max_range as int, j) && j < i ==> best_d2
                        < player_pos.dist_sq(poles@[j].position)
            },
        decreases poles.len() - k,
    {
        match distance_squared_within(player_pos, poles[k].position, max_range) {
            Some(d2) => {
                if best.is_none() || d2 < best_d2 {
                    best = Some(k);
                    best_d2 = d2;
                }
            },
            None => {},
        }
        k += 1;
    }
    best
}

/// The pole nearest to `player_pos` among those within `max_range`, the
/// first of them where several are equally near.
pub fn find_closest_pole(player_pos: Point, poles: &Vec<AnchorPoint>, max_range: u32) -> (found:
    Option<AnchorPoint>)
    ensures
        found == closest_pole(poles@, player_pos, max_range as int),
        found is None <==> forall|j: int| !in_range(poles@, player_pos, max_range as int, j),
        found matches Some(pole) ==> player_pos.dist_sq(pole.position) <= square(max_range as int),
{
    match find_closest_pole_index(player_pos, poles, max_range) {
        Some(i) => {
            proof {
                let chosen = choose|c: int|
                    is_first_closest(poles@, player_pos, max_range as int, c);
                lemma_first_closest_is_unique(
                    poles@,
                    player_pos,
                    max_range as int,
                    i as int,
                    chosen,
                );
                assert(in_range(poles@, player_pos, max_range as int, i as int));
            }
            Some(poles[i])
        },
        None => None,
    }
}

/// The poles of the world and the attachment points made on them so far.
#[derive(Clone, Debug)]
pub struct AnchorRegistry {
    pub anchors: Vec<AnchorPoint>,
    pub attachment_points: Vec<AttachmentPoint>,
}

/// `points[i]` is the first attachment point made on `pole`.
pub open spec fn is_first_point_on(points: Seq<AttachmentPoint>, pole: u64, i: int) -> bool {
    &&& 0 <= i < points.len()
    &&& points[i].parent_pole == pole
    &&& forall|j: int| 0 <= j < i ==> (#[trigger] points[j]).parent_pole != pole
}

/// Some attachment point was made on `pole`.
pub open spec fn has_point_on(points: Seq<AttachmentPoint>, pole: u64) -> bool {
    exists|i: int| 0 <= i < points.len() && (#[trigger] points[i]).parent_pole == pole
}

impl AnchorRegistry {
    /// A registry of the given poles with no attachment point yet.
    pub fn new(anchors: Vec<AnchorPoint>) -> (registry: AnchorRegistry)
        ensures
            registry.anchors@ == anchors@,
            registry.attachment_points@.len() == 0,
    {
        AnchorRegistry { anchors, attachment_points: Vec::new() }
    }

    /// The poles within `radius` of `point`, in registry order.
    pub fn find_anchors_in_range(&self, point: Point, radius: u32) -> (found: Vec<AnchorPoint>)
        ensures
            found@ == self.anchors@.filter(
                |a: AnchorPoint| point.dist_sq(a.position) <= square(radius as int),
            ),
    {
        let mut found: Vec<AnchorPoint> = Vec::new();
        let mut k: usize = 0;
        let ghost keep = |a: AnchorPoint| point.dist_sq(a.position) <= square(radius as int);
        proof {
            reveal(Seq::filter);
            assert(self.anchors@.take(0) =~= Seq::<AnchorPoint>::empty());
        }
        while k < self.anchors.len()
            invariant
                k <= self.anchors.len(),
                keep == |a: AnchorPoint| point.dist_sq(a.position) <= square(radius as int),
                found@ == self.anchors@.take(k as int).filter(keep),
            decreases self.anchors.len() - k,
        {
            let anchor: AnchorPoint = self.anchors[k];
            proof {
                assert(self.anchors@.take(k as int + 1).drop_last() =~= self.anchors@.take(k as int));
                assert(self.anchors@.take(k as int + 1).last() == anchor);
                reveal(Seq::filter);
            }
            if distance_squared_within(point, anchor.position, radius).is_some() {
                found.push(anchor);
            }
            k += 1;
        }
        proof {
            assert(self.anchors@.take(k as int) =~= self.anchors@);
        }
        found
    }

    /// The attachment point made on `pole`, if there is one; the first
    /// where there are several.
    pub fn attachment_point_for(&self, pole: u64) -> (found: Option<AttachmentPoint>)
        ensures
            found is Some == has_point_on(self.attachment_points@, pole),
            found matches Some(point) ==> exists|i: int|
                is_first_point_on(self.attachment_points@, pole, i) && self.attachment_points@[i]
                    == point,
    {
        let mut k: usize = 0;
        while k < self.attachment_points.len()
            invariant
                k <= self.attachment_points.len(),
                forall|j: int| 0 <= j < k ==> (#[trigger] self.attachment_points@[j]).parent_pole != pole,
            decreases self.attachment_points.len() - k,
        {
            if self.attachment_points[k].parent_pole == pole {
                assert(is_first_point_on(self.attachment_points@, pole, k as int));
                return Some(self.attachment_points[k]);
            }
            k += 1;
        }
        None
    }

    /// The attachment point on `pole`: the one made earlier where there is
    /// one, else a new one on the entity `fresh`, which the registry keeps
    /// from now on.
    pub fn ensure_attachment_point(&mut self, pole: u64, fresh: u64) -> (point: AttachmentPoint)
        ensures
            final(self).anchors@ == old(self).anchors@,
            point.parent_pole == pole,
            has_point_on(old(self).attachment_points@, pole) ==> {
                &&& final(self).attachment_points@ == old(self).attachment_points@
                &&& exists|i: int|
                    is_first_point_on(old(self).attachment_points@, pole, i) && old(self).attachment_points@[i]
                        == point
            },
            !has_point_on(old(self).attachment_points@, pole) ==> {
                &&& point.entity == fresh
                &&& final(self).attachment_points@ == old(self).attachment_points@.push(point)
            },
            has_point_on(final(self).attachment_points@, pole),
    {
        match self.attachment_point_for(pole) {
            Some(point) => point,
            None => {
                let point = AttachmentPoint { entity: fresh, parent_pole: pole };
                self.attachment_points.push(point);
                assert(self.attachment_points@[self.attachment_points@.len() - 1].parent_pole
                    == pole);
                point
            },
        }
    }
}

} // verus!
