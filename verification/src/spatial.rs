//! Nearest-neighbour queries over the entities of one category.

use vstd::prelude::*;
use crate::geom::{dist2, Vec2};
use crate::solt::Entity;

verus! {

/// An entity with its place.
#[derive(Clone, Copy, Debug, PartialEq, Eq, Structural)]
pub struct Located {
    pub position: Vec2,
    pub entity: Entity,
}

/// The places of the entities of one category, as of the last rebuild.
#[derive(Debug)]
pub struct SpatialIndex {
    pub items: Vec<Located>,
}

/// Whether `i` is the entry nearest to `loc`: none is nearer, and of those
/// equally near it is the first.
pub open spec fn is_nearest(items: Seq<Located>, loc: Vec2, i: int) -> bool {
    &&& 0 <= i < items.len()
    &&& forall|j: int| 0 <= j < items.len() ==> dist2(items[i].position, loc) <= dist2((#[trigger] items[j]).position, loc)
    &&& forall|j: int| 0 <= j < i ==> dist2(items[i].position, loc) < dist2((#[trigger] items[j]).position, loc)
}

/// The index of the entry nearest to `loc`.
pub open spec fn nearest_index(items: Seq<Located>, loc: Vec2) -> Option<int> {
    if items.len() == 0 {
        None
    } else {
        Some(choose|i: int| is_nearest(items, loc, i))
    }
}

/// The entry nearest to `loc`.
pub open spec fn nearest(items: Seq<Located>, loc: Vec2) -> Option<Located> {
    match nearest_index(items, loc) {
        Some(i) => Some(items[i]),
        None => None,
    }
}

/// At most one entry is the nearest.
pub proof fn lemma_nearest_unique(items: Seq<Located>, loc: Vec2, i: int, k: int)
    requires
        is_nearest(items, loc, i),
        is_nearest(items, loc, k),
    ensures
        i == k,
{
    if i < k {
        assert(dist2(items[k].position, loc) < dist2(items[i].position, loc));
        assert(dist2(items[i].position, loc) <= dist2(items[k].position, loc));
    } else if k < i {
        assert(dist2(items[i].position, loc) < dist2(items[k].position, loc));
        assert(dist2(items[k].position, loc) <= dist2(items[i].position, loc));
    }
}

/// The first of the nearest among the first `n` entries.
pub open spec fn first_min(items: Seq<Located>, loc: Vec2, n: int) -> int
    decreases n,
{
    if n <= 1 {
        0
    } else {
        let best = first_min(items, loc, n - 1);
        if dist2(items[n - 1].position, loc) < dist2(items[best].position, loc) {
            n - 1
        } else {
            best
        }
    }
}

/// Among the first `n` entries, `first_min` is the nearest.
pub proof fn lemma_first_min(items: Seq<Located>, loc: Vec2, n: int)
    requires
        1 <= n <= items.len(),
    ensures
        is_nearest(items.take(n), loc, first_min(items, loc, n)),
    decreases n,
{
    if n > 1 {
        lemma_first_min(items, loc, n - 1);
        let best = first_min(items, loc, n - 1);
        let now = first_min(items, loc, n);
        assert forall|j: int| 0 <= j < n implies dist2(items.take(n)[now].position, loc) <= dist2(
            (#[trigger] items.take(n)[j]).position,
            loc,
        ) by {
            if j < n - 1 {
                assert(items.take(n - 1)[j] == items.take(n)[j]);
            }
        }
        assert forall|j: int| 0 <= j < now implies dist2(items.take(n)[now].position, loc) < dist2(
            (#[trigger] items.take(n)[j]).position,
            loc,
        ) by {
            assert(items.take(n - 1)[j] == items.take(n)[j]);
            if now == n - 1 {
                assert(dist2(items.take(n - 1)[best].position, loc) <= dist2(
                    items.take(n - 1)[j].position,
                    loc,
                ));
            }
        }
    }
}

/// A category that is not empty has a nearest entry.
pub proof fn lemma_nearest_exists(items: Seq<Located>, loc: Vec2)
    requires
        items.len() > 0,
    ensures
        exists|i: int| is_nearest(items, loc, i),
        nearest_index(items, loc).is_some(),
        0 <= nearest_index(items, loc).unwrap() < items.len(),
        is_nearest(items, loc, nearest_index(items, loc).unwrap()),
{
    lemma_first_min(items, loc, items.len() as int);
    assert(items.take(items.len() as int) =~= items);
    assert(is_nearest(items, loc, first_min(items, loc, items.len() as int)));
}

/// The entry found nearest is the nearest.
pub proof fn lemma_nearest_is(items: Seq<Located>, loc: Vec2, i: int)
    requires
        is_nearest(items, loc, i),
    ensures
        nearest_index(items, loc) == Some(i),
        nearest(items, loc) == Some(items[i]),
{
    let k = choose|k: int| is_nearest(items, loc, k);
    lemma_nearest_unique(items, loc, i, k);
}

impl SpatialIndex {
    /// An index over the given entities.
    pub fn build(items: Vec<Located>) -> (r: SpatialIndex)
        ensures
            r.items@ == items@,
    {
        SpatialIndex { items }
    }

    /// The index of the entry nearest to `loc`; none for an empty category. Of
    /// entries equally near the first counts.
    pub fn nearest_index(&self, loc: Vec2) -> (r: Option<usize>)
        ensures
            match r {
                Some(i) => nearest_index(self.items@, loc) == Some(i as int) && i < self.items@.len(),
                None => nearest_index(self.items@, loc).is_none(),
            },
    {
        if self.items.len() == 0 {
            return None;
        }
        let mut best: usize = 0;
        let mut best_distance: u128 = self.items[0].position.distance_squared(loc);
        let mut i: usize = 1;
        while i < self.items.len()
            invariant
                1 <= i <= self.items.len(),
                best < i,
                best_distance == dist2(self.items@[best as int].position, loc),
                forall|j: int| 0 <= j < i ==> best_distance <= dist2((#[trigger] self.items@[j]).position, loc),
                forall|j: int| 0 <= j < best ==> best_distance < dist2((#[trigger] self.items@[j]).position, loc),
            decreases self.items.len() - i,
        {
            let distance: u128 = self.items[i].position.distance_squared(loc);
            if distance < best_distance {
                best = i;
                best_distance = distance;
            }
            i += 1;
        }
        proof {
            lemma_nearest_is(self.items@, loc, best as int);
        }
        Some(best)
    }

    /// The entity nearest to `loc` with its place; none for an empty
    /// category.
    pub fn nearest_neighbour(&self, loc: Vec2) -> (r: Option<Located>)
        ensures
            r == nearest(self.items@, loc),
    {
        match self.nearest_index(loc) {
            Some(i) => Some(self.items[i]),
            None => None,
        }
    }
}

} // verus!
