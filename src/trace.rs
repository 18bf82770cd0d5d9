//! Nearest-hit resolution: of every element that a ray meets, the one it
//! meets first.
use vstd::prelude::*;
use crate::distance::{is_finite_key, is_finite};

verus! {

/// Where a ray first meets the scene: the distance key of the hit and the
/// index of the element hit, in the scene's list of elements.
#[derive(Debug, Clone, Copy, PartialEq, Eq, Structural)]
pub struct Hit {
    pub distance: u32,
    pub element: usize,
}

impl Hit {
    /// A hit at a finite distance; a non-finite one is a geometry defect.
    pub fn new(distance: u32, element: usize) -> (r: Hit)
        requires
            is_finite_key(distance),
        ensures
            r == (Hit { distance, element }),
    {
        Hit { distance, element }
    }
}

/// The ray meets no element.
pub open spec fn misses_all(hits: Seq<Option<u32>>) -> bool {
    forall|j: int| 0 <= j < hits.len() ==> hits[j] is None
}

/// `h` is the first, among the elements met at the least distance.
pub open spec fn is_nearest(hits: Seq<Option<u32>>, h: Hit) -> bool {
    &&& h.element < hits.len()
    &&& hits[h.element as int] == Some(h.distance)
    &&& forall|j: int| 0 <= j < hits.len() && hits[j] is Some ==> h.distance <= hits[j]->Some_0
    &&& forall|j: int| 0 <= j < h.element && hits[j] is Some ==> h.distance < hits[j]->Some_0
}

/// `r` is what tracing a ray yields, where `hits[i]` is the distance key at
/// which the ray meets element `i`, if it does.
pub open spec fn traced(hits: Seq<Option<u32>>, r: Option<Hit>) -> bool {
    match r {
        None => misses_all(hits),
        Some(h) => is_nearest(hits, h),
    }
}

/// Every distance reported is finite.
pub open spec fn all_finite(hits: Seq<Option<u32>>) -> bool {
    forall|j: int| 0 <= j < hits.len() && hits[j] is Some ==> is_finite_key(hits[j]->Some_0)
}

/// Resolves the nearest hit from the distance at which the ray meets each
/// element. Of elements met at the same least distance the first is taken.
pub fn nearest_hit(hits: &Vec<Option<u32>>) -> (r: Option<Hit>)
    requires
        all_finite(hits@),
    ensures
        traced(hits@, r),
{
    let mut best: Option<Hit> = None;
    let mut i: usize = 0;
    while i < hits.len()
        invariant
            i <= hits@.len(),
            all_finite(hits@),
            traced(hits@.take(i as int), best),
        decreases hits@.len() - i,
    {
        match hits[i] {
            Some(d) => {
                let closer = match best {
                    None => true,
                    Some(b) => d < b.distance,
                };
                if closer {
                    proof {
                        assert(is_finite_key(d));
                    }
                    best = Some(Hit::new(d, i));
                }
            },
            None => {},
        }
        proof {
            let pre = hits@.take(i as int);
            let post = hits@.take(i + 1);
            assert(forall|j: int| 0 <= j < i ==> post[j] == pre[j]);
            assert(post[i as int] == hits@[i as int]);
        }
        i = i + 1;
    }
    proof {
        assert(hits@.take(hits@.len() as int) =~= hits@);
    }
    best
}

/// Tracing is deterministic: one set of hits has one result.
pub proof fn traced_unique(hits: Seq<Option<u32>>, r1: Option<Hit>, r2: Option<Hit>)
    requires
        traced(hits, r1),
        traced(hits, r2),
    ensures
        r1 == r2,
{
    match (r1, r2) {
        (Some(a), Some(b)) => {
            if a.element < b.element {
                assert(hits[a.element as int] is Some);
            } else if b.element < a.element {
                assert(hits[b.element as int] is Some);
            }
        },
        (Some(a), None) => {
            assert(hits[a.element as int] is None);
        },
        (None, Some(b)) => {
            assert(hits[b.element as int] is None);
        },
        (None, None) => {},
    }
}

/// A ray that meets no element yields no hit.
pub proof fn miss_yields_none(hits: Seq<Option<u32>>, r: Option<Hit>)
    requires
        misses_all(hits),
        traced(hits, r),
    ensures
        r is None,
{
    if let Some(h) = r {
        assert(hits[h.element as int] is Some);
    }
}

/// The hit that tracing yields is the globally nearest: no element is met at
/// a smaller distance.
pub proof fn nearest_is_minimal(hits: Seq<Option<u32>>, r: Option<Hit>, j: int)
    requires
        traced(hits, r),
        0 <= j < hits.len(),
        hits[j] is Some,
    ensures
        r is Some,
        r->Some_0.distance <= hits[j]->Some_0,
{
}

} // verus!
