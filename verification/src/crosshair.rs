use vstd::prelude::*;

verus! {

/// Width that a client window is offered when it appears, and that a
/// surface without a buffer of its own is taken to have.
pub const DEFAULT_WINDOW_WIDTH: u32 = 800;

/// Height that a client window is offered when it appears, and that a
/// surface without a buffer of its own is taken to have.
pub const DEFAULT_WINDOW_HEIGHT: u32 = 600;

/// Whether entry `i` of `hits` is the hit closest to the eye: present, no
/// farther than every later hit and strictly nearer than every earlier one,
/// so that of equally near hits the first wins.
///
/// Each entry is the distance along the crosshair ray at which that window
/// quad is hit, as an order key (equal keys for equal distances, a smaller
/// key for a smaller distance), or `None` where the ray misses it.
pub open spec fn is_closest(hits: Seq<Option<u32>>, i: int) -> bool {
    &&& 0 <= i < hits.len()
    &&& hits[i] is Some
    &&& forall|j: int| 0 <= j < i && #[trigger] hits[j] is Some ==> hits[i]->0 < hits[j]->0
    &&& forall|j: int| i < j < hits.len() && #[trigger] hits[j] is Some ==> hits[i]->0 <= hits[j]->0
}

/// The index of the hit closest to the eye, or `None` when the ray misses
/// every quad.
pub fn closest_hit(hits: &Vec<Option<u32>>) -> (res: Option<usize>)
    ensures
        match res {
            None => forall|j: int| 0 <= j < hits@.len() ==> #[trigger] hits@[j] is None,
            Some(i) => is_closest(hits@, i as int),
        },
{
    let mut best: Option<(usize, u32)> = None;
    let n: usize = hits.len();
    for idx in 0..n
        invariant
            n == hits@.len(),
            match best {
                None => forall|j: int| 0 <= j < idx ==> #[trigger] hits@[j] is None,
                Some((b, d)) => {
                    &&& b < idx
                    &&& hits@[b as int] == Some(d)
                    &&& forall|j: int| 0 <= j < b && #[trigger] hits@[j] is Some ==> d < hits@[j]->0
                    &&& forall|j: int|
                        b < j < idx && #[trigger] hits@[j] is Some ==> d <= hits@[j]->0
                },
            },
    {
        match hits[idx] {
            Some(dist) => {
                match best {
                    Some((_, best_dist)) => {
                        if dist < best_dist {
                            best = Some((idx, dist));
                        }
                    },
                    None => {
                        best = Some((idx, dist));
                    },
                }
            },
            None => {},
        }
    }
    match best {
        Some((b, _)) => Some(b),
        None => None,
    }
}

/// At most one hit is the closest.
pub proof fn lemma_closest_is_unique(hits: Seq<Option<u32>>, i: int, k: int)
    requires
        is_closest(hits, i),
        is_closest(hits, k),
    ensures
        i == k,
{
    if i < k {
        assert(hits[i] is Some);
    } else if k < i {
        assert(hits[k] is Some);
    }
}

/// The closest hit is no farther than any other hit.
pub proof fn lemma_closest_is_nearest(hits: Seq<Option<u32>>, i: int, j: int)
    requires
        is_closest(hits, i),
        0 <= j < hits.len(),
        hits[j] is Some,
    ensures
        hits[i]->0 <= hits[j]->0,
{
    if j < i {
        assert(hits[j] is Some);
    } else if i < j {
        assert(hits[j] is Some);
    }
}

/// The size, in surface pixels, over which crosshair coordinates are spread
/// on a window: its buffer's size once it has one with both sides non-zero,
/// the default window size before.
pub fn pointer_extent(dimensions: (u32, u32)) -> (extent: (u32, u32))
    ensures
        extent == if dimensions.0 > 0 && dimensions.1 > 0 {
            dimensions
        } else {
            (DEFAULT_WINDOW_WIDTH, DEFAULT_WINDOW_HEIGHT)
        },
{
    if dimensions.0 > 0 && dimensions.1 > 0 {
        dimensions
    } else {
        (DEFAULT_WINDOW_WIDTH, DEFAULT_WINDOW_HEIGHT)
    }
}

} // verus!
