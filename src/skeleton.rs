use vstd::prelude::*;

use crate::keypoints::{
    is_confident, is_valid, project, project_spec, projection, Keypoint, Point,
};

verus! {

/// Number of joints the model reports, one per body part.
pub const KEYPOINT_COUNT: usize = 17;

/// The bones of the rendered skeleton, as pairs of joint indices.
pub open spec fn edges_spec() -> Seq<(usize, usize)> {
    seq![
        (0, 1), (0, 2), (1, 3), (2, 4), (0, 5), (0, 6), (5, 7), (7, 9), (6, 8),
        (8, 10), (5, 6), (5, 11), (6, 12), (11, 12), (11, 13), (13, 15), (12, 14), (14, 16),
    ]
}

/// Every bone of `edges` joins two of the first `n` joints.
pub open spec fn edges_within(edges: Seq<(usize, usize)>, n: nat) -> bool {
    forall|i: int| 0 <= i < edges.len() ==> #[trigger] edges[i].0 < n && edges[i].1 < n
}

/// A line segment between two projected joints.
#[derive(Clone, Copy, Debug, PartialEq, Eq, Structural)]
pub struct Segment {
    pub start: Point,
    pub end: Point,
}

/// The marker for joint `kp` on a `w` x `h` frame: its projected pixel when it
/// is confident enough, otherwise nothing.
pub open spec fn marker_spec(kp: Keypoint, w: nat, h: nat, threshold: u32) -> Option<Point> {
    if is_valid(kp, threshold) {
        Some(project_spec(kp, w, h))
    } else {
        None
    }
}

/// The segment for the bone between joints `a` and `b`: drawn only when both
/// ends are confident enough.
pub open spec fn segment_spec(a: Keypoint, b: Keypoint, w: nat, h: nat, threshold: u32) -> Option<
    Segment,
> {
    if is_valid(a, threshold) && is_valid(b, threshold) {
        Some(Segment { start: project_spec(a, w, h), end: project_spec(b, w, h) })
    } else {
        None
    }
}

/// The fixed skeleton topology: eighteen bones over the seventeen joints.
pub fn skeleton_edges() -> (r: Vec<(usize, usize)>)
    ensures
        r@ == edges_spec(),
        edges_within(r@, KEYPOINT_COUNT as nat),
{
    let r = vec![
        (0, 1), (0, 2), (1, 3), (2, 4), (0, 5), (0, 6), (5, 7), (7, 9), (6, 8),
        (8, 10), (5, 6), (5, 11), (6, 12), (11, 12), (11, 13), (13, 15), (12, 14), (14, 16),
    ];
    assert(r@ == edges_spec());
    r
}

/// Checks that every bone of `edges` refers to one of `n` joints.
pub fn edges_in_range(edges: &Vec<(usize, usize)>, n: usize) -> (r: bool)
    ensures
        r == edges_within(edges@, n as nat),
{
    let mut i: usize = 0;
    while i < edges.len()
        invariant
            i <= edges@.len(),
            forall|k: int| 0 <= k < i ==> #[trigger] edges@[k].0 < n && edges@[k].1 < n,
        decreases edges@.len() - i,
    {
        if edges[i].0 >= n || edges[i].1 >= n {
            return false;
        }
        i = i + 1;
    }
    true
}

/// The joints to draw on a `width` x `height` frame: one entry per keypoint,
/// its pixel when its confidence is strictly above `threshold`, else `None`.
pub fn keypoint_markers(keypoints: &Vec<Keypoint>, width: u32, height: u32, threshold: u32) -> (r:
    Vec<Option<Point>>)
    ensures
        r@.len() == keypoints@.len(),
        forall|i: int|
            0 <= i < r@.len() ==> #[trigger] r@[i] == marker_spec(
                keypoints@[i],
                width as nat,
                height as nat,
                threshold,
            ),
{
    let proj = projection(width, height);
    let mut r: Vec<Option<Point>> = Vec::new();
    let mut i: usize = 0;
    while i < keypoints.len()
        invariant
            proj.is_projection_of(width as nat, height as nat),
            i <= keypoints@.len(),
            r@.len() == i,
            forall|k: int|
                0 <= k < i ==> #[trigger] r@[k] == marker_spec(
                    keypoints@[k],
                    width as nat,
                    height as nat,
                    threshold,
                ),
        decreases keypoints@.len() - i,
    {
        let kp = &keypoints[i];
        if is_confident(kp, threshold) {
            r.push(Some(project(&proj, kp)));
        } else {
            r.push(None);
        }
        i = i + 1;
    }
    r
}

/// The bones to draw on a `width` x `height` frame: one entry per edge, the
/// segment between its two joints when both are confident, else `None`.
pub fn bone_segments(
    keypoints: &Vec<Keypoint>,
    edges: &Vec<(usize, usize)>,
    width: u32,
    height: u32,
    threshold: u32,
) -> (r: Vec<Option<Segment>>)
    requires
        edges_within(edges@, keypoints@.len()),
    ensures
        r@.len() == edges@.len(),
        forall|i: int|
            0 <= i < r@.len() ==> #[trigger] r@[i] == segment_spec(
                keypoints@[edges@[i].0 as int],
                keypoints@[edges@[i].1 as int],
                width as nat,
                height as nat,
                threshold,
            ),
{
    let proj = projection(width, height);
    let mut r: Vec<Option<Segment>> = Vec::new();
    let mut i: usize = 0;
    while i < edges.len()
        invariant
            edges_within(edges@, keypoints@.len()),
            proj.is_projection_of(width as nat, height as nat),
            i <= edges@.len(),
            r@.len() == i,
            forall|k: int|
                0 <= k < i ==> #[trigger] r@[k] == segment_spec(
                    keypoints@[edges@[k].0 as int],
                    keypoints@[edges@[k].1 as int],
                    width as nat,
                    height as nat,
                    threshold,
                ),
        decreases edges@.len() - i,
    {
        let (p1, p2) = edges[i];
        assert(p1 < keypoints@.len() && p2 < keypoints@.len());
        let a = &keypoints[p1];
        let b = &keypoints[p2];
        if is_confident(a, threshold) && is_confident(b, threshold) {
            r.push(Some(Segment { start: project(&proj, a), end: project(&proj, b) }));
        } else {
            r.push(None);
        }
        i = i + 1;
    }
    r
}

/// A joint whose confidence equals the threshold is not drawn, and neither is
/// any bone that has it as an end.
pub proof fn lemma_threshold_excludes(a: Keypoint, b: Keypoint, w: nat, h: nat, threshold: u32)
    requires
        a.score == threshold,
    ensures
        marker_spec(a, w, h, threshold) is None,
        segment_spec(a, b, w, h, threshold) is None,
        segment_spec(b, a, w, h, threshold) is None,
{
}

} // verus!
