use movenet::keypoints::{Keypoint, Point, RATIO_HALF};
use movenet::skeleton::{
    bone_segments, edges_in_range, keypoint_markers, skeleton_edges, Segment, KEYPOINT_COUNT,
};

fn kp(y: u32, x: u32, score: u32) -> Keypoint {
    Keypoint { y, x, score }
}

#[test]
fn skeleton_has_eighteen_bones_within_range() {
    let edges = skeleton_edges();
    assert_eq!(edges.len(), 18);
    assert_eq!(edges[0], (0, 1));
    assert_eq!(edges[17], (14, 16));
    assert!(edges_in_range(&edges, KEYPOINT_COUNT));
    assert!(!edges_in_range(&edges, 16));
}

#[test]
fn edges_out_of_range_are_reported() {
    assert!(!edges_in_range(&vec![(0, 1), (2, 17)], 17));
    assert!(!edges_in_range(&vec![(17, 0)], 17));
    assert!(edges_in_range(&Vec::new(), 0));
}

#[test]
fn markers_follow_threshold() {
    let kps = vec![
        kp(RATIO_HALF, RATIO_HALF, 900_000),
        kp(0, 0, 250_000),
        kp(0, 0, 100_000),
    ];
    let markers = keypoint_markers(&kps, 640, 480, 250_000);
    assert_eq!(markers, vec![Some(Point { x: 320, y: 240 }), None, None]);
}

#[test]
fn bone_with_one_excluded_end_is_not_drawn() {
    let kps = vec![
        kp(RATIO_HALF, RATIO_HALF, 900_000),
        kp(0, 0, 900_000),
        kp(0, 0, 250_000),
    ];
    let edges = vec![(0, 1), (0, 2), (2, 1)];
    let segs = bone_segments(&kps, &edges, 640, 480, 250_000);
    assert_eq!(
        segs,
        vec![
            Some(Segment { start: Point { x: 320, y: 240 }, end: Point { x: 0, y: -80 } }),
            None,
            None,
        ]
    );
}

#[test]
fn full_skeleton_all_confident() {
    let kps: Vec<Keypoint> = (0..17).map(|i| kp(i * 10_000, i * 20_000, 500_000)).collect();
    let edges = skeleton_edges();
    let segs = bone_segments(&kps, &edges, 100, 100, 250_000);
    assert_eq!(segs.len(), 18);
    assert!(segs.iter().all(|s| s.is_some()));
    // bone (14, 16): joint 16 at row 0.16, column 0.32 of 100 px
    assert_eq!(segs[17].unwrap().end, Point { x: 32, y: 16 });
    let markers = keypoint_markers(&kps, 100, 100, 500_000);
    assert!(markers.iter().all(|m| m.is_none()));
}
