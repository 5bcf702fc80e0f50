use movenet::keypoints::{
    is_confident, keypoints_from_raw, project, projection, Keypoint, Point, Projection,
    RATIO_HALF, RATIO_SCALE,
};

fn kp(y: u32, x: u32, score: u32) -> Keypoint {
    Keypoint { y, x, score }
}

#[test]
fn center_of_640x480_projects_to_center() {
    let proj = projection(640, 480);
    assert_eq!(proj, Projection { base: 640, pad_x: 0, pad_y: 80 });
    let p = project(&proj, &kp(RATIO_HALF, RATIO_HALF, 900_000));
    assert_eq!(p, Point { x: 320, y: 240 });
}

#[test]
fn tall_frame_pads_columns() {
    let proj = projection(480, 640);
    assert_eq!(proj, Projection { base: 640, pad_x: 80, pad_y: 0 });
    let p = project(&proj, &kp(RATIO_HALF, RATIO_HALF, 0));
    assert_eq!(p, Point { x: 240, y: 320 });
}

#[test]
fn square_frame_has_no_padding() {
    let proj = projection(300, 300);
    assert_eq!(proj, Projection { base: 300, pad_x: 0, pad_y: 0 });
    // 0.25 * 300 = 75, 0.1 * 300 = 30
    let p = project(&proj, &kp(250_000, 100_000, 0));
    assert_eq!(p, Point { x: 30, y: 75 });
}

#[test]
fn projection_rounds_to_nearest() {
    let proj = projection(3, 3);
    // 0.5 * 3 = 1.5 -> 2, 0.4 * 3 = 1.2 -> 1
    let p = project(&proj, &kp(RATIO_HALF, 400_000, 0));
    assert_eq!(p, Point { x: 1, y: 2 });
}

#[test]
fn point_above_padding_is_negative() {
    let proj = projection(640, 480);
    let p = project(&proj, &kp(0, 0, 0));
    assert_eq!(p, Point { x: 0, y: -80 });
    let p = project(&proj, &kp(RATIO_SCALE, RATIO_SCALE, 0));
    assert_eq!(p, Point { x: 640, y: 560 });
}

#[test]
fn center_round_trip_is_within_one_pixel() {
    for w in 1..60u32 {
        for h in 1..60u32 {
            let p = project(&projection(w, h), &kp(RATIO_HALF, RATIO_HALF, 0));
            assert!((2 * p.x - w as i64).abs() <= 2);
            assert!((2 * p.y - h as i64).abs() <= 2);
        }
    }
}

#[test]
fn huge_ratio_and_base_do_not_overflow() {
    let p = project(&projection(u32::MAX, 1), &kp(u32::MAX, u32::MAX, 0));
    let expected = ((u32::MAX as u128 * u32::MAX as u128 * 2 + 1_000_000) / 2_000_000) as i64;
    assert_eq!(p.x, expected);
    assert_eq!(p.y, expected - (u32::MAX as i64 - 1) / 2);
}

#[test]
fn confidence_at_threshold_is_excluded() {
    assert!(!is_confident(&kp(0, 0, 250_000), 250_000));
    assert!(is_confident(&kp(0, 0, 250_001), 250_000));
    assert!(!is_confident(&kp(0, 0, 0), 0));
}

#[test]
fn raw_output_is_grouped_by_three() {
    let raw: Vec<u32> = vec![1, 2, 3, 4, 5, 6, 7];
    let kps = keypoints_from_raw(&raw);
    assert_eq!(kps, vec![kp(1, 2, 3), kp(4, 5, 6)]);
    let raw: Vec<u32> = (0..51).collect();
    let kps = keypoints_from_raw(&raw);
    assert_eq!(kps.len(), 17);
    assert_eq!(kps[16], kp(48, 49, 50));
    assert!(keypoints_from_raw(&Vec::new()).is_empty());
}
