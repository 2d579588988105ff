use rasterwave_node::notify::{DetectionKind, NoticeKind, RgbPixel, apply_detection, notice_type, pack_rgb};

#[test]
fn rgb_rows_are_packed_three_bytes_per_pixel() {
    let row = [RgbPixel { r: 1, g: 2, b: 3 }, RgbPixel { r: 4, g: 5, b: 6 }];
    assert_eq!(pack_rgb(&row), vec![1, 2, 3, 4, 5, 6]);
    assert!(pack_rgb(&[]).is_empty());
}

#[test]
fn detection_fields() {
    let vis = apply_detection(DetectionKind::Vis { code: 8 });
    assert_eq!(vis.detection, "vis");
    assert_eq!(vis.vis_code, Some(8));
    assert_eq!(vis.ambiguous, None);
    let timing = apply_detection(DetectionKind::SyncTiming { ambiguous: true, candidate_count: 3 });
    assert_eq!(timing.detection, "syncTiming");
    assert_eq!(timing.ambiguous, Some(true));
    assert_eq!(timing.candidate_count, Some(3));
    assert_eq!(timing.vis_code, None);
    assert_eq!(apply_detection(DetectionKind::Manual).detection, "manual");
    assert_eq!(apply_detection(DetectionKind::Other).detection, "unknown");
}

#[test]
fn notice_types() {
    assert_eq!(notice_type(NoticeKind::Drain), "drain");
    assert_eq!(notice_type(NoticeKind::RasterLineReady), "rasterLineReady");
    assert_eq!(notice_type(NoticeKind::ClockCalibration), "clockCalibration");
    assert_eq!(notice_type(NoticeKind::TransmissionCompleted), "transmissionCompleted");
}
