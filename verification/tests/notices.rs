use rasterwave::SstvMode;
use rasterwave::fax::FaxIoc;
use rasterwave_node::clock::{ClockSourceKind, ClockStatusKind, RasterBasisKind};
use rasterwave_node::config::ModulationKind;
use rasterwave_node::error::LibError;
use rasterwave_node::fax_notice::{ClockFields, FaxEvent, FaxSpecFields, carries_clock, fax_notice};
use rasterwave_node::limits::MAX_SAFE_INTEGER;
use rasterwave_node::modes::{JsFaxIoc, JsSstvMode};
use rasterwave_node::names::{BoundaryKind, LineCompletenessKind};
use rasterwave_node::notify::{DetectionKind, NoticeKind, RgbPixel};
use rasterwave_node::sstv_notice::{SstvEvent, sstv_notice};

fn overflow_field<T>(result: Result<T, LibError>) -> String {
    match result {
        Err(LibError::IntegerOverflow(field)) => field,
        _ => panic!("expected an overflow"),
    }
}

#[test]
fn line_ready_carries_index_pixels_and_revision() {
    let event = SstvEvent::LineReady {
        image_id: 4,
        mode: SstvMode::Robot36,
        line_index: 17,
        revision: 2,
        completeness: LineCompletenessKind::Provisional,
        pixels: vec![RgbPixel { r: 1, g: 2, b: 3 }, RgbPixel { r: 4, g: 5, b: 6 }],
    };
    let n = sstv_notice(event).unwrap();
    assert_eq!(n.kind, NoticeKind::LineReady);
    assert_eq!(n.image_id, Some(4));
    assert_eq!(n.mode, Some(JsSstvMode::Robot36));
    assert_eq!(n.line_index, Some(17));
    assert_eq!(n.revision, Some(2));
    assert_eq!(n.completeness, Some("provisional"));
    assert_eq!(n.pixels, Some(vec![1, 2, 3, 4, 5, 6]));
    assert_eq!(n.paper_id, None);
    assert_eq!(n.reason, None);
}

#[test]
fn sstv_ids_are_checked_in_field_order() {
    let big = MAX_SAFE_INTEGER + 1;
    let image = SstvEvent::ImageCompleted { image_id: big, mode: SstvMode::Martin1, lines: 256 };
    assert_eq!(overflow_field(sstv_notice(image)), "imageId");
    let ended = |paper_id, boundary_id, start_line, end_line| SstvEvent::TransmissionCompleted {
        paper_id,
        boundary_id,
        start_line,
        end_line,
        mode: SstvMode::Pd90,
        lines: 10,
    };
    assert_eq!(overflow_field(sstv_notice(ended(big, big, 0, 0))), "paperId");
    assert_eq!(overflow_field(sstv_notice(ended(1, big, big, 0))), "boundaryId");
    assert_eq!(overflow_field(sstv_notice(ended(1, 2, big, big))), "startLine");
    assert_eq!(overflow_field(sstv_notice(ended(1, 2, 3, big))), "endLine");
    let n = sstv_notice(ended(1, 2, 3, MAX_SAFE_INTEGER)).unwrap();
    assert_eq!(n.kind, NoticeKind::TransmissionCompleted);
    assert_eq!((n.start_line, n.end_line, n.lines), (Some(3), Some(MAX_SAFE_INTEGER), Some(10)));
}

#[test]
fn boundary_reports_detection_and_kind() {
    let n = sstv_notice(SstvEvent::RasterBoundary {
        paper_id: 1,
        boundary_id: 2,
        line_index: 300,
        mode: SstvMode::Scottie1,
        detection: Some(DetectionKind::Vis { code: 60 }),
        kind: BoundaryKind::Vis,
        trusted: true,
        width: 320,
        nominal_height: 256,
    })
    .unwrap();
    assert_eq!(n.kind, NoticeKind::RasterBoundary);
    assert_eq!(n.detection, Some("vis"));
    assert_eq!(n.vis_code, Some(60));
    assert_eq!(n.ambiguous, None);
    assert_eq!(n.boundary_kind, Some("vis"));
    assert_eq!(n.mode, Some(JsSstvMode::Scottie1));
    assert_eq!((n.width, n.nominal_height, n.trusted), (Some(320), Some(256), Some(true)));
}

#[test]
fn candidates_and_fallback_events() {
    let n = sstv_notice(SstvEvent::ModeCandidate { candidates: vec![SstvMode::Pd120, SstvMode::Robot72] }).unwrap();
    assert_eq!(n.candidates, Some(vec![JsSstvMode::Pd120, JsSstvMode::Robot72]));
    let unknown = sstv_notice(SstvEvent::UnsupportedPaper).unwrap();
    assert_eq!(unknown.kind, NoticeKind::Error);
    assert_eq!(unknown.reason.as_deref(), Some("unsupported SSTV paper event"));
    let drained = sstv_notice(SstvEvent::Drain).unwrap();
    assert_eq!(drained.kind, NoticeKind::Drain);
    assert_eq!(drained.mode, None);
}

fn spec() -> FaxSpecFields {
    FaxSpecFields { ioc: FaxIoc::Ioc576, lpm: 120, width: 1810, modulation: ModulationKind::Fm }
}

fn clock(reference_line: u64) -> ClockFields {
    ClockFields {
        revision: 3,
        reference_line,
        source: ClockSourceKind::Phasing,
        status: ClockStatusKind::Locked,
    }
}

#[test]
fn fax_page_started_reports_spec_and_clock() {
    let event = FaxEvent::PageStarted { page_id: 9, spec: spec(), clock: clock(40) };
    assert!(carries_clock(&event));
    let n = fax_notice(event).unwrap();
    assert_eq!(n.kind, NoticeKind::PageStarted);
    assert_eq!(n.page_id, Some(9));
    assert_eq!(n.ioc, Some(JsFaxIoc::Ioc576));
    assert_eq!((n.lpm, n.width), (Some(120), Some(1810)));
    assert_eq!(n.modulation, Some("fm"));
    assert_eq!((n.revision, n.reference_line), (Some(3), Some(40)));
    assert_eq!((n.clock_source, n.clock_status), (Some("phasing"), Some("locked")));
}

#[test]
fn fax_counts_are_refused_by_name() {
    let big = MAX_SAFE_INTEGER + 1;
    assert_eq!(overflow_field(fax_notice(FaxEvent::PageStarted { page_id: big, spec: spec(), clock: clock(big) })), "pageId");
    assert_eq!(overflow_field(fax_notice(FaxEvent::PageStarted { page_id: 1, spec: spec(), clock: clock(big) })), "referenceLine");
    let calibration = FaxEvent::ClockCalibration { paper_id: 1, boundary_id: big, clock: clock(0) };
    assert_eq!(overflow_field(fax_notice(calibration)), "boundaryId");
}

#[test]
fn fax_rows_pass_through_and_transmissions_are_whole() {
    let event = FaxEvent::RasterLineReady {
        paper_id: 1,
        boundary_id: 2,
        line_index: 77,
        segment_line_index: 5,
        spec: spec(),
        pixels: vec![0, 128, 255],
        basis: RasterBasisKind::NominalPaper,
    };
    assert!(!carries_clock(&event));
    let n = fax_notice(event).unwrap();
    assert_eq!(n.kind, NoticeKind::RasterLineReady);
    assert_eq!(n.pixels, Some(vec![0, 128, 255]));
    assert_eq!(n.basis, Some("nominalPaper"));
    assert_eq!((n.line_index, n.segment_line_index), (Some(77), Some(5)));
    let done = fax_notice(FaxEvent::TransmissionCompleted {
        paper_id: 1,
        boundary_id: 2,
        start_line: 10,
        end_line: 90,
        spec: spec(),
        lines: 80,
    })
    .unwrap();
    assert_eq!(done.partial, Some(false));
    assert_eq!(done.lines, Some(80));
    let apt = fax_notice(FaxEvent::AptDetected { ioc: FaxIoc::Ioc288 }).unwrap();
    assert_eq!((apt.kind, apt.ioc), (NoticeKind::AptDetected, Some(JsFaxIoc::Ioc288)));
}
