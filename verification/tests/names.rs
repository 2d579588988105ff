use rasterwave_node::clock::{
    ClockSourceKind, ClockStatusKind, RasterBasisKind, clock_source_name, clock_status_name,
    parse_clock_source, parse_clock_status, raster_basis_name,
};
use rasterwave_node::error::LibError;
use rasterwave_node::names::{
    AbortReasonKind, BoundaryKind, ColorLayoutKind, EncoderStageKind, LineCompletenessKind,
    ModeStatusKind, ScanLayoutKind, SyncStateKind, abort_reason_name, color_layout_name,
    current_row_code, current_row_from_code, encoder_stage_code, encoder_stage_name_from_code,
    line_completeness_name, mode_status_name, paper_boundary_name, scan_layout_name,
    sync_state_code, sync_state_name,
};

#[test]
fn clock_names_round_trip() {
    for source in [
        ClockSourceKind::Nominal,
        ClockSourceKind::Phasing,
        ClockSourceKind::ImageContent,
        ClockSourceKind::Manual,
    ] {
        assert_eq!(parse_clock_source(clock_source_name(source)).unwrap(), source);
    }
    for status in [
        ClockStatusKind::Nominal,
        ClockStatusKind::Acquiring,
        ClockStatusKind::Locked,
        ClockStatusKind::Tracking,
        ClockStatusKind::Degraded,
    ] {
        assert_eq!(parse_clock_status(clock_status_name(status)).unwrap(), status);
    }
}

#[test]
fn clock_names_are_published_spellings() {
    assert_eq!(clock_source_name(ClockSourceKind::ImageContent), "imageContent");
    assert_eq!(clock_status_name(ClockStatusKind::Degraded), "degraded");
    assert_eq!(raster_basis_name(RasterBasisKind::NominalPaper), "nominalPaper");
    assert_eq!(raster_basis_name(RasterBasisKind::Calibrated), "calibrated");
}

#[test]
fn unknown_clock_names_are_refused() {
    assert!(matches!(parse_clock_source("deadSector"), Err(LibError::ClockSourceInvalid)));
    assert!(matches!(parse_clock_source("Nominal"), Err(LibError::ClockSourceInvalid)));
    assert!(matches!(parse_clock_status(""), Err(LibError::ClockStatusInvalid)));
    assert_eq!(
        parse_clock_status("bogus").unwrap_err().code(),
        "RASTERWAVE_INVALID_CONFIG"
    );
}

#[test]
fn sync_state_codes_and_names() {
    assert_eq!(sync_state_code(SyncStateKind::Searching), 0);
    assert_eq!(sync_state_code(SyncStateKind::Finished), 4);
    assert_eq!(sync_state_name(sync_state_code(SyncStateKind::ReadingVis)), "readingVis");
    assert_eq!(sync_state_name(sync_state_code(SyncStateKind::Confirming)), "confirming");
    assert_eq!(sync_state_name(sync_state_code(SyncStateKind::Locked)), "locked");
    assert_eq!(sync_state_name(77), "searching");
}

#[test]
fn encoder_stage_round_trip() {
    let expected = [
        (EncoderStageKind::Preamble, "preamble"),
        (EncoderStageKind::Vis, "vis"),
        (EncoderStageKind::Raster, "raster"),
        (EncoderStageKind::StationId, "stationId"),
        (EncoderStageKind::Guard, "guard"),
        (EncoderStageKind::Finished, "finished"),
    ];
    for (stage, name) in expected {
        assert_eq!(encoder_stage_name_from_code(encoder_stage_code(stage)), name);
    }
    assert_eq!(encoder_stage_name_from_code(200), "finished");
}

#[test]
fn current_row_round_trip() {
    assert_eq!(current_row_code(None), -1);
    assert_eq!(current_row_from_code(current_row_code(None)), None);
    assert_eq!(current_row_from_code(current_row_code(Some(0))), Some(0));
    assert_eq!(current_row_from_code(current_row_code(Some(u32::MAX))), Some(u32::MAX));
}

#[test]
fn event_names() {
    assert_eq!(line_completeness_name(LineCompletenessKind::Provisional), "provisional");
    assert_eq!(line_completeness_name(LineCompletenessKind::Final), "final");
    assert_eq!(paper_boundary_name(BoundaryKind::AptPhasing), "aptPhasing");
    assert_eq!(paper_boundary_name(BoundaryKind::Other), "unknown");
    assert_eq!(abort_reason_name(AbortReasonKind::SyncLost), "syncLost");
    assert_eq!(abort_reason_name(AbortReasonKind::Other), "unknown");
    assert_eq!(color_layout_name(ColorLayoutKind::Yuv), "yuv");
    assert_eq!(scan_layout_name(ScanLayoutKind::Pasokon), "pasokon");
    assert_eq!(mode_status_name(ModeStatusKind::Compatibility), "compatibility");
}
