use rasterwave_node::codec::fax_lpm;
use rasterwave_node::config::{
    ClockRecoveryPlan, FaxBackendPlan, FaxDecoderRequest, ModulationKind, SstvBackendPlan,
    SstvDecoderRequest, SstvPaperModePlan, StationIdPlan, StationIdRequest, modulation_name,
    parse_modulation_kind, plan_fax_decoder, plan_fax_spec, plan_sstv_decoder, plan_station_id,
    queue_capacity,
};
use rasterwave_node::error::LibError;
use rasterwave_node::modes::{JsFaxIoc, JsSstvMode};

fn sstv_request() -> SstvDecoderRequest {
    SstvDecoderRequest {
        output_mode: None,
        fallback_mode: None,
        immediate_decode: None,
        detect_vis: None,
        detect_sync_timing: None,
        manual_mode: None,
        queue_capacity_samples: None,
    }
}

fn fax_request() -> FaxDecoderRequest {
    FaxDecoderRequest {
        output_mode: None,
        clock_recovery: None,
        continuous_auto: None,
        auto_am_modulation: None,
        immediate_decode: None,
        ioc: None,
        lpm: None,
        modulation: None,
        max_lines: None,
        queue_capacity_samples: None,
    }
}

#[test]
fn default_capacity_is_five_seconds() {
    assert_eq!(queue_capacity(None, 48_000).unwrap(), 240_000);
    assert_eq!(queue_capacity(None, u32::MAX).unwrap(), u32::MAX);
    assert_eq!(queue_capacity(Some(7), 48_000).unwrap(), 7);
    assert!(matches!(queue_capacity(Some(0), 48_000), Err(LibError::QueueCapacityZero)));
    assert!(matches!(queue_capacity(None, 0), Err(LibError::QueueCapacityZero)));
}

#[test]
fn sstv_defaults_to_framed() {
    let plan = plan_sstv_decoder(&sstv_request(), 48_000).unwrap();
    assert_eq!(plan.queue_capacity, 240_000);
    assert_eq!(
        plan.backend,
        SstvBackendPlan::Framed {
            immediate_decode: None,
            detect_vis: None,
            detect_sync_timing: None,
            manual_mode: None
        }
    );
}

#[test]
fn sstv_paper_falls_back_to_robot36() {
    let mut request = sstv_request();
    request.output_mode = Some("continuousPaper".to_string());
    let plan = plan_sstv_decoder(&request, 11_025).unwrap();
    assert_eq!(
        plan.backend,
        SstvBackendPlan::Paper {
            mode: SstvPaperModePlan::Auto { fallback: JsSstvMode::Robot36 },
            detect_vis: true,
            detect_sync_timing: true
        }
    );
    request.manual_mode = Some(JsSstvMode::Martin1);
    request.detect_vis = Some(false);
    let plan = plan_sstv_decoder(&request, 11_025).unwrap();
    assert_eq!(
        plan.backend,
        SstvBackendPlan::Paper {
            mode: SstvPaperModePlan::Manual { mode: JsSstvMode::Martin1 },
            detect_vis: false,
            detect_sync_timing: true
        }
    );
}

#[test]
fn sstv_refusals_in_order() {
    let mut request = sstv_request();
    request.output_mode = Some("paper".to_string());
    request.queue_capacity_samples = Some(0);
    assert!(matches!(plan_sstv_decoder(&request, 48_000), Err(LibError::OutputModeInvalid)));
    request.output_mode = Some("continuousPaper".to_string());
    request.immediate_decode = Some(true);
    assert!(matches!(plan_sstv_decoder(&request, 48_000), Err(LibError::ImmediateWithPaper)));
    request.immediate_decode = Some(false);
    assert!(matches!(plan_sstv_decoder(&request, 48_000), Err(LibError::QueueCapacityZero)));
}

#[test]
fn sstv_framed_immediate_with_manual_mode() {
    let mut request = sstv_request();
    request.immediate_decode = Some(true);
    request.manual_mode = Some(JsSstvMode::Pd120);
    let plan = plan_sstv_decoder(&request, 48_000).unwrap();
    assert_eq!(
        plan.backend,
        SstvBackendPlan::Framed {
            immediate_decode: Some(true),
            detect_vis: None,
            detect_sync_timing: None,
            manual_mode: Some(JsSstvMode::Pd120)
        }
    );
}

#[test]
fn fax_defaults() {
    let plan = plan_fax_decoder(&fax_request(), 12_000).unwrap();
    assert_eq!(plan.clock_recovery, ClockRecoveryPlan::Auto);
    assert_eq!(plan.queue_capacity, 60_000);
    assert_eq!(
        plan.backend,
        FaxBackendPlan::Framed { immediate_decode: false, ioc: None, lpm: None, modulation: None, max_lines: None }
    );
}

#[test]
fn fax_paper_defaults_to_ioc576_at_120_lpm() {
    let mut request = fax_request();
    request.output_mode = Some("continuousPaper".to_string());
    request.clock_recovery = Some("off".to_string());
    let plan = plan_fax_decoder(&request, 12_000).unwrap();
    assert_eq!(plan.clock_recovery, ClockRecoveryPlan::Off);
    assert_eq!(
        plan.backend,
        FaxBackendPlan::Paper {
            auto: true,
            fallback_ioc: JsFaxIoc::Ioc576,
            fallback_lpm: 120,
            fallback_modulation: None,
            auto_am_modulation: None
        }
    );
    request.ioc = Some(JsFaxIoc::Ioc288);
    request.lpm = Some(60);
    request.modulation = Some("amSubcarrier".to_string());
    request.continuous_auto = Some(false);
    let plan = plan_fax_decoder(&request, 12_000).unwrap();
    assert_eq!(
        plan.backend,
        FaxBackendPlan::Paper {
            auto: false,
            fallback_ioc: JsFaxIoc::Ioc288,
            fallback_lpm: 60,
            fallback_modulation: Some(ModulationKind::Am),
            auto_am_modulation: None
        }
    );
}

#[test]
fn fax_refusals_in_order() {
    let mut request = fax_request();
    request.output_mode = Some("continuousPaper".to_string());
    request.max_lines = Some(100);
    request.clock_recovery = Some("maybe".to_string());
    assert!(matches!(plan_fax_decoder(&request, 12_000), Err(LibError::MaxLinesWithPaper)));
    request.immediate_decode = Some(true);
    assert!(matches!(plan_fax_decoder(&request, 12_000), Err(LibError::ImmediateWithPaper)));
    request.immediate_decode = None;
    request.max_lines = None;
    assert!(matches!(plan_fax_decoder(&request, 12_000), Err(LibError::ClockRecoveryInvalid)));
    request.clock_recovery = None;
    request.lpm = Some(70_000);
    assert!(matches!(plan_fax_decoder(&request, 12_000), Err(LibError::LpmTooLarge)));
    request.lpm = Some(500);
    assert!(matches!(plan_fax_decoder(&request, 12_000), Err(LibError::CodecRejected(_))));
    request.lpm = Some(90);
    request.modulation = Some("ssb".to_string());
    match plan_fax_decoder(&request, 12_000) {
        Err(LibError::ModulationUnsupported(kind)) => assert_eq!(kind, "ssb"),
        _ => panic!("expected unsupported modulation"),
    }
    request.modulation = Some("fm".to_string());
    request.queue_capacity_samples = Some(0);
    request.auto_am_modulation = Some("xx".to_string());
    assert!(matches!(plan_fax_decoder(&request, 12_000), Err(LibError::QueueCapacityZero)));
    request.queue_capacity_samples = None;
    assert!(matches!(plan_fax_decoder(&request, 12_000), Err(LibError::ModulationUnsupported(_))));
    request.auto_am_modulation = Some("am".to_string());
    assert!(plan_fax_decoder(&request, 12_000).is_ok());
}

#[test]
fn fax_framed_ignores_auto_am_kind() {
    let mut request = fax_request();
    request.auto_am_modulation = Some("bogus".to_string());
    request.max_lines = Some(800);
    request.immediate_decode = Some(true);
    request.ioc = Some(JsFaxIoc::Ioc288);
    request.lpm = Some(120);
    let plan = plan_fax_decoder(&request, 12_000).unwrap();
    assert_eq!(
        plan.backend,
        FaxBackendPlan::Framed {
            immediate_decode: true,
            ioc: Some(JsFaxIoc::Ioc288),
            lpm: Some(120),
            modulation: None,
            max_lines: Some(800)
        }
    );
}

#[test]
fn lpm_range_comes_from_the_codec() {
    assert_eq!(fax_lpm(30).unwrap(), 30);
    assert_eq!(fax_lpm(480).unwrap(), 480);
    match fax_lpm(29) {
        Err(LibError::CodecRejected(text)) => assert!(text.contains("LPM")),
        _ => panic!("expected codec refusal"),
    }
    assert!(matches!(fax_lpm(481), Err(LibError::CodecRejected(_))));
    assert!(matches!(fax_lpm(65_536), Err(LibError::LpmTooLarge)));
}

#[test]
fn fax_spec_checks_rate_then_modulation() {
    let plan = plan_fax_spec(120, &None).unwrap();
    assert_eq!(plan.lpm, 120);
    assert_eq!(plan.modulation, None);
    assert!(matches!(plan_fax_spec(10, &Some("ssb".to_string())), Err(LibError::CodecRejected(_))));
    assert!(matches!(plan_fax_spec(60, &Some("ssb".to_string())), Err(LibError::ModulationUnsupported(_))));
    assert_eq!(plan_fax_spec(60, &Some("fmSubcarrier".to_string())).unwrap().modulation, Some(ModulationKind::Fm));
}

#[test]
fn modulation_names_round_trip() {
    for kind in [ModulationKind::Fm, ModulationKind::Am] {
        assert_eq!(parse_modulation_kind(modulation_name(kind)).unwrap(), kind);
    }
    assert_eq!(parse_modulation_kind("amSubcarrier").unwrap(), ModulationKind::Am);
}

#[test]
fn station_id_plans() {
    assert!(matches!(plan_station_id(None), Ok(StationIdPlan::Omitted)));
    let none = StationIdRequest { kind: "none".to_string(), callsign: Some("N0CALL".to_string()), wpm: None };
    assert!(matches!(plan_station_id(Some(none)), Ok(StationIdPlan::Omitted)));
    let fsk = StationIdRequest { kind: "fsk".to_string(), callsign: Some("N0CALL".to_string()), wpm: None };
    match plan_station_id(Some(fsk)) {
        Ok(StationIdPlan::Fsk { callsign }) => assert_eq!(callsign, "N0CALL"),
        _ => panic!("expected fsk"),
    }
    let cw = StationIdRequest { kind: "cw".to_string(), callsign: Some("N0CALL".to_string()), wpm: None };
    match plan_station_id(Some(cw)) {
        Ok(StationIdPlan::Cw { callsign, wpm }) => {
            assert_eq!(callsign, "N0CALL");
            assert_eq!(wpm, 20);
        }
        _ => panic!("expected cw"),
    }
}

#[test]
fn station_id_refusals() {
    let fsk = StationIdRequest { kind: "fsk".to_string(), callsign: None, wpm: None };
    assert!(matches!(plan_station_id(Some(fsk)), Err(LibError::FskCallsignMissing)));
    let cw = StationIdRequest { kind: "cw".to_string(), callsign: None, wpm: Some(30) };
    assert!(matches!(plan_station_id(Some(cw)), Err(LibError::CwCallsignMissing)));
    let fast = StationIdRequest { kind: "cw".to_string(), callsign: Some("X".to_string()), wpm: Some(70_000) };
    assert!(matches!(plan_station_id(Some(fast)), Err(LibError::CwWpmOutOfRange)));
    let other = StationIdRequest { kind: "voice".to_string(), callsign: None, wpm: None };
    assert!(matches!(plan_station_id(Some(other)), Err(LibError::StationKindInvalid)));
}
