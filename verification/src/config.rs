use vstd::prelude::*;

use crate::codec::fax_lpm;
use crate::error::LibError;
use crate::modes::{JsFaxIoc, JsSstvMode};
use crate::text::text_equals;

verus! {

/// How decoded rows are delivered.
#[derive(Clone, Copy, Debug, PartialEq, Eq, Structural)]
pub enum OutputMode {
    /// Images or pages framed by protocol headers.
    Framed,
    /// One continuous receiver-style paper raster.
    ContinuousPaper,
}

/// The output mode a requested name selects; no name selects `framed`.
pub open spec fn output_mode_from(value: Option<Seq<char>>) -> Option<OutputMode> {
    match value {
        None => Some(OutputMode::Framed),
        Some(text) => if text == "framed"@ {
            Some(OutputMode::Framed)
        } else if text == "continuousPaper"@ {
            Some(OutputMode::ContinuousPaper)
        } else {
            None
        },
    }
}

/// The spec view of an optional owned string.
pub open spec fn opt_text(value: Option<String>) -> Option<Seq<char>> {
    match value {
        Some(s) => Some(s@),
        None => None,
    }
}

/// Reads the requested output mode.
pub fn parse_output_mode(value: &Option<String>) -> (r: Result<OutputMode, LibError>)
    ensures
        output_mode_from(opt_text(*value)) matches Some(m) ==> r == Ok::<OutputMode, LibError>(m),
        output_mode_from(opt_text(*value)) is None ==> r matches Err(LibError::OutputModeInvalid),
{
    match value {
        None => Ok(OutputMode::Framed),
        Some(text) => {
            if text_equals(text.as_str(), "framed") {
                Ok(OutputMode::Framed)
            } else if text_equals(text.as_str(), "continuousPaper") {
                Ok(OutputMode::ContinuousPaper)
            } else {
                Err(LibError::OutputModeInvalid)
            }
        },
    }
}

/// The queue capacity in samples: the requested one, or five seconds of
/// input (saturating) when none was requested.
pub open spec fn capacity_spec(requested: Option<u32>, input_sample_rate: u32) -> int {
    match requested {
        Some(c) => c as int,
        None => if input_sample_rate * 5 > u32::MAX {
            u32::MAX as int
        } else {
            input_sample_rate * 5
        },
    }
}

/// Resolves the queue capacity, refusing zero.
pub fn queue_capacity(requested: Option<u32>, input_sample_rate: u32) -> (r: Result<u32, LibError>)
    ensures
        capacity_spec(requested, input_sample_rate) == 0 ==> r matches Err(LibError::QueueCapacityZero),
        capacity_spec(requested, input_sample_rate) > 0 ==> r == Ok::<u32, LibError>(
            capacity_spec(requested, input_sample_rate) as u32,
        ),
{
    let capacity = match requested {
        Some(c) => c,
        None => {
            let five_seconds: u64 = input_sample_rate as u64 * 5;
            if five_seconds > u32::MAX as u64 {
                u32::MAX
            } else {
                five_seconds as u32
            }
        },
    };
    if capacity == 0 {
        return Err(LibError::QueueCapacityZero);
    }
    Ok(capacity)
}

/// The SSTV decoder options that decide its structure.
#[derive(Debug)]
pub struct SstvDecoderRequest {
    pub output_mode: Option<String>,
    pub fallback_mode: Option<JsSstvMode>,
    pub immediate_decode: Option<bool>,
    pub detect_vis: Option<bool>,
    pub detect_sync_timing: Option<bool>,
    pub manual_mode: Option<JsSstvMode>,
    pub queue_capacity_samples: Option<u32>,
}

/// How a continuous SSTV paper chooses its mode.
#[derive(Clone, Copy, Debug, PartialEq, Eq, Structural)]
pub enum SstvPaperModePlan {
    /// Print with `fallback` until a trusted header selects a mode.
    Auto { fallback: JsSstvMode },
    /// Keep printing the given mode.
    Manual { mode: JsSstvMode },
}

/// The codec an SSTV decoder is built around. A framed flag of `None` keeps
/// the codec's own default.
#[derive(Clone, Copy, Debug, PartialEq, Eq, Structural)]
pub enum SstvBackendPlan {
    Framed {
        immediate_decode: Option<bool>,
        detect_vis: Option<bool>,
        detect_sync_timing: Option<bool>,
        manual_mode: Option<JsSstvMode>,
    },
    Paper { mode: SstvPaperModePlan, detect_vis: bool, detect_sync_timing: bool },
}

/// A validated SSTV decoder configuration.
#[derive(Clone, Copy, Debug, PartialEq, Eq, Structural)]
pub struct SstvDecoderPlan {
    pub backend: SstvBackendPlan,
    pub queue_capacity: u32,
}

/// The value of an optional flag, or `default`.
pub open spec fn flag_or(value: Option<bool>, default: bool) -> bool {
    match value {
        Some(b) => b,
        None => default,
    }
}

/// The backend an accepted SSTV request selects.
pub open spec fn sstv_backend_spec(request: SstvDecoderRequest, output: OutputMode) -> SstvBackendPlan {
    match output {
        OutputMode::Framed => SstvBackendPlan::Framed {
            immediate_decode: request.immediate_decode,
            detect_vis: request.detect_vis,
            detect_sync_timing: request.detect_sync_timing,
            manual_mode: request.manual_mode,
        },
        OutputMode::ContinuousPaper => SstvBackendPlan::Paper {
            mode: match request.manual_mode {
                Some(m) => SstvPaperModePlan::Manual { mode: m },
                None => SstvPaperModePlan::Auto {
                    fallback: match request.fallback_mode {
                        Some(f) => f,
                        None => JsSstvMode::Robot36,
                    },
                },
            },
            detect_vis: flag_or(request.detect_vis, true),
            detect_sync_timing: flag_or(request.detect_sync_timing, true),
        },
    }
}

/// Validates an SSTV decoder request. Refusals come in this order: an
/// unknown output mode, `immediateDecode` with a continuous paper, a zero
/// queue capacity.
pub fn plan_sstv_decoder(request: &SstvDecoderRequest, input_sample_rate: u32) -> (r: Result<SstvDecoderPlan, LibError>)
    ensures
        output_mode_from(opt_text(request.output_mode)) is None ==> r matches Err(LibError::OutputModeInvalid),
        output_mode_from(opt_text(request.output_mode)) == Some(OutputMode::ContinuousPaper)
            && request.immediate_decode == Some(true) ==> r matches Err(LibError::ImmediateWithPaper),
        ({
            let out = output_mode_from(opt_text(request.output_mode));
            let cap = capacity_spec(request.queue_capacity_samples, input_sample_rate);
            out is Some && !(out == Some(OutputMode::ContinuousPaper) && request.immediate_decode == Some(true))
                ==> if cap == 0 {
                r matches Err(LibError::QueueCapacityZero)
            } else {
                r == Ok::<SstvDecoderPlan, LibError>(
                    SstvDecoderPlan { backend: sstv_backend_spec(*request, out->0), queue_capacity: cap as u32 },
                )
            }
        }),
{
    let output = match parse_output_mode(&request.output_mode) {
        Ok(m) => m,
        Err(e) => return Err(e),
    };
    if output == OutputMode::ContinuousPaper && request.immediate_decode == Some(true) {
        return Err(LibError::ImmediateWithPaper);
    }
    let capacity = match queue_capacity(request.queue_capacity_samples, input_sample_rate) {
        Ok(c) => c,
        Err(e) => return Err(e),
    };
    let backend = match output {
        OutputMode::Framed => SstvBackendPlan::Framed {
            immediate_decode: request.immediate_decode,
            detect_vis: request.detect_vis,
            detect_sync_timing: request.detect_sync_timing,
            manual_mode: request.manual_mode,
        },
        OutputMode::ContinuousPaper => {
            let mode = match request.manual_mode {
                Some(m) => SstvPaperModePlan::Manual { mode: m },
                None => SstvPaperModePlan::Auto {
                    fallback: match request.fallback_mode {
                        Some(f) => f,
                        None => JsSstvMode::Robot36,
                    },
                },
            };
            SstvBackendPlan::Paper {
                mode,
                detect_vis: match request.detect_vis {
                    Some(b) => b,
                    None => true,
                },
                detect_sync_timing: match request.detect_sync_timing {
                    Some(b) => b,
                    None => true,
                },
            }
        },
    };
    Ok(SstvDecoderPlan { backend, queue_capacity: capacity })
}

/// Radiofax subcarrier modulation.
#[derive(Clone, Copy, Debug, PartialEq, Eq, Structural)]
pub enum ModulationKind {
    Fm,
    Am,
}

/// The modulation a requested kind names.
pub open spec fn modulation_from(text: Seq<char>) -> Option<ModulationKind> {
    if text == "fm"@ || text == "fmSubcarrier"@ {
        Some(ModulationKind::Fm)
    } else if text == "am"@ || text == "amSubcarrier"@ {
        Some(ModulationKind::Am)
    } else {
        None
    }
}

/// The published name of a modulation.
pub open spec fn modulation_label(kind: ModulationKind) -> Seq<char> {
    match kind {
        ModulationKind::Fm => "fm"@,
        ModulationKind::Am => "am"@,
    }
}

/// Names a modulation.
pub fn modulation_name(kind: ModulationKind) -> (r: &'static str)
    ensures
        r@ == modulation_label(kind),
{
    match kind {
        ModulationKind::Fm => "fm",
        ModulationKind::Am => "am",
    }
}

/// Reads a requested modulation kind; an unknown kind is refused with its text.
pub fn parse_modulation_kind(kind: &str) -> (r: Result<ModulationKind, LibError>)
    ensures
        modulation_from(kind@) matches Some(m) ==> r == Ok::<ModulationKind, LibError>(m),
        modulation_from(kind@) is None ==> (r matches Err(LibError::ModulationUnsupported(t)) && t@ == kind@),
{
    if text_equals(kind, "fm") || text_equals(kind, "fmSubcarrier") {
        Ok(ModulationKind::Fm)
    } else if text_equals(kind, "am") || text_equals(kind, "amSubcarrier") {
        Ok(ModulationKind::Am)
    } else {
        Err(LibError::ModulationUnsupported(kind.to_owned()))
    }
}

/// A published modulation name reads back as the modulation it names.
pub proof fn lemma_modulation_names_round_trip(kind: ModulationKind)
    ensures
        modulation_from(modulation_label(kind)) == Some(kind),
{
    reveal_strlit("fm");
    reveal_strlit("am");
    reveal_strlit("fmSubcarrier");
    reveal_strlit("amSubcarrier");
    assert("fm"@.len() == 2);
    assert("am"@[0] != "fm"@[0]);
    assert("am"@.len() != "fmSubcarrier"@.len());
    assert("fm"@.len() != "amSubcarrier"@.len());
}

/// Parses an optional modulation kind.
fn parse_optional_modulation(kind: &Option<String>) -> (r: Result<Option<ModulationKind>, LibError>)
    ensures
        kind is None ==> r == Ok::<Option<ModulationKind>, LibError>(None),
        kind is Some && modulation_from(kind->0@) is Some ==> r == Ok::<Option<ModulationKind>, LibError>(
            modulation_from(kind->0@),
        ),
        kind is Some && modulation_from(kind->0@) is None ==> (r matches Err(LibError::ModulationUnsupported(t))
            && t@ == kind->0@),
{
    match kind {
        None => Ok(None),
        Some(text) => match parse_modulation_kind(text.as_str()) {
            Ok(m) => Ok(Some(m)),
            Err(e) => Err(e),
        },
    }
}

/// Automatic radiofax clock-recovery policy.
#[derive(Clone, Copy, Debug, PartialEq, Eq, Structural)]
pub enum ClockRecoveryPlan {
    Auto,
    Off,
}

/// The clock-recovery policy a requested name selects; no name selects `auto`.
pub open spec fn clock_recovery_from(value: Option<Seq<char>>) -> Option<ClockRecoveryPlan> {
    match value {
        None => Some(ClockRecoveryPlan::Auto),
        Some(text) => if text == "auto"@ {
            Some(ClockRecoveryPlan::Auto)
        } else if text == "off"@ {
            Some(ClockRecoveryPlan::Off)
        } else {
            None
        },
    }
}

/// Reads the requested clock-recovery policy.
pub fn parse_clock_recovery(value: &Option<String>) -> (r: Result<ClockRecoveryPlan, LibError>)
    ensures
        clock_recovery_from(opt_text(*value)) matches Some(m) ==> r == Ok::<ClockRecoveryPlan, LibError>(m),
        clock_recovery_from(opt_text(*value)) is None ==> r matches Err(LibError::ClockRecoveryInvalid),
{
    match value {
        None => Ok(ClockRecoveryPlan::Auto),
        Some(text) => {
            if text_equals(text.as_str(), "auto") {
                Ok(ClockRecoveryPlan::Auto)
            } else if text_equals(text.as_str(), "off") {
                Ok(ClockRecoveryPlan::Off)
            } else {
                Err(LibError::ClockRecoveryInvalid)
            }
        },
    }
}

/// The radiofax decoder options that decide its structure.
#[derive(Debug)]
pub struct FaxDecoderRequest {
    pub output_mode: Option<String>,
    pub clock_recovery: Option<String>,
    pub continuous_auto: Option<bool>,
    /// Kind of the AM candidate evaluated by an automatic paper.
    pub auto_am_modulation: Option<String>,
    pub immediate_decode: Option<bool>,
    pub ioc: Option<JsFaxIoc>,
    pub lpm: Option<u32>,
    /// Kind of the expected modulation.
    pub modulation: Option<String>,
    pub max_lines: Option<u32>,
    pub queue_capacity_samples: Option<u32>,
}

/// The codec a radiofax decoder is built around. A modulation of `None`
/// stands for the WMO FM default.
#[derive(Clone, Copy, Debug, PartialEq, Eq, Structural)]
pub enum FaxBackendPlan {
    Framed {
        immediate_decode: bool,
        ioc: Option<JsFaxIoc>,
        lpm: Option<u16>,
        modulation: Option<ModulationKind>,
        max_lines: Option<u32>,
    },
    Paper {
        auto: bool,
        fallback_ioc: JsFaxIoc,
        fallback_lpm: u16,
        fallback_modulation: Option<ModulationKind>,
        auto_am_modulation: Option<ModulationKind>,
    },
}

/// A validated radiofax decoder configuration.
#[derive(Clone, Copy, Debug, PartialEq, Eq, Structural)]
pub struct FaxDecoderPlan {
    pub backend: FaxBackendPlan,
    pub clock_recovery: ClockRecoveryPlan,
    pub queue_capacity: u32,
}

/// The line rate a request resolves to, if it names an acceptable one.
pub open spec fn lpm_accepted(value: u32) -> bool {
    30 <= value <= 480
}

/// Validates a radiofax decoder request. Refusals come in this order: an
/// unknown output mode, `immediateDecode` or `maxLines` with a continuous
/// paper, an unknown clock-recovery policy, an unacceptable line rate, an
/// unknown modulation, a zero queue capacity, an unknown AM candidate.
pub fn plan_fax_decoder(request: &FaxDecoderRequest, input_sample_rate: u32) -> (r: Result<FaxDecoderPlan, LibError>)
    ensures
        ({
            let out = output_mode_from(opt_text(request.output_mode));
            let paper = out == Some(OutputMode::ContinuousPaper);
            let clock = clock_recovery_from(opt_text(request.clock_recovery));
            let lpm_ok = match request.lpm {
                Some(v) => lpm_accepted(v),
                None => true,
            };
            let modulation_ok = match request.modulation {
                Some(k) => modulation_from(k@) is Some,
                None => true,
            };
            let cap = capacity_spec(request.queue_capacity_samples, input_sample_rate);
            let am_ok = match request.auto_am_modulation {
                Some(k) => modulation_from(k@) is Some,
                None => true,
            };
            &&& out is None ==> (r matches Err(LibError::OutputModeInvalid))
            &&& out is Some && paper && request.immediate_decode == Some(true) ==> (r matches Err(LibError::ImmediateWithPaper))
            &&& out is Some && paper && request.immediate_decode != Some(true) && request.max_lines is Some
                ==> (r matches Err(LibError::MaxLinesWithPaper))
            &&& out is Some && !(paper && (request.immediate_decode == Some(true) || request.max_lines is Some))
                && clock is None ==> (r matches Err(LibError::ClockRecoveryInvalid))
            &&& out is Some && !(paper && (request.immediate_decode == Some(true) || request.max_lines is Some))
                && clock is Some && !lpm_ok ==> (if request.lpm->0 > u16::MAX {
                    r matches Err(LibError::LpmTooLarge)
                } else {
                    r matches Err(LibError::CodecRejected(_))
                })
            &&& out is Some && !(paper && (request.immediate_decode == Some(true) || request.max_lines is Some))
                && clock is Some && lpm_ok && !modulation_ok ==> (r matches Err(LibError::ModulationUnsupported(_)))
            &&& out is Some && !(paper && (request.immediate_decode == Some(true) || request.max_lines is Some))
                && clock is Some && lpm_ok && modulation_ok && cap == 0 ==> (r matches Err(LibError::QueueCapacityZero))
            &&& out is Some && !(paper && (request.immediate_decode == Some(true) || request.max_lines is Some))
                && clock is Some && lpm_ok && modulation_ok && cap > 0 && paper && !am_ok
                ==> (r matches Err(LibError::ModulationUnsupported(_)))
            &&& r is Ok <==> (out is Some && !(paper && (request.immediate_decode == Some(true)
                || request.max_lines is Some)) && clock is Some && lpm_ok && modulation_ok && cap > 0
                && (paper ==> am_ok))
            &&& r matches Ok(plan) ==> {
                &&& plan.clock_recovery == clock->0
                &&& plan.queue_capacity == cap
                &&& plan.backend == fax_backend_spec(*request, paper)
            }
        }),
{
    let output = match parse_output_mode(&request.output_mode) {
        Ok(m) => m,
        Err(e) => return Err(e),
    };
    let paper = output == OutputMode::ContinuousPaper;
    if paper && request.immediate_decode == Some(true) {
        return Err(LibError::ImmediateWithPaper);
    }
    if paper && request.max_lines.is_some() {
        return Err(LibError::MaxLinesWithPaper);
    }
    let clock_recovery = match parse_clock_recovery(&request.clock_recovery) {
        Ok(c) => c,
        Err(e) => return Err(e),
    };
    let lpm = match request.lpm {
        None => None,
        Some(value) => match fax_lpm(value) {
            Ok(v) => Some(v),
            Err(e) => return Err(e),
        },
    };
    let modulation = match parse_optional_modulation(&request.modulation) {
        Ok(m) => m,
        Err(e) => return Err(e),
    };
    let capacity = match queue_capacity(request.queue_capacity_samples, input_sample_rate) {
        Ok(c) => c,
        Err(e) => return Err(e),
    };
    let backend = if paper {
        let auto_am_modulation = match parse_optional_modulation(&request.auto_am_modulation) {
            Ok(m) => m,
            Err(e) => return Err(e),
        };
        FaxBackendPlan::Paper {
            auto: match request.continuous_auto {
                Some(b) => b,
                None => true,
            },
            fallback_ioc: match request.ioc {
                Some(i) => i,
                None => JsFaxIoc::Ioc576,
            },
            fallback_lpm: match lpm {
                Some(v) => v,
                None => 120,
            },
            fallback_modulation: modulation,
            auto_am_modulation,
        }
    } else {
        FaxBackendPlan::Framed {
            immediate_decode: match request.immediate_decode {
                Some(b) => b,
                None => false,
            },
            ioc: request.ioc,
            lpm,
            modulation,
            max_lines: request.max_lines,
        }
    };
    Ok(FaxDecoderPlan { backend, clock_recovery, queue_capacity: capacity })
}

/// The optional modulation a requested kind resolves to.
pub open spec fn opt_modulation(kind: Option<String>) -> Option<ModulationKind> {
    match kind {
        Some(k) => modulation_from(k@),
        None => None,
    }
}

/// The backend an accepted radiofax request selects.
pub open spec fn fax_backend_spec(request: FaxDecoderRequest, paper: bool) -> FaxBackendPlan {
    let lpm = match request.lpm {
        Some(v) => Some(v as u16),
        None => None,
    };
    if paper {
        FaxBackendPlan::Paper {
            auto: flag_or(request.continuous_auto, true),
            fallback_ioc: match request.ioc {
                Some(i) => i,
                None => JsFaxIoc::Ioc576,
            },
            fallback_lpm: match lpm {
                Some(v) => v,
                None => 120,
            },
            fallback_modulation: opt_modulation(request.modulation),
            auto_am_modulation: opt_modulation(request.auto_am_modulation),
        }
    } else {
        FaxBackendPlan::Framed {
            immediate_decode: flag_or(request.immediate_decode, false),
            ioc: request.ioc,
            lpm,
            modulation: opt_modulation(request.modulation),
            max_lines: request.max_lines,
        }
    }
}

/// A validated radiofax transmission specification. A modulation of `None`
/// stands for the WMO FM default.
#[derive(Clone, Copy, Debug, PartialEq, Eq, Structural)]
pub struct FaxSpecPlan {
    pub lpm: u16,
    pub modulation: Option<ModulationKind>,
}

/// Validates the line rate, then the modulation kind, of a radiofax
/// transmission specification.
pub fn plan_fax_spec(lpm: u32, modulation: &Option<String>) -> (r: Result<FaxSpecPlan, LibError>)
    ensures
        lpm > u16::MAX ==> r matches Err(LibError::LpmTooLarge),
        lpm <= u16::MAX && !lpm_accepted(lpm) ==> r matches Err(LibError::CodecRejected(_)),
        lpm_accepted(lpm) && modulation is Some && modulation_from(modulation->0@) is None ==> (r matches Err(
            LibError::ModulationUnsupported(t),
        ) && t@ == modulation->0@),
        lpm_accepted(lpm) && !(modulation is Some && modulation_from(modulation->0@) is None) ==> r
            == Ok::<FaxSpecPlan, LibError>(FaxSpecPlan { lpm: lpm as u16, modulation: opt_modulation(*modulation) }),
{
    let lpm = match fax_lpm(lpm) {
        Ok(v) => v,
        Err(e) => return Err(e),
    };
    match parse_optional_modulation(modulation) {
        Ok(m) => Ok(FaxSpecPlan { lpm, modulation: m }),
        Err(e) => Err(e),
    }
}

/// A requested station identifier.
#[derive(Debug)]
pub struct StationIdRequest {
    pub kind: String,
    pub callsign: Option<String>,
    pub wpm: Option<u32>,
}

/// A validated station identifier; the CW tone is chosen by the caller.
#[derive(Debug)]
pub enum StationIdPlan {
    Omitted,
    Fsk { callsign: String },
    Cw { callsign: String, wpm: u16 },
}

/// Validates a requested station identifier: no request, or kind `none`,
/// appends nothing; `fsk` and `cw` need a callsign; a CW speed defaults to 20
/// words per minute and must fit sixteen bits.
pub fn plan_station_id(request: Option<StationIdRequest>) -> (r: Result<StationIdPlan, LibError>)
    ensures
        request is None ==> r matches Ok(StationIdPlan::Omitted),
        request matches Some(q) ==> {
            if q.kind@ == "none"@ {
                r matches Ok(StationIdPlan::Omitted)
            } else if q.kind@ == "fsk"@ {
                match q.callsign {
                    Some(c) => r matches Ok(StationIdPlan::Fsk { callsign }) && callsign == c,
                    None => r matches Err(LibError::FskCallsignMissing),
                }
            } else if q.kind@ == "cw"@ {
                match q.callsign {
                    None => r matches Err(LibError::CwCallsignMissing),
                    Some(c) => {
                        let wpm = match q.wpm {
                            Some(w) => w,
                            None => 20,
                        };
                        if wpm > u16::MAX {
                            r matches Err(LibError::CwWpmOutOfRange)
                        } else {
                            r matches Ok(StationIdPlan::Cw { callsign, wpm: w }) && callsign == c && w == wpm
                        }
                    },
                }
            } else {
                r matches Err(LibError::StationKindInvalid)
            }
        },
{
    match request {
        None => Ok(StationIdPlan::Omitted),
        Some(q) => {
            if text_equals(q.kind.as_str(), "none") {
                Ok(StationIdPlan::Omitted)
            } else if text_equals(q.kind.as_str(), "fsk") {
                match q.callsign {
                    Some(callsign) => Ok(StationIdPlan::Fsk { callsign }),
                    None => Err(LibError::FskCallsignMissing),
                }
            } else if text_equals(q.kind.as_str(), "cw") {
                match q.callsign {
                    None => Err(LibError::CwCallsignMissing),
                    Some(callsign) => {
                        let wpm = match q.wpm {
                            Some(w) => w,
                            None => 20,
                        };
                        if wpm > u16::MAX as u32 {
                            Err(LibError::CwWpmOutOfRange)
                        } else {
                            Ok(StationIdPlan::Cw { callsign, wpm: wpm as u16 })
                        }
                    },
                }
            } else {
                Err(LibError::StationKindInvalid)
            }
        },
    }
}

/// Output modes are chosen by name: no name or `framed` selects framed
/// output, `continuousPaper` a continuous paper, and any other name none.
pub proof fn lemma_output_mode_names()
    ensures
        output_mode_from(None) == Some(OutputMode::Framed),
        output_mode_from(Some("framed"@)) == Some(OutputMode::Framed),
        output_mode_from(Some("continuousPaper"@)) == Some(OutputMode::ContinuousPaper),
        forall|t: Seq<char>| t != "framed"@ && t != "continuousPaper"@ ==> output_mode_from(Some(t)) is None,
{
    reveal_strlit("framed");
    reveal_strlit("continuousPaper");
    assert("framed"@.len() == 6);
    assert("continuousPaper"@.len() == 15);
}

/// Clock recovery is on unless it is switched off by name: no name or `auto`
/// selects automatic recovery, only `off` disables it, and any other name is
/// refused.
pub proof fn lemma_clock_recovery_names()
    ensures
        clock_recovery_from(None) == Some(ClockRecoveryPlan::Auto),
        clock_recovery_from(Some("auto"@)) == Some(ClockRecoveryPlan::Auto),
        clock_recovery_from(Some("off"@)) == Some(ClockRecoveryPlan::Off),
        forall|t: Seq<char>| t != "auto"@ && t != "off"@ ==> clock_recovery_from(Some(t)) is None,
{
    reveal_strlit("auto");
    reveal_strlit("off");
    assert("auto"@.len() == 4);
    assert("off"@.len() == 3);
}

/// Modulations are named `fm` (or `fmSubcarrier`) and `am` (or
/// `amSubcarrier`), published as `fm` and `am`, and any other name is
/// refused.
pub proof fn lemma_modulation_names()
    ensures
        modulation_from("fm"@) == Some(ModulationKind::Fm),
        modulation_from("fmSubcarrier"@) == Some(ModulationKind::Fm),
        modulation_from("am"@) == Some(ModulationKind::Am),
        modulation_from("amSubcarrier"@) == Some(ModulationKind::Am),
        forall|t: Seq<char>| t != "fm"@ && t != "fmSubcarrier"@ && t != "am"@ && t != "amSubcarrier"@
            ==> modulation_from(t) is None,
        modulation_label(ModulationKind::Fm) == "fm"@,
        modulation_label(ModulationKind::Am) == "am"@,
        modulation_label(ModulationKind::Fm) != modulation_label(ModulationKind::Am),
{
    reveal_strlit("fm");
    reveal_strlit("am");
    reveal_strlit("fmSubcarrier");
    reveal_strlit("amSubcarrier");
    assert("fm"@[0] == 'f');
    assert("am"@[0] == 'a');
    assert("fm"@.len() == 2);
    assert("am"@.len() == 2);
    assert("fmSubcarrier"@.len() == 12);
    assert("amSubcarrier"@.len() == 12);
    assert("fmSubcarrier"@[0] == 'f');
    assert("amSubcarrier"@[0] == 'a');
}

/// The input queue holds the requested number of samples, or five seconds
/// of input when none is requested, capped at `u32::MAX`.
pub proof fn lemma_capacity_default(requested: Option<u32>, input_sample_rate: u32)
    ensures
        requested matches Some(c) ==> capacity_spec(requested, input_sample_rate) == c,
        requested is None && 5 * input_sample_rate <= u32::MAX ==> capacity_spec(requested, input_sample_rate) == 5
            * input_sample_rate,
        requested is None && 5 * input_sample_rate > u32::MAX ==> capacity_spec(requested, input_sample_rate)
            == u32::MAX,
{
}

/// A radiofax line rate is accepted exactly from 30 to 480 lines per minute.
pub proof fn lemma_lpm_range(value: u32)
    ensures
        lpm_accepted(value) <==> (30 <= value && value <= 480),
{
}

/// What an SSTV request selects: framed output keeps each requested flag and
/// manual mode as given; a continuous paper prints the manual mode when one is
/// given, and otherwise the fallback mode, Robot 36 when none is given, with
/// VIS and sync-timing detection on unless switched off.
pub proof fn lemma_sstv_backend(request: SstvDecoderRequest)
    ensures
        sstv_backend_spec(request, OutputMode::Framed) == (SstvBackendPlan::Framed {
            immediate_decode: request.immediate_decode,
            detect_vis: request.detect_vis,
            detect_sync_timing: request.detect_sync_timing,
            manual_mode: request.manual_mode,
        }),
        (match sstv_backend_spec(request, OutputMode::ContinuousPaper) {
            SstvBackendPlan::Paper { mode, detect_vis, detect_sync_timing } => {
                &&& detect_vis == (request.detect_vis != Some(false))
                &&& detect_sync_timing == (request.detect_sync_timing != Some(false))
                &&& request.manual_mode matches Some(m) ==> mode == (SstvPaperModePlan::Manual { mode: m })
                &&& request.manual_mode is None ==> mode == (SstvPaperModePlan::Auto {
                    fallback: if request.fallback_mode is Some { request.fallback_mode->0 } else { JsSstvMode::Robot36 },
                })
            },
            _ => false,
        }),
{
}

/// What a radiofax request selects: a continuous paper starts from the
/// requested IOC (576 when none), line rate (120 when none) and modulation,
/// searching automatically unless that is switched off; framed output takes
/// the requested IOC, line rate, modulation and line limit, and decodes
/// immediately only when asked to.
pub proof fn lemma_fax_backend(request: FaxDecoderRequest)
    ensures
        (match fax_backend_spec(request, true) {
            FaxBackendPlan::Paper { auto, fallback_ioc, fallback_lpm, fallback_modulation, auto_am_modulation } => {
                &&& auto == (request.continuous_auto != Some(false))
                &&& request.ioc matches Some(i) ==> fallback_ioc == i
                &&& request.ioc is None ==> fallback_ioc == JsFaxIoc::Ioc576
                &&& request.lpm matches Some(v) ==> fallback_lpm == v as u16
                &&& request.lpm is None ==> fallback_lpm == 120
                &&& fallback_modulation == opt_modulation(request.modulation)
                &&& auto_am_modulation == opt_modulation(request.auto_am_modulation)
            },
            _ => false,
        }),
        (match fax_backend_spec(request, false) {
            FaxBackendPlan::Framed { immediate_decode, ioc, lpm, modulation, max_lines } => {
                &&& immediate_decode == (request.immediate_decode == Some(true))
                &&& ioc == request.ioc
                &&& request.lpm matches Some(v) ==> lpm == Some(v as u16)
                &&& request.lpm is None ==> lpm is None
                &&& modulation == opt_modulation(request.modulation)
                &&& max_lines == request.max_lines
            },
            _ => false,
        }),
{
}

} // verus!
