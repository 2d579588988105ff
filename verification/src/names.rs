use vstd::prelude::*;

verus! {

/// Synchronization state of an SSTV decoder.
#[derive(Clone, Copy, Debug, PartialEq, Eq, Structural)]
pub enum SyncStateKind {
    Searching,
    ReadingVis,
    Confirming,
    Locked,
    Finished,
}

/// The code under which a synchronization state is stored.
pub open spec fn sync_state_code_spec(state: SyncStateKind) -> u64 {
    match state {
        SyncStateKind::Searching => 0,
        SyncStateKind::ReadingVis => 1,
        SyncStateKind::Confirming => 2,
        SyncStateKind::Locked => 3,
        SyncStateKind::Finished => 4,
    }
}

/// The published name of a synchronization state.
pub open spec fn sync_state_label(state: SyncStateKind) -> Seq<char> {
    match state {
        SyncStateKind::Searching => "searching"@,
        SyncStateKind::ReadingVis => "readingVis"@,
        SyncStateKind::Confirming => "confirming"@,
        SyncStateKind::Locked => "locked"@,
        SyncStateKind::Finished => "finished"@,
    }
}

/// The name reported for a stored code; an unknown code reads as searching.
pub open spec fn sync_state_name_spec(code: u64) -> Seq<char> {
    if code == 1 {
        "readingVis"@
    } else if code == 2 {
        "confirming"@
    } else if code == 3 {
        "locked"@
    } else if code == 4 {
        "finished"@
    } else {
        "searching"@
    }
}

/// Stores a synchronization state as its code.
pub fn sync_state_code(state: SyncStateKind) -> (r: u64)
    ensures
        r == sync_state_code_spec(state),
{
    match state {
        SyncStateKind::Searching => 0,
        SyncStateKind::ReadingVis => 1,
        SyncStateKind::Confirming => 2,
        SyncStateKind::Locked => 3,
        SyncStateKind::Finished => 4,
    }
}

/// Names a stored synchronization-state code.
pub fn sync_state_name(code: u64) -> (r: &'static str)
    ensures
        r@ == sync_state_name_spec(code),
{
    match code {
        1 => "readingVis",
        2 => "confirming",
        3 => "locked",
        4 => "finished",
        _ => "searching",
    }
}

/// A stored synchronization state is reported under its own name.
pub proof fn lemma_sync_state_round_trip(state: SyncStateKind)
    ensures
        sync_state_name_spec(sync_state_code_spec(state)) == sync_state_label(state),
{
}

/// Portion of an SSTV transmission an encoder is producing.
#[derive(Clone, Copy, Debug, PartialEq, Eq, Structural)]
pub enum EncoderStageKind {
    Preamble,
    Vis,
    Raster,
    StationId,
    Guard,
    Finished,
}

/// The code under which an encoder stage is stored.
pub open spec fn encoder_stage_code_spec(stage: EncoderStageKind) -> u8 {
    match stage {
        EncoderStageKind::Preamble => 0,
        EncoderStageKind::Vis => 1,
        EncoderStageKind::Raster => 2,
        EncoderStageKind::StationId => 3,
        EncoderStageKind::Guard => 4,
        EncoderStageKind::Finished => 5,
    }
}

/// The published name of an encoder stage.
pub open spec fn encoder_stage_label(stage: EncoderStageKind) -> Seq<char> {
    match stage {
        EncoderStageKind::Preamble => "preamble"@,
        EncoderStageKind::Vis => "vis"@,
        EncoderStageKind::Raster => "raster"@,
        EncoderStageKind::StationId => "stationId"@,
        EncoderStageKind::Guard => "guard"@,
        EncoderStageKind::Finished => "finished"@,
    }
}

/// The name reported for a stored stage code; an unknown code reads as finished.
pub open spec fn encoder_stage_name_spec(code: u8) -> Seq<char> {
    if code == 0 {
        "preamble"@
    } else if code == 1 {
        "vis"@
    } else if code == 2 {
        "raster"@
    } else if code == 3 {
        "stationId"@
    } else if code == 4 {
        "guard"@
    } else {
        "finished"@
    }
}

/// Stores an encoder stage as its code.
pub fn encoder_stage_code(stage: EncoderStageKind) -> (r: u8)
    ensures
        r == encoder_stage_code_spec(stage),
{
    match stage {
        EncoderStageKind::Preamble => 0,
        EncoderStageKind::Vis => 1,
        EncoderStageKind::Raster => 2,
        EncoderStageKind::StationId => 3,
        EncoderStageKind::Guard => 4,
        EncoderStageKind::Finished => 5,
    }
}

/// Names a stored encoder-stage code.
pub fn encoder_stage_name_from_code(code: u8) -> (r: &'static str)
    ensures
        r@ == encoder_stage_name_spec(code),
{
    match code {
        0 => "preamble",
        1 => "vis",
        2 => "raster",
        3 => "stationId",
        4 => "guard",
        _ => "finished",
    }
}

/// A stored encoder stage is reported under its own name.
pub proof fn lemma_encoder_stage_round_trip(stage: EncoderStageKind)
    ensures
        encoder_stage_name_spec(encoder_stage_code_spec(stage)) == encoder_stage_label(stage),
{
}

/// The stored form of an encoder's current row: the row, or -1 before the raster.
pub open spec fn current_row_code_spec(row: Option<u32>) -> i64 {
    match row {
        Some(r) => r as i64,
        None => -1i64,
    }
}

/// The row a stored code stands for.
pub open spec fn current_row_from_code_spec(code: i64) -> Option<u32> {
    if code == -1i64 {
        None
    } else {
        Some(code as u32)
    }
}

/// Stores an encoder's current row.
pub fn current_row_code(row: Option<u32>) -> (r: i64)
    ensures
        r == current_row_code_spec(row),
{
    match row {
        Some(value) => value as i64,
        None => -1i64,
    }
}

/// Reads an encoder's current row back from its stored code.
pub fn current_row_from_code(code: i64) -> (r: Option<u32>)
    ensures
        r == current_row_from_code_spec(code),
{
    if code == -1i64 {
        None
    } else {
        Some(code as u32)
    }
}

/// A stored current row reads back unchanged.
pub proof fn lemma_current_row_round_trip(row: Option<u32>)
    ensures
        current_row_from_code_spec(current_row_code_spec(row)) == row,
{
}

/// Whether a decoded scan line may still be revised.
#[derive(Clone, Copy, Debug, PartialEq, Eq, Structural)]
pub enum LineCompletenessKind {
    Provisional,
    Final,
}

/// The published name of a line completeness.
pub open spec fn line_completeness_label(value: LineCompletenessKind) -> Seq<char> {
    match value {
        LineCompletenessKind::Provisional => "provisional"@,
        LineCompletenessKind::Final => "final"@,
    }
}

/// Names a line completeness.
pub fn line_completeness_name(value: LineCompletenessKind) -> (r: &'static str)
    ensures
        r@ == line_completeness_label(value),
{
    match value {
        LineCompletenessKind::Provisional => "provisional",
        LineCompletenessKind::Final => "final",
    }
}

/// Why a divider was inserted into a continuous paper raster. `Other` stands
/// for a kind that a newer codec introduced.
#[derive(Clone, Copy, Debug, PartialEq, Eq, Structural)]
pub enum BoundaryKind {
    Initial,
    Vis,
    SyncTiming,
    AptPhasing,
    ProtocolEnd,
    Discontinuity,
    Reset,
    Other,
}

/// The published name of a boundary kind.
pub open spec fn boundary_label(kind: BoundaryKind) -> Seq<char> {
    match kind {
        BoundaryKind::Initial => "initial"@,
        BoundaryKind::Vis => "vis"@,
        BoundaryKind::SyncTiming => "syncTiming"@,
        BoundaryKind::AptPhasing => "aptPhasing"@,
        BoundaryKind::ProtocolEnd => "protocolEnd"@,
        BoundaryKind::Discontinuity => "discontinuity"@,
        BoundaryKind::Reset => "reset"@,
        BoundaryKind::Other => "unknown"@,
    }
}

/// Names a boundary kind.
pub fn paper_boundary_name(kind: BoundaryKind) -> (r: &'static str)
    ensures
        r@ == boundary_label(kind),
{
    match kind {
        BoundaryKind::Initial => "initial",
        BoundaryKind::Vis => "vis",
        BoundaryKind::SyncTiming => "syncTiming",
        BoundaryKind::AptPhasing => "aptPhasing",
        BoundaryKind::ProtocolEnd => "protocolEnd",
        BoundaryKind::Discontinuity => "discontinuity",
        BoundaryKind::Reset => "reset",
        BoundaryKind::Other => "unknown",
    }
}

/// Why an SSTV image ended early. `Other` stands for a reason that a newer
/// codec introduced.
#[derive(Clone, Copy, Debug, PartialEq, Eq, Structural)]
pub enum AbortReasonKind {
    InputDiscontinuity,
    EndOfInput,
    Reset,
    SyncLost,
    Other,
}

/// The published name of an abort reason.
pub open spec fn abort_reason_label(reason: AbortReasonKind) -> Seq<char> {
    match reason {
        AbortReasonKind::InputDiscontinuity => "inputDiscontinuity"@,
        AbortReasonKind::EndOfInput => "endOfInput"@,
        AbortReasonKind::Reset => "reset"@,
        AbortReasonKind::SyncLost => "syncLost"@,
        AbortReasonKind::Other => "unknown"@,
    }
}

/// Names an abort reason.
pub fn abort_reason_name(reason: AbortReasonKind) -> (r: &'static str)
    ensures
        r@ == abort_reason_label(reason),
{
    match reason {
        AbortReasonKind::InputDiscontinuity => "inputDiscontinuity",
        AbortReasonKind::EndOfInput => "endOfInput",
        AbortReasonKind::Reset => "reset",
        AbortReasonKind::SyncLost => "syncLost",
        AbortReasonKind::Other => "unknown",
    }
}

/// Pixel-domain representation of an SSTV mode.
#[derive(Clone, Copy, Debug, PartialEq, Eq, Structural)]
pub enum ColorLayoutKind {
    Monochrome,
    Rgb,
    Yuv,
}

/// The published name of a color layout.
pub open spec fn color_layout_label(value: ColorLayoutKind) -> Seq<char> {
    match value {
        ColorLayoutKind::Monochrome => "monochrome"@,
        ColorLayoutKind::Rgb => "rgb"@,
        ColorLayoutKind::Yuv => "yuv"@,
    }
}

/// Names a color layout.
pub fn color_layout_name(value: ColorLayoutKind) -> (r: &'static str)
    ensures
        r@ == color_layout_label(value),
{
    match value {
        ColorLayoutKind::Monochrome => "monochrome",
        ColorLayoutKind::Rgb => "rgb",
        ColorLayoutKind::Yuv => "yuv",
    }
}

/// Scan organization of an SSTV mode.
#[derive(Clone, Copy, Debug, PartialEq, Eq, Structural)]
pub enum ScanLayoutKind {
    Monochrome,
    Martin,
    Scottie,
    Robot,
    Pd,
    Wraase,
    Pasokon,
}

/// The published name of a scan layout.
pub open spec fn scan_layout_label(value: ScanLayoutKind) -> Seq<char> {
    match value {
        ScanLayoutKind::Monochrome => "monochrome"@,
        ScanLayoutKind::Martin => "martin"@,
        ScanLayoutKind::Scottie => "scottie"@,
        ScanLayoutKind::Robot => "robot"@,
        ScanLayoutKind::Pd => "pd"@,
        ScanLayoutKind::Wraase => "wraase"@,
        ScanLayoutKind::Pasokon => "pasokon"@,
    }
}

/// Names a scan layout.
pub fn scan_layout_name(value: ScanLayoutKind) -> (r: &'static str)
    ensures
        r@ == scan_layout_label(value),
{
    match value {
        ScanLayoutKind::Monochrome => "monochrome",
        ScanLayoutKind::Martin => "martin",
        ScanLayoutKind::Scottie => "scottie",
        ScanLayoutKind::Robot => "robot",
        ScanLayoutKind::Pd => "pd",
        ScanLayoutKind::Wraase => "wraase",
        ScanLayoutKind::Pasokon => "pasokon",
    }
}

/// Evidence level of a built-in SSTV mode profile.
#[derive(Clone, Copy, Debug, PartialEq, Eq, Structural)]
pub enum ModeStatusKind {
    Canonical,
    Compatibility,
}

/// The published name of a mode status.
pub open spec fn mode_status_label(value: ModeStatusKind) -> Seq<char> {
    match value {
        ModeStatusKind::Canonical => "canonical"@,
        ModeStatusKind::Compatibility => "compatibility"@,
    }
}

/// Names a mode status.
pub fn mode_status_name(value: ModeStatusKind) -> (r: &'static str)
    ensures
        r@ == mode_status_label(value),
{
    match value {
        ModeStatusKind::Canonical => "canonical",
        ModeStatusKind::Compatibility => "compatibility",
    }
}

/// Each synchronization state is published under its own name, and each
/// stored code reads back under the name of the state that stores it.
pub proof fn lemma_sync_state_names()
    ensures
        sync_state_label(SyncStateKind::Searching) == "searching"@,
        sync_state_label(SyncStateKind::ReadingVis) == "readingVis"@,
        sync_state_label(SyncStateKind::Confirming) == "confirming"@,
        sync_state_label(SyncStateKind::Locked) == "locked"@,
        sync_state_label(SyncStateKind::Finished) == "finished"@,
        sync_state_code_spec(SyncStateKind::Searching) == 0,
        sync_state_code_spec(SyncStateKind::ReadingVis) == 1,
        sync_state_code_spec(SyncStateKind::Confirming) == 2,
        sync_state_code_spec(SyncStateKind::Locked) == 3,
        sync_state_code_spec(SyncStateKind::Finished) == 4,
        forall|code: u64| code > 4 ==> sync_state_name_spec(code) == "searching"@,
        forall|a: SyncStateKind, b: SyncStateKind| sync_state_label(a) == sync_state_label(b) ==> a == b,
{
    reveal_strlit("searching");
    reveal_strlit("readingVis");
    reveal_strlit("confirming");
    reveal_strlit("locked");
    reveal_strlit("finished");
    assert("searching"@.len() == 9);
    assert("readingVis"@.len() == 10);
    assert("confirming"@.len() == 10);
    assert("locked"@.len() == 6);
    assert("finished"@.len() == 8);
    assert("confirming"@[0] == 'c');
    assert("readingVis"@[0] == 'r');
}

/// Each encoder stage is published under its own name.
pub proof fn lemma_encoder_stage_names()
    ensures
        encoder_stage_label(EncoderStageKind::Preamble) == "preamble"@,
        encoder_stage_label(EncoderStageKind::Vis) == "vis"@,
        encoder_stage_label(EncoderStageKind::Raster) == "raster"@,
        encoder_stage_label(EncoderStageKind::StationId) == "stationId"@,
        encoder_stage_label(EncoderStageKind::Guard) == "guard"@,
        encoder_stage_label(EncoderStageKind::Finished) == "finished"@,
        forall|a: EncoderStageKind, b: EncoderStageKind| encoder_stage_label(a) == encoder_stage_label(b) ==> a == b,
{
    reveal_strlit("preamble");
    reveal_strlit("vis");
    reveal_strlit("raster");
    reveal_strlit("stationId");
    reveal_strlit("guard");
    reveal_strlit("finished");
    assert("preamble"@.len() == 8);
    assert("vis"@.len() == 3);
    assert("raster"@.len() == 6);
    assert("stationId"@.len() == 9);
    assert("guard"@.len() == 5);
    assert("finished"@.len() == 8);
    assert("finished"@[0] == 'f');
    assert("preamble"@[0] == 'p');
}

/// Line completeness is published as `provisional` or `final`.
pub proof fn lemma_line_completeness_names()
    ensures
        line_completeness_label(LineCompletenessKind::Provisional) == "provisional"@,
        line_completeness_label(LineCompletenessKind::Final) == "final"@,
        line_completeness_label(LineCompletenessKind::Provisional) != line_completeness_label(LineCompletenessKind::Final),
{
    reveal_strlit("provisional");
    reveal_strlit("final");
    assert("provisional"@.len() == 11);
    assert("final"@.len() == 5);
}

/// Each boundary kind is published under its own name, and a kind from a
/// newer codec as `unknown`.
pub proof fn lemma_boundary_names()
    ensures
        boundary_label(BoundaryKind::Initial) == "initial"@,
        boundary_label(BoundaryKind::Vis) == "vis"@,
        boundary_label(BoundaryKind::SyncTiming) == "syncTiming"@,
        boundary_label(BoundaryKind::AptPhasing) == "aptPhasing"@,
        boundary_label(BoundaryKind::ProtocolEnd) == "protocolEnd"@,
        boundary_label(BoundaryKind::Discontinuity) == "discontinuity"@,
        boundary_label(BoundaryKind::Reset) == "reset"@,
        boundary_label(BoundaryKind::Other) == "unknown"@,
        forall|a: BoundaryKind, b: BoundaryKind| boundary_label(a) == boundary_label(b) ==> a == b,
{
    reveal_strlit("initial");
    reveal_strlit("vis");
    reveal_strlit("syncTiming");
    reveal_strlit("aptPhasing");
    reveal_strlit("protocolEnd");
    reveal_strlit("discontinuity");
    reveal_strlit("reset");
    reveal_strlit("unknown");
    assert("initial"@.len() == 7);
    assert("vis"@.len() == 3);
    assert("syncTiming"@.len() == 10);
    assert("aptPhasing"@.len() == 10);
    assert("protocolEnd"@.len() == 11);
    assert("discontinuity"@.len() == 13);
    assert("reset"@.len() == 5);
    assert("unknown"@.len() == 7);
    assert("aptPhasing"@[0] == 'a');
    assert("initial"@[0] == 'i');
    assert("syncTiming"@[0] == 's');
    assert("unknown"@[0] == 'u');
}

/// Each abort reason is published under its own name, and a reason from a
/// newer codec as `unknown`.
pub proof fn lemma_abort_reason_names()
    ensures
        abort_reason_label(AbortReasonKind::InputDiscontinuity) == "inputDiscontinuity"@,
        abort_reason_label(AbortReasonKind::EndOfInput) == "endOfInput"@,
        abort_reason_label(AbortReasonKind::Reset) == "reset"@,
        abort_reason_label(AbortReasonKind::SyncLost) == "syncLost"@,
        abort_reason_label(AbortReasonKind::Other) == "unknown"@,
        forall|a: AbortReasonKind, b: AbortReasonKind| abort_reason_label(a) == abort_reason_label(b) ==> a == b,
{
    reveal_strlit("inputDiscontinuity");
    reveal_strlit("endOfInput");
    reveal_strlit("reset");
    reveal_strlit("syncLost");
    reveal_strlit("unknown");
    assert("inputDiscontinuity"@.len() == 18);
    assert("endOfInput"@.len() == 10);
    assert("reset"@.len() == 5);
    assert("syncLost"@.len() == 8);
    assert("unknown"@.len() == 7);
}

/// Each color layout is published under its own name.
pub proof fn lemma_color_layout_names()
    ensures
        color_layout_label(ColorLayoutKind::Monochrome) == "monochrome"@,
        color_layout_label(ColorLayoutKind::Rgb) == "rgb"@,
        color_layout_label(ColorLayoutKind::Yuv) == "yuv"@,
        forall|a: ColorLayoutKind, b: ColorLayoutKind| color_layout_label(a) == color_layout_label(b) ==> a == b,
{
    reveal_strlit("monochrome");
    reveal_strlit("rgb");
    reveal_strlit("yuv");
    assert("monochrome"@.len() == 10);
    assert("rgb"@.len() == 3);
    assert("yuv"@.len() == 3);
    assert("rgb"@[0] == 'r');
    assert("yuv"@[0] == 'y');
}

/// Each scan layout is published under its own name.
pub proof fn lemma_scan_layout_names()
    ensures
        scan_layout_label(ScanLayoutKind::Monochrome) == "monochrome"@,
        scan_layout_label(ScanLayoutKind::Martin) == "martin"@,
        scan_layout_label(ScanLayoutKind::Scottie) == "scottie"@,
        scan_layout_label(ScanLayoutKind::Robot) == "robot"@,
        scan_layout_label(ScanLayoutKind::Pd) == "pd"@,
        scan_layout_label(ScanLayoutKind::Wraase) == "wraase"@,
        scan_layout_label(ScanLayoutKind::Pasokon) == "pasokon"@,
        forall|a: ScanLayoutKind, b: ScanLayoutKind| scan_layout_label(a) == scan_layout_label(b) ==> a == b,
{
    reveal_strlit("monochrome");
    reveal_strlit("martin");
    reveal_strlit("scottie");
    reveal_strlit("robot");
    reveal_strlit("pd");
    reveal_strlit("wraase");
    reveal_strlit("pasokon");
    assert("monochrome"@.len() == 10);
    assert("martin"@.len() == 6);
    assert("scottie"@.len() == 7);
    assert("robot"@.len() == 5);
    assert("pd"@.len() == 2);
    assert("wraase"@.len() == 6);
    assert("pasokon"@.len() == 7);
    assert("martin"@[0] == 'm');
    assert("pasokon"@[0] == 'p');
    assert("scottie"@[0] == 's');
    assert("wraase"@[0] == 'w');
}

/// Each mode status is published under its own name.
pub proof fn lemma_mode_status_names()
    ensures
        mode_status_label(ModeStatusKind::Canonical) == "canonical"@,
        mode_status_label(ModeStatusKind::Compatibility) == "compatibility"@,
        mode_status_label(ModeStatusKind::Canonical) != mode_status_label(ModeStatusKind::Compatibility),
{
    reveal_strlit("canonical");
    reveal_strlit("compatibility");
    assert("canonical"@.len() == 9);
    assert("compatibility"@.len() == 13);
}

} // verus!
