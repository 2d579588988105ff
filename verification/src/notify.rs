use vstd::prelude::*;

use crate::limits::is_safe_integer;

verus! {

/// One decoded RGB pixel.
#[derive(Clone, Copy, Debug, PartialEq, Eq, Structural)]
pub struct RgbPixel {
    pub r: u8,
    pub g: u8,
    pub b: u8,
}

/// The packed byte form of a row: red, green and blue of each pixel in turn.
pub open spec fn packed_rgb(pixels: Seq<RgbPixel>) -> Seq<u8>
    decreases pixels.len(),
{
    if pixels.len() == 0 {
        Seq::empty()
    } else {
        packed_rgb(pixels.drop_last()) + seq![pixels.last().r, pixels.last().g, pixels.last().b]
    }
}

/// The packed form has three bytes per pixel, in pixel order.
pub proof fn lemma_packed_rgb_layout(pixels: Seq<RgbPixel>)
    ensures
        packed_rgb(pixels).len() == 3 * pixels.len(),
        forall|i: int|
            0 <= i < pixels.len() ==> {
                &&& #[trigger] packed_rgb(pixels)[3 * i] == pixels[i].r
                &&& packed_rgb(pixels)[3 * i + 1] == pixels[i].g
                &&& packed_rgb(pixels)[3 * i + 2] == pixels[i].b
            },
    decreases pixels.len(),
{
    if pixels.len() > 0 {
        lemma_packed_rgb_layout(pixels.drop_last());
        let rest = pixels.drop_last();
        assert forall|i: int| 0 <= i < pixels.len() implies {
            &&& #[trigger] packed_rgb(pixels)[3 * i] == pixels[i].r
            &&& packed_rgb(pixels)[3 * i + 1] == pixels[i].g
            &&& packed_rgb(pixels)[3 * i + 2] == pixels[i].b
        } by {
            if i < rest.len() {
                assert(packed_rgb(rest)[3 * i] == rest[i].r);
            }
        }
    }
}

/// Packs a row of pixels into bytes, three per pixel.
pub fn pack_rgb(pixels: &[RgbPixel]) -> (bytes: Vec<u8>)
    ensures
        bytes@ == packed_rgb(pixels@),
{
    let mut bytes: Vec<u8> = Vec::new();
    let mut i: usize = 0;
    while i < pixels.len()
        invariant
            i <= pixels@.len(),
            bytes@ == packed_rgb(pixels@.subrange(0, i as int)),
        decreases pixels@.len() - i,
    {
        let pixel = pixels[i];
        bytes.push(pixel.r);
        bytes.push(pixel.g);
        bytes.push(pixel.b);
        proof {
            let next = pixels@.subrange(0, i + 1);
            assert(next.drop_last() =~= pixels@.subrange(0, i as int));
            assert(next.last() == pixel);
        }
        i = i + 1;
    }
    assert(pixels@.subrange(0, pixels@.len() as int) =~= pixels@);
    bytes
}

/// How an SSTV decoder selected its mode. `Other` stands for a path that a
/// newer codec introduced.
#[derive(Clone, Copy, Debug, PartialEq, Eq, Structural)]
pub enum DetectionKind {
    Vis { code: u8 },
    SyncTiming { ambiguous: bool, candidate_count: u8 },
    Manual,
    Other,
}

/// The notification fields that describe a detection.
#[derive(Clone, Copy, Debug)]
pub struct DetectionFields {
    pub detection: &'static str,
    pub vis_code: Option<u32>,
    pub ambiguous: Option<bool>,
    pub candidate_count: Option<u32>,
}

/// The published name of a detection path.
pub open spec fn detection_label(d: DetectionKind) -> Seq<char> {
    match d {
        DetectionKind::Vis { .. } => "vis"@,
        DetectionKind::SyncTiming { .. } => "syncTiming"@,
        DetectionKind::Manual => "manual"@,
        DetectionKind::Other => "unknown"@,
    }
}

/// The VIS code a detection reports.
pub open spec fn detection_vis_code(d: DetectionKind) -> Option<u32> {
    match d {
        DetectionKind::Vis { code } => Some(code as u32),
        _ => None,
    }
}

/// The ambiguity a detection reports.
pub open spec fn detection_ambiguous(d: DetectionKind) -> Option<bool> {
    match d {
        DetectionKind::SyncTiming { ambiguous, .. } => Some(ambiguous),
        _ => None,
    }
}

/// The candidate count a detection reports.
pub open spec fn detection_candidate_count(d: DetectionKind) -> Option<u32> {
    match d {
        DetectionKind::SyncTiming { candidate_count, .. } => Some(candidate_count as u32),
        _ => None,
    }
}

/// Describes a detection: its name, plus the VIS code for VIS detection, or
/// the ambiguity and candidate count for sync-timing detection.
pub fn apply_detection(detection: DetectionKind) -> (r: DetectionFields)
    ensures
        r.detection@ == detection_label(detection),
        r.vis_code == detection_vis_code(detection),
        r.ambiguous == detection_ambiguous(detection),
        r.candidate_count == detection_candidate_count(detection),
{
    match detection {
        DetectionKind::Vis { code } => DetectionFields {
            detection: "vis",
            vis_code: Some(code as u32),
            ambiguous: None,
            candidate_count: None,
        },
        DetectionKind::SyncTiming { ambiguous, candidate_count } => DetectionFields {
            detection: "syncTiming",
            vis_code: None,
            ambiguous: Some(ambiguous),
            candidate_count: Some(candidate_count as u32),
        },
        DetectionKind::Manual => DetectionFields {
            detection: "manual",
            vis_code: None,
            ambiguous: None,
            candidate_count: None,
        },
        DetectionKind::Other => DetectionFields {
            detection: "unknown",
            vis_code: None,
            ambiguous: None,
            candidate_count: None,
        },
    }
}

/// The kinds of notification a decoder delivers to its event callback.
#[derive(Clone, Copy, Debug, PartialEq, Eq, Structural)]
pub enum NoticeKind {
    Drain,
    Finished,
    Error,
    ModeCandidate,
    ImageStarted,
    LineReady,
    ImageCompleted,
    ImageAborted,
    SignalRejected,
    AptDetected,
    PhasingLocked,
    PageStarted,
    PageCompleted,
    PaperStarted,
    RasterBoundary,
    ClockCalibration,
    RasterLineReady,
    TransmissionCompleted,
    ProtocolObserved,
}

/// The `type` field under which a notification kind is delivered.
pub open spec fn notice_label(kind: NoticeKind) -> Seq<char> {
    match kind {
        NoticeKind::Drain => "drain"@,
        NoticeKind::Finished => "finished"@,
        NoticeKind::Error => "error"@,
        NoticeKind::ModeCandidate => "modeCandidate"@,
        NoticeKind::ImageStarted => "imageStarted"@,
        NoticeKind::LineReady => "lineReady"@,
        NoticeKind::ImageCompleted => "imageCompleted"@,
        NoticeKind::ImageAborted => "imageAborted"@,
        NoticeKind::SignalRejected => "signalRejected"@,
        NoticeKind::AptDetected => "aptDetected"@,
        NoticeKind::PhasingLocked => "phasingLocked"@,
        NoticeKind::PageStarted => "pageStarted"@,
        NoticeKind::PageCompleted => "pageCompleted"@,
        NoticeKind::PaperStarted => "paperStarted"@,
        NoticeKind::RasterBoundary => "rasterBoundary"@,
        NoticeKind::ClockCalibration => "clockCalibration"@,
        NoticeKind::RasterLineReady => "rasterLineReady"@,
        NoticeKind::TransmissionCompleted => "transmissionCompleted"@,
        NoticeKind::ProtocolObserved => "protocolObserved"@,
    }
}

/// Names a notification kind.
pub fn notice_type(kind: NoticeKind) -> (r: &'static str)
    ensures
        r@ == notice_label(kind),
{
    match kind {
        NoticeKind::Drain => "drain",
        NoticeKind::Finished => "finished",
        NoticeKind::Error => "error",
        NoticeKind::ModeCandidate => "modeCandidate",
        NoticeKind::ImageStarted => "imageStarted",
        NoticeKind::LineReady => "lineReady",
        NoticeKind::ImageCompleted => "imageCompleted",
        NoticeKind::ImageAborted => "imageAborted",
        NoticeKind::SignalRejected => "signalRejected",
        NoticeKind::AptDetected => "aptDetected",
        NoticeKind::PhasingLocked => "phasingLocked",
        NoticeKind::PageStarted => "pageStarted",
        NoticeKind::PageCompleted => "pageCompleted",
        NoticeKind::PaperStarted => "paperStarted",
        NoticeKind::RasterBoundary => "rasterBoundary",
        NoticeKind::ClockCalibration => "clockCalibration",
        NoticeKind::RasterLineReady => "rasterLineReady",
        NoticeKind::TransmissionCompleted => "transmissionCompleted",
        NoticeKind::ProtocolObserved => "protocolObserved",
    }
}

/// Why a codec event cannot be delivered as a notification.
pub enum NoticeFault {
    /// The named count is beyond what a JavaScript number holds exactly.
    Overflow(Seq<char>),
    /// The event names an SSTV mode that the bridge does not publish.
    ModeUnpublished,
}

/// Passes `rest` on when `value` is a safe integer, and otherwise refuses the
/// notification, naming `field`.
pub open spec fn guard<V>(value: u64, field: Seq<char>, rest: Result<V, NoticeFault>) -> Result<V, NoticeFault> {
    if is_safe_integer(value as int) {
        rest
    } else {
        Err(NoticeFault::Overflow(field))
    }
}

/// The refusal that a fault is reported as.
pub open spec fn fault_answered<N>(r: Result<N, crate::error::LibError>, fault: NoticeFault) -> bool {
    match fault {
        NoticeFault::Overflow(field) => r matches Err(crate::error::LibError::IntegerOverflow(f)) && f@ == field,
        NoticeFault::ModeUnpublished => r matches Err(crate::error::LibError::ModeUnsupported),
    }
}

/// Each notification kind is delivered under its own `type`.
pub proof fn lemma_notice_names()
    ensures
        notice_label(NoticeKind::Drain) == "drain"@,
        notice_label(NoticeKind::Finished) == "finished"@,
        notice_label(NoticeKind::Error) == "error"@,
        notice_label(NoticeKind::ModeCandidate) == "modeCandidate"@,
        notice_label(NoticeKind::ImageStarted) == "imageStarted"@,
        notice_label(NoticeKind::LineReady) == "lineReady"@,
        notice_label(NoticeKind::ImageCompleted) == "imageCompleted"@,
        notice_label(NoticeKind::ImageAborted) == "imageAborted"@,
        notice_label(NoticeKind::SignalRejected) == "signalRejected"@,
        notice_label(NoticeKind::AptDetected) == "aptDetected"@,
        notice_label(NoticeKind::PhasingLocked) == "phasingLocked"@,
        notice_label(NoticeKind::PageStarted) == "pageStarted"@,
        notice_label(NoticeKind::PageCompleted) == "pageCompleted"@,
        notice_label(NoticeKind::PaperStarted) == "paperStarted"@,
        notice_label(NoticeKind::RasterBoundary) == "rasterBoundary"@,
        notice_label(NoticeKind::ClockCalibration) == "clockCalibration"@,
        notice_label(NoticeKind::RasterLineReady) == "rasterLineReady"@,
        notice_label(NoticeKind::TransmissionCompleted) == "transmissionCompleted"@,
        notice_label(NoticeKind::ProtocolObserved) == "protocolObserved"@,
        forall|a: NoticeKind, b: NoticeKind| notice_label(a) == notice_label(b) ==> a == b,
{
    reveal_strlit("drain");
    reveal_strlit("finished");
    reveal_strlit("error");
    reveal_strlit("modeCandidate");
    reveal_strlit("imageStarted");
    reveal_strlit("lineReady");
    reveal_strlit("imageCompleted");
    reveal_strlit("imageAborted");
    reveal_strlit("signalRejected");
    reveal_strlit("aptDetected");
    reveal_strlit("phasingLocked");
    reveal_strlit("pageStarted");
    reveal_strlit("pageCompleted");
    reveal_strlit("paperStarted");
    reveal_strlit("rasterBoundary");
    reveal_strlit("clockCalibration");
    reveal_strlit("rasterLineReady");
    reveal_strlit("transmissionCompleted");
    reveal_strlit("protocolObserved");
    assert("drain"@.len() == 5);
    assert("finished"@.len() == 8);
    assert("error"@.len() == 5);
    assert("modeCandidate"@.len() == 13);
    assert("imageStarted"@.len() == 12);
    assert("lineReady"@.len() == 9);
    assert("imageCompleted"@.len() == 14);
    assert("imageAborted"@.len() == 12);
    assert("signalRejected"@.len() == 14);
    assert("aptDetected"@.len() == 11);
    assert("phasingLocked"@.len() == 13);
    assert("pageStarted"@.len() == 11);
    assert("pageCompleted"@.len() == 13);
    assert("paperStarted"@.len() == 12);
    assert("rasterBoundary"@.len() == 14);
    assert("clockCalibration"@.len() == 16);
    assert("rasterLineReady"@.len() == 15);
    assert("transmissionCompleted"@.len() == 21);
    assert("protocolObserved"@.len() == 16);
    assert("aptDetected"@[0] == 'a');
    assert("clockCalibration"@[0] == 'c');
    assert("drain"@[0] == 'd');
    assert("error"@[0] == 'e');
    assert("imageAborted"@[0] == 'i');
    assert("imageAborted"@[5] == 'A');
    assert("imageCompleted"@[0] == 'i');
    assert("imageStarted"@[0] == 'i');
    assert("imageStarted"@[5] == 'S');
    assert("modeCandidate"@[0] == 'm');
    assert("pageCompleted"@[0] == 'p');
    assert("pageCompleted"@[1] == 'a');
    assert("pageStarted"@[0] == 'p');
    assert("paperStarted"@[0] == 'p');
    assert("phasingLocked"@[0] == 'p');
    assert("phasingLocked"@[1] == 'h');
    assert("protocolObserved"@[0] == 'p');
    assert("rasterBoundary"@[0] == 'r');
    assert("signalRejected"@[0] == 's');
}

/// Each detection path is published under its own name, and a path from a
/// newer codec as `unknown`.
pub proof fn lemma_detection_names()
    ensures
        forall|code: u8| detection_label(DetectionKind::Vis { code }) == "vis"@,
        forall|ambiguous: bool, candidate_count: u8|
            detection_label(DetectionKind::SyncTiming { ambiguous, candidate_count }) == "syncTiming"@,
        detection_label(DetectionKind::Manual) == "manual"@,
        detection_label(DetectionKind::Other) == "unknown"@,
{
}

/// A VIS detection reports its code and nothing of sync timing; a
/// sync-timing detection reports its ambiguity and candidate count and no
/// code; the other paths report none of these.
pub proof fn lemma_detection_fields(d: DetectionKind)
    ensures
        d matches DetectionKind::Vis { code } ==> detection_vis_code(d) == Some(code as u32)
            && detection_ambiguous(d) is None && detection_candidate_count(d) is None,
        d matches DetectionKind::SyncTiming { ambiguous, candidate_count } ==> detection_vis_code(d) is None
            && detection_ambiguous(d) == Some(ambiguous) && detection_candidate_count(d) == Some(candidate_count as u32),
        d is Manual || d is Other ==> detection_vis_code(d) is None && detection_ambiguous(d) is None
            && detection_candidate_count(d) is None,
{
}

} // verus!
