use rasterwave::SstvMode;
use vstd::prelude::*;

use crate::error::LibError;
use crate::limits::{is_safe_integer, safe_number};
use crate::modes::{JsSstvMode, bridge_mode, bridge_mode_spec};
use crate::names::{
    AbortReasonKind, BoundaryKind, LineCompletenessKind, abort_reason_label, abort_reason_name, boundary_label,
    line_completeness_label, line_completeness_name, paper_boundary_name,
};
use crate::notify::{
    DetectionKind, NoticeFault, NoticeKind, RgbPixel, apply_detection, detection_ambiguous,
    detection_candidate_count, detection_label, detection_vis_code, fault_answered, guard, pack_rgb, packed_rgb,
};

verus! {

/// What an SSTV decoder reports to its event callback, as plain values: the
/// codec's framed and continuous-paper events, plus the queue's own `drain`,
/// `finished` and `error`. Floating-point measurements (confidences and
/// frequency offsets) travel beside the event, untouched.
pub enum SstvEvent {
    Drain,
    Finished,
    Error(String),
    ModeCandidate { candidates: Vec<SstvMode> },
    ImageStarted { image_id: u64, mode: SstvMode, detection: DetectionKind, width: u32, height: u32 },
    LineReady {
        image_id: u64,
        mode: SstvMode,
        line_index: u32,
        revision: u32,
        completeness: LineCompletenessKind,
        pixels: Vec<RgbPixel>,
    },
    ImageCompleted { image_id: u64, mode: SstvMode, lines: u32 },
    ImageAborted { image_id: u64, mode: SstvMode, last_line: Option<u32>, reason: AbortReasonKind },
    SignalRejected { reason: String },
    /// A framed event that a newer codec introduced.
    UnsupportedFramed,
    PaperStarted { paper_id: u64, mode: SstvMode, width: u32 },
    RasterBoundary {
        paper_id: u64,
        boundary_id: u64,
        line_index: u64,
        mode: SstvMode,
        detection: Option<DetectionKind>,
        kind: BoundaryKind,
        trusted: bool,
        width: u32,
        nominal_height: u32,
    },
    RasterLineReady {
        paper_id: u64,
        boundary_id: u64,
        line_index: u64,
        mode_line_index: u32,
        mode: SstvMode,
        revision: u32,
        completeness: LineCompletenessKind,
        pixels: Vec<RgbPixel>,
    },
    TransmissionCompleted {
        paper_id: u64,
        boundary_id: u64,
        start_line: u64,
        end_line: u64,
        mode: SstvMode,
        lines: u32,
    },
    ProtocolObserved { mode: SstvMode, detection: DetectionKind, trusted: bool },
    /// A continuous-paper event that a newer codec introduced.
    UnsupportedPaper,
}

/// The notification an SSTV event is delivered as; counts are safe integers.
pub struct SstvNotice {
    pub kind: NoticeKind,
    pub image_id: Option<u64>,
    pub paper_id: Option<u64>,
    pub boundary_id: Option<u64>,
    pub mode: Option<JsSstvMode>,
    pub candidates: Option<Vec<JsSstvMode>>,
    pub detection: Option<&'static str>,
    pub vis_code: Option<u32>,
    pub ambiguous: Option<bool>,
    pub candidate_count: Option<u32>,
    pub width: Option<u32>,
    pub height: Option<u32>,
    pub line_index: Option<u64>,
    pub mode_line_index: Option<u32>,
    pub revision: Option<u32>,
    pub completeness: Option<&'static str>,
    pub pixels: Option<Vec<u8>>,
    pub lines: Option<u32>,
    pub last_line: Option<u32>,
    pub reason: Option<String>,
    pub boundary_kind: Option<&'static str>,
    pub trusted: Option<bool>,
    pub nominal_height: Option<u32>,
    pub start_line: Option<u64>,
    pub end_line: Option<u64>,
}

/// An SSTV notification with its texts and buffers taken by their contents.
pub struct SstvNoticeView {
    pub kind: NoticeKind,
    pub image_id: Option<u64>,
    pub paper_id: Option<u64>,
    pub boundary_id: Option<u64>,
    pub mode: Option<JsSstvMode>,
    pub candidates: Option<Seq<JsSstvMode>>,
    pub detection: Option<Seq<char>>,
    pub vis_code: Option<u32>,
    pub ambiguous: Option<bool>,
    pub candidate_count: Option<u32>,
    pub width: Option<u32>,
    pub height: Option<u32>,
    pub line_index: Option<u64>,
    pub mode_line_index: Option<u32>,
    pub revision: Option<u32>,
    pub completeness: Option<Seq<char>>,
    pub pixels: Option<Seq<u8>>,
    pub lines: Option<u32>,
    pub last_line: Option<u32>,
    pub reason: Option<Seq<char>>,
    pub boundary_kind: Option<Seq<char>>,
    pub trusted: Option<bool>,
    pub nominal_height: Option<u32>,
    pub start_line: Option<u64>,
    pub end_line: Option<u64>,
}

/// The contents of an optional static name.
pub open spec fn opt_name(value: Option<&'static str>) -> Option<Seq<char>> {
    match value {
        Some(s) => Some(s@),
        None => None,
    }
}

/// The contents of an optional owned text.
pub open spec fn opt_string(value: Option<String>) -> Option<Seq<char>> {
    match value {
        Some(s) => Some(s@),
        None => None,
    }
}

/// The contents of an optional byte buffer.
pub open spec fn opt_bytes(value: Option<Vec<u8>>) -> Option<Seq<u8>> {
    match value {
        Some(v) => Some(v@),
        None => None,
    }
}

impl View for SstvNotice {
    type V = SstvNoticeView;

    open spec fn view(&self) -> SstvNoticeView {
        SstvNoticeView {
            kind: self.kind,
            image_id: self.image_id,
            paper_id: self.paper_id,
            boundary_id: self.boundary_id,
            mode: self.mode,
            candidates: match self.candidates {
                Some(c) => Some(c@),
                None => None,
            },
            detection: opt_name(self.detection),
            vis_code: self.vis_code,
            ambiguous: self.ambiguous,
            candidate_count: self.candidate_count,
            width: self.width,
            height: self.height,
            line_index: self.line_index,
            mode_line_index: self.mode_line_index,
            revision: self.revision,
            completeness: opt_name(self.completeness),
            pixels: opt_bytes(self.pixels),
            lines: self.lines,
            last_line: self.last_line,
            reason: opt_string(self.reason),
            boundary_kind: opt_name(self.boundary_kind),
            trusted: self.trusted,
            nominal_height: self.nominal_height,
            start_line: self.start_line,
            end_line: self.end_line,
        }
    }
}

/// A notification of the given kind with no field filled.
pub open spec fn blank_sstv(kind: NoticeKind) -> SstvNoticeView {
    SstvNoticeView {
        kind,
        image_id: None,
        paper_id: None,
        boundary_id: None,
        mode: None,
        candidates: None,
        detection: None,
        vis_code: None,
        ambiguous: None,
        candidate_count: None,
        width: None,
        height: None,
        line_index: None,
        mode_line_index: None,
        revision: None,
        completeness: None,
        pixels: None,
        lines: None,
        last_line: None,
        reason: None,
        boundary_kind: None,
        trusted: None,
        nominal_height: None,
        start_line: None,
        end_line: None,
    }
}

/// `v` with the mode field set to the bridge mode naming `mode`, refused when
/// no bridge mode names it.
pub open spec fn with_mode(mode: SstvMode, v: SstvNoticeView) -> Result<SstvNoticeView, NoticeFault> {
    match bridge_mode_spec(mode) {
        Some(named) => Ok(SstvNoticeView { mode: Some(named), ..v }),
        None => Err(NoticeFault::ModeUnpublished),
    }
}

/// `v` with the fields that describe a detection.
pub open spec fn with_detection(v: SstvNoticeView, d: DetectionKind) -> SstvNoticeView {
    SstvNoticeView {
        detection: Some(detection_label(d)),
        vis_code: detection_vis_code(d),
        ambiguous: detection_ambiguous(d),
        candidate_count: detection_candidate_count(d),
        ..v
    }
}

/// Every candidate is a published mode.
pub open spec fn all_published(candidates: Seq<SstvMode>) -> bool {
    forall|i: int| 0 <= i < candidates.len() ==> (#[trigger] bridge_mode_spec(candidates[i])) is Some
}

/// The bridge modes naming the candidates, in order.
pub open spec fn bridged(candidates: Seq<SstvMode>) -> Seq<JsSstvMode> {
    candidates.map_values(|m: SstvMode| bridge_mode_spec(m)->0)
}

/// The notification an SSTV event is delivered as, or the fault that
/// refuses it. Counts are checked in the order of the notification's fields,
/// then the mode.
pub open spec fn sstv_notice_spec(event: SstvEvent) -> Result<SstvNoticeView, NoticeFault> {
    match event {
        SstvEvent::Drain => Ok(blank_sstv(NoticeKind::Drain)),
        SstvEvent::Finished => Ok(blank_sstv(NoticeKind::Finished)),
        SstvEvent::Error(reason) => Ok(SstvNoticeView { reason: Some(reason@), ..blank_sstv(NoticeKind::Error) }),
        SstvEvent::ModeCandidate { candidates } => if all_published(candidates@) {
            Ok(SstvNoticeView { candidates: Some(bridged(candidates@)), ..blank_sstv(NoticeKind::ModeCandidate) })
        } else {
            Err(NoticeFault::ModeUnpublished)
        },
        SstvEvent::ImageStarted { image_id, mode, detection, width, height } => guard(
            image_id,
            "imageId"@,
            with_mode(
                mode,
                with_detection(
                    SstvNoticeView {
                        image_id: Some(image_id),
                        width: Some(width),
                        height: Some(height),
                        ..blank_sstv(NoticeKind::ImageStarted)
                    },
                    detection,
                ),
            ),
        ),
        SstvEvent::LineReady { image_id, mode, line_index, revision, completeness, pixels } => guard(
            image_id,
            "imageId"@,
            with_mode(
                mode,
                SstvNoticeView {
                    image_id: Some(image_id),
                    line_index: Some(line_index as u64),
                    revision: Some(revision),
                    completeness: Some(line_completeness_label(completeness)),
                    pixels: Some(packed_rgb(pixels@)),
                    ..blank_sstv(NoticeKind::LineReady)
                },
            ),
        ),
        SstvEvent::ImageCompleted { image_id, mode, lines } => guard(
            image_id,
            "imageId"@,
            with_mode(
                mode,
                SstvNoticeView {
                    image_id: Some(image_id),
                    lines: Some(lines),
                    ..blank_sstv(NoticeKind::ImageCompleted)
                },
            ),
        ),
        SstvEvent::ImageAborted { image_id, mode, last_line, reason } => guard(
            image_id,
            "imageId"@,
            with_mode(
                mode,
                SstvNoticeView {
                    image_id: Some(image_id),
                    last_line,
                    reason: Some(abort_reason_label(reason)),
                    ..blank_sstv(NoticeKind::ImageAborted)
                },
            ),
        ),
        SstvEvent::SignalRejected { reason } => Ok(
            SstvNoticeView { reason: Some(reason@), ..blank_sstv(NoticeKind::SignalRejected) },
        ),
        SstvEvent::UnsupportedFramed => Ok(
            SstvNoticeView { reason: Some("unsupported decoder event"@), ..blank_sstv(NoticeKind::Error) },
        ),
        SstvEvent::PaperStarted { paper_id, mode, width } => guard(
            paper_id,
            "paperId"@,
            with_mode(
                mode,
                SstvNoticeView {
                    paper_id: Some(paper_id),
                    width: Some(width),
                    ..blank_sstv(NoticeKind::PaperStarted)
                },
            ),
        ),
        SstvEvent::RasterBoundary {
            paper_id,
            boundary_id,
            line_index,
            mode,
            detection,
            kind,
            trusted,
            width,
            nominal_height,
        } => {
            let v = SstvNoticeView {
                paper_id: Some(paper_id),
                boundary_id: Some(boundary_id),
                line_index: Some(line_index),
                boundary_kind: Some(boundary_label(kind)),
                trusted: Some(trusted),
                width: Some(width),
                nominal_height: Some(nominal_height),
                ..blank_sstv(NoticeKind::RasterBoundary)
            };
            let v = match detection {
                Some(d) => with_detection(v, d),
                None => v,
            };
            guard(paper_id, "paperId"@, guard(boundary_id, "boundaryId"@, guard(line_index, "lineIndex"@,
                with_mode(mode, v))))
        },
        SstvEvent::RasterLineReady {
            paper_id,
            boundary_id,
            line_index,
            mode_line_index,
            mode,
            revision,
            completeness,
            pixels,
        } => guard(paper_id, "paperId"@, guard(boundary_id, "boundaryId"@, guard(line_index, "lineIndex"@,
            with_mode(
                mode,
                SstvNoticeView {
                    paper_id: Some(paper_id),
                    boundary_id: Some(boundary_id),
                    line_index: Some(line_index),
                    mode_line_index: Some(mode_line_index),
                    revision: Some(revision),
                    completeness: Some(line_completeness_label(completeness)),
                    pixels: Some(packed_rgb(pixels@)),
                    ..blank_sstv(NoticeKind::RasterLineReady)
                },
            )))),
        SstvEvent::TransmissionCompleted { paper_id, boundary_id, start_line, end_line, mode, lines } => guard(
            paper_id,
            "paperId"@,
            guard(boundary_id, "boundaryId"@, guard(start_line, "startLine"@, guard(end_line, "endLine"@,
                with_mode(
                    mode,
                    SstvNoticeView {
                        paper_id: Some(paper_id),
                        boundary_id: Some(boundary_id),
                        start_line: Some(start_line),
                        end_line: Some(end_line),
                        lines: Some(lines),
                        ..blank_sstv(NoticeKind::TransmissionCompleted)
                    },
                )))),
        ),
        SstvEvent::ProtocolObserved { mode, detection, trusted } => with_mode(
            mode,
            with_detection(SstvNoticeView { trusted: Some(trusted), ..blank_sstv(NoticeKind::ProtocolObserved) }, detection),
        ),
        SstvEvent::UnsupportedPaper => Ok(
            SstvNoticeView { reason: Some("unsupported SSTV paper event"@), ..blank_sstv(NoticeKind::Error) },
        ),
    }
}

/// `r` is the answer that `expected` calls for.
pub open spec fn sstv_answers(r: Result<SstvNotice, LibError>, expected: Result<SstvNoticeView, NoticeFault>) -> bool {
    match expected {
        Ok(v) => r matches Ok(n) && n@ == v,
        Err(fault) => fault_answered(r, fault),
    }
}

fn blank_notice(kind: NoticeKind) -> (n: SstvNotice)
    ensures
        n@ == blank_sstv(kind),
{
    SstvNotice {
        kind,
        image_id: None,
        paper_id: None,
        boundary_id: None,
        mode: None,
        candidates: None,
        detection: None,
        vis_code: None,
        ambiguous: None,
        candidate_count: None,
        width: None,
        height: None,
        line_index: None,
        mode_line_index: None,
        revision: None,
        completeness: None,
        pixels: None,
        lines: None,
        last_line: None,
        reason: None,
        boundary_kind: None,
        trusted: None,
        nominal_height: None,
        start_line: None,
        end_line: None,
    }
}

fn set_detection(n: &mut SstvNotice, d: DetectionKind)
    ensures
        final(n)@ == with_detection(old(n)@, d),
{
    let fields = apply_detection(d);
    n.detection = Some(fields.detection);
    n.vis_code = fields.vis_code;
    n.ambiguous = fields.ambiguous;
    n.candidate_count = fields.candidate_count;
}

fn set_mode(n: &mut SstvNotice, mode: SstvMode) -> (r: Result<(), LibError>)
    ensures
        with_mode(mode, old(n)@) matches Ok(v) ==> r is Ok && final(n)@ == v,
        with_mode(mode, old(n)@) is Err ==> r matches Err(LibError::ModeUnsupported),
{
    match bridge_mode(mode) {
        Ok(named) => {
            n.mode = Some(named);
            Ok(())
        },
        Err(e) => Err(e),
    }
}

/// The bridge modes of the candidates, refused at the first unpublished one.
fn bridge_candidates(candidates: &Vec<SstvMode>) -> (r: Result<Vec<JsSstvMode>, LibError>)
    ensures
        all_published(candidates@) ==> (r matches Ok(v) && v@ == bridged(candidates@)),
        !all_published(candidates@) ==> r matches Err(LibError::ModeUnsupported),
{
    let mut out: Vec<JsSstvMode> = Vec::new();
    let mut i: usize = 0;
    while i < candidates.len()
        invariant
            i <= candidates@.len(),
            all_published(candidates@.subrange(0, i as int)),
            out@ == bridged(candidates@.subrange(0, i as int)),
        decreases candidates@.len() - i,
    {
        let mode = candidates[i];
        match bridge_mode(mode) {
            Ok(named) => {
                out.push(named);
                proof {
                    let next = candidates@.subrange(0, i + 1);
                    assert(next =~= candidates@.subrange(0, i as int).push(mode));
                    assert(bridged(next) =~= bridged(candidates@.subrange(0, i as int)).push(named));
                    assert forall|k: int| 0 <= k < next.len() implies (#[trigger] bridge_mode_spec(next[k])) is Some by {
                        if k < i {
                            assert(next[k] == candidates@.subrange(0, i as int)[k]);
                        }
                    }
                }
                i = i + 1;
            },
            Err(e) => {
                proof {
                    assert(bridge_mode_spec(candidates@[i as int]) is None);
                }
                return Err(e);
            },
        }
    }
    proof {
        assert(candidates@.subrange(0, candidates@.len() as int) =~= candidates@);
    }
    Ok(out)
}

/// Builds the notification an SSTV decoder delivers for `event`: its type,
/// the fields the event fills, counts refused by name when a JavaScript
/// number cannot hold them, modes refused when the bridge does not publish
/// them, and decoded rows packed three bytes per pixel.
pub fn sstv_notice(event: SstvEvent) -> (r: Result<SstvNotice, LibError>)
    ensures
        sstv_answers(r, sstv_notice_spec(event)),
{
    match event {
        SstvEvent::Drain => Ok(blank_notice(NoticeKind::Drain)),
        SstvEvent::Finished => Ok(blank_notice(NoticeKind::Finished)),
        SstvEvent::Error(reason) => {
            let mut n = blank_notice(NoticeKind::Error);
            n.reason = Some(reason);
            Ok(n)
        },
        SstvEvent::ModeCandidate { candidates } => {
            let modes = match bridge_candidates(&candidates) {
                Ok(m) => m,
                Err(e) => return Err(e),
            };
            let mut n = blank_notice(NoticeKind::ModeCandidate);
            n.candidates = Some(modes);
            Ok(n)
        },
        SstvEvent::ImageStarted { image_id, mode, detection, width, height } => {
            let mut n = blank_notice(NoticeKind::ImageStarted);
            n.image_id = match safe_number(image_id, "imageId") {
                Ok(v) => Some(v),
                Err(e) => return Err(e),
            };
            n.width = Some(width);
            n.height = Some(height);
            set_detection(&mut n, detection);
            match set_mode(&mut n, mode) {
                Ok(()) => Ok(n),
                Err(e) => Err(e),
            }
        },
        SstvEvent::LineReady { image_id, mode, line_index, revision, completeness, pixels } => {
            let mut n = blank_notice(NoticeKind::LineReady);
            n.image_id = match safe_number(image_id, "imageId") {
                Ok(v) => Some(v),
                Err(e) => return Err(e),
            };
            n.line_index = Some(line_index as u64);
            n.revision = Some(revision);
            n.completeness = Some(line_completeness_name(completeness));
            n.pixels = Some(pack_rgb(pixels.as_slice()));
            match set_mode(&mut n, mode) {
                Ok(()) => Ok(n),
                Err(e) => Err(e),
            }
        },
        SstvEvent::ImageCompleted { image_id, mode, lines } => {
            let mut n = blank_notice(NoticeKind::ImageCompleted);
            n.image_id = match safe_number(image_id, "imageId") {
                Ok(v) => Some(v),
                Err(e) => return Err(e),
            };
            n.lines = Some(lines);
            match set_mode(&mut n, mode) {
                Ok(()) => Ok(n),
                Err(e) => Err(e),
            }
        },
        SstvEvent::ImageAborted { image_id, mode, last_line, reason } => {
            let mut n = blank_notice(NoticeKind::ImageAborted);
            n.image_id = match safe_number(image_id, "imageId") {
                Ok(v) => Some(v),
                Err(e) => return Err(e),
            };
            n.last_line = last_line;
            n.reason = Some(abort_reason_name(reason).to_owned());
            match set_mode(&mut n, mode) {
                Ok(()) => Ok(n),
                Err(e) => Err(e),
            }
        },
        SstvEvent::SignalRejected { reason } => {
            let mut n = blank_notice(NoticeKind::SignalRejected);
            n.reason = Some(reason);
            Ok(n)
        },
        SstvEvent::UnsupportedFramed => {
            let mut n = blank_notice(NoticeKind::Error);
            n.reason = Some("unsupported decoder event".to_owned());
            Ok(n)
        },
        SstvEvent::PaperStarted { paper_id, mode, width } => {
            let mut n = blank_notice(NoticeKind::PaperStarted);
            n.paper_id = match safe_number(paper_id, "paperId") {
                Ok(v) => Some(v),
                Err(e) => return Err(e),
            };
            n.width = Some(width);
            match set_mode(&mut n, mode) {
                Ok(()) => Ok(n),
                Err(e) => Err(e),
            }
        },
        SstvEvent::RasterBoundary {
            paper_id,
            boundary_id,
            line_index,
            mode,
            detection,
            kind,
            trusted,
            width,
            nominal_height,
        } => {
            let mut n = blank_notice(NoticeKind::RasterBoundary);
            n.paper_id = match safe_number(paper_id, "paperId") {
                Ok(v) => Some(v),
                Err(e) => return Err(e),
            };
            n.boundary_id = match safe_number(boundary_id, "boundaryId") {
                Ok(v) => Some(v),
                Err(e) => return Err(e),
            };
            n.line_index = match safe_number(line_index, "lineIndex") {
                Ok(v) => Some(v),
                Err(e) => return Err(e),
            };
            n.boundary_kind = Some(paper_boundary_name(kind));
            n.trusted = Some(trusted);
            n.width = Some(width);
            n.nominal_height = Some(nominal_height);
            match detection {
                Some(d) => set_detection(&mut n, d),
                None => {},
            }
            match set_mode(&mut n, mode) {
                Ok(()) => Ok(n),
                Err(e) => Err(e),
            }
        },
        SstvEvent::RasterLineReady {
            paper_id,
            boundary_id,
            line_index,
            mode_line_index,
            mode,
            revision,
            completeness,
            pixels,
        } => {
            let mut n = blank_notice(NoticeKind::RasterLineReady);
            n.paper_id = match safe_number(paper_id, "paperId") {
                Ok(v) => Some(v),
                Err(e) => return Err(e),
            };
            n.boundary_id = match safe_number(boundary_id, "boundaryId") {
                Ok(v) => Some(v),
                Err(e) => return Err(e),
            };
            n.line_index = match safe_number(line_index, "lineIndex") {
                Ok(v) => Some(v),
                Err(e) => return Err(e),
            };
            n.mode_line_index = Some(mode_line_index);
            n.revision = Some(revision);
            n.completeness = Some(line_completeness_name(completeness));
            n.pixels = Some(pack_rgb(pixels.as_slice()));
            match set_mode(&mut n, mode) {
                Ok(()) => Ok(n),
                Err(e) => Err(e),
            }
        },
        SstvEvent::TransmissionCompleted { paper_id, boundary_id, start_line, end_line, mode, lines } => {
            let mut n = blank_notice(NoticeKind::TransmissionCompleted);
            n.paper_id = match safe_number(paper_id, "paperId") {
                Ok(v) => Some(v),
                Err(e) => return Err(e),
            };
            n.boundary_id = match safe_number(boundary_id, "boundaryId") {
                Ok(v) => Some(v),
                Err(e) => return Err(e),
            };
            n.start_line = match safe_number(start_line, "startLine") {
                Ok(v) => Some(v),
                Err(e) => return Err(e),
            };
            n.end_line = match safe_number(end_line, "endLine") {
                Ok(v) => Some(v),
                Err(e) => return Err(e),
            };
            n.lines = Some(lines);
            match set_mode(&mut n, mode) {
                Ok(()) => Ok(n),
                Err(e) => Err(e),
            }
        },
        SstvEvent::ProtocolObserved { mode, detection, trusted } => {
            let mut n = blank_notice(NoticeKind::ProtocolObserved);
            n.trusted = Some(trusted);
            set_detection(&mut n, detection);
            match set_mode(&mut n, mode) {
                Ok(()) => Ok(n),
                Err(e) => Err(e),
            }
        },
        SstvEvent::UnsupportedPaper => {
            let mut n = blank_notice(NoticeKind::Error);
            n.reason = Some("unsupported SSTV paper event".to_owned());
            Ok(n)
        },
    }
}

/// What each SSTV event is delivered as, field by field: the notification
/// has the event's kind and carries the event's own ids, dimensions, line
/// numbers, revision and flags, the published names of its mode, detection,
/// completeness, reason and boundary, and its row packed three bytes per
/// pixel. An id that a JavaScript number cannot hold is refused under its own
/// field name, ids before the mode, and an unpublished mode is refused.
pub proof fn lemma_sstv_notice_fields(event: SstvEvent, r: Result<SstvNotice, LibError>)
    requires
        sstv_answers(r, sstv_notice_spec(event)),
    ensures
        event is Drain ==> (r matches Ok(n) && n@.kind == NoticeKind::Drain),
        event is Finished ==> (r matches Ok(n) && n@.kind == NoticeKind::Finished),
        event matches SstvEvent::Error(reason) ==> (r matches Ok(n) && n@.kind == NoticeKind::Error && n@.reason
            == Some(reason@)),
        event matches SstvEvent::SignalRejected { reason } ==> (r matches Ok(n) && n@.kind == NoticeKind::SignalRejected
            && n@.reason == Some(reason@)),
        event is UnsupportedFramed ==> (r matches Ok(n) && n@.kind == NoticeKind::Error && n@.reason == Some(
            "unsupported decoder event"@,
        )),
        event is UnsupportedPaper ==> (r matches Ok(n) && n@.kind == NoticeKind::Error && n@.reason == Some(
            "unsupported SSTV paper event"@,
        )),
        event matches SstvEvent::ModeCandidate { candidates } ==> {
            &&& (forall|i: int| 0 <= i < candidates@.len() ==> (#[trigger] bridge_mode_spec(candidates@[i])) is Some)
                ==> (r matches Ok(n) && n@.kind == NoticeKind::ModeCandidate && n@.candidates is Some
                && n@.candidates->0.len() == candidates@.len() && forall|i: int|
                0 <= i < candidates@.len() ==> Some(#[trigger] n@.candidates->0[i]) == bridge_mode_spec(candidates@[i]))
            &&& (exists|i: int| 0 <= i < candidates@.len() && (#[trigger] bridge_mode_spec(candidates@[i])) is None)
                ==> (r matches Err(LibError::ModeUnsupported))
        },
        event matches SstvEvent::ImageStarted { image_id, mode, detection, width, height } ==> {
            &&& !is_safe_integer(image_id as int) ==> (r matches Err(LibError::IntegerOverflow(f)) && f@ == "imageId"@)
            &&& is_safe_integer(image_id as int) && bridge_mode_spec(mode) is None ==> (r matches Err(LibError::ModeUnsupported))
            &&& is_safe_integer(image_id as int) && bridge_mode_spec(mode) is Some ==> (r matches Ok(n)
                && n@.kind == NoticeKind::ImageStarted && n@.image_id == Some(image_id) && n@.mode == bridge_mode_spec(mode)
                && n@.detection == Some(detection_label(detection)) && n@.vis_code == detection_vis_code(detection)
                && n@.ambiguous == detection_ambiguous(detection) && n@.candidate_count == detection_candidate_count(
                detection,
            ) && n@.width == Some(width) && n@.height == Some(height))
        },
        event matches SstvEvent::LineReady { image_id, mode, line_index, revision, completeness, pixels } ==> {
            &&& !is_safe_integer(image_id as int) ==> (r matches Err(LibError::IntegerOverflow(f)) && f@ == "imageId"@)
            &&& is_safe_integer(image_id as int) && bridge_mode_spec(mode) is None ==> (r matches Err(LibError::ModeUnsupported))
            &&& is_safe_integer(image_id as int) && bridge_mode_spec(mode) is Some ==> (r matches Ok(n)
                && n@.kind == NoticeKind::LineReady && n@.image_id == Some(image_id) && n@.mode == bridge_mode_spec(mode)
                && n@.line_index == Some(line_index as u64) && n@.revision == Some(revision) && n@.completeness == Some(
                line_completeness_label(completeness),
            ) && n@.pixels == Some(packed_rgb(pixels@)))
        },
        event matches SstvEvent::ImageCompleted { image_id, mode, lines } ==> {
            &&& !is_safe_integer(image_id as int) ==> (r matches Err(LibError::IntegerOverflow(f)) && f@ == "imageId"@)
            &&& is_safe_integer(image_id as int) && bridge_mode_spec(mode) is None ==> (r matches Err(LibError::ModeUnsupported))
            &&& is_safe_integer(image_id as int) && bridge_mode_spec(mode) is Some ==> (r matches Ok(n)
                && n@.kind == NoticeKind::ImageCompleted && n@.image_id == Some(image_id) && n@.mode == bridge_mode_spec(mode)
                && n@.lines == Some(lines))
        },
        event matches SstvEvent::ImageAborted { image_id, mode, last_line, reason } ==> {
            &&& !is_safe_integer(image_id as int) ==> (r matches Err(LibError::IntegerOverflow(f)) && f@ == "imageId"@)
            &&& is_safe_integer(image_id as int) && bridge_mode_spec(mode) is None ==> (r matches Err(LibError::ModeUnsupported))
            &&& is_safe_integer(image_id as int) && bridge_mode_spec(mode) is Some ==> (r matches Ok(n)
                && n@.kind == NoticeKind::ImageAborted && n@.image_id == Some(image_id) && n@.mode == bridge_mode_spec(mode)
                && n@.last_line == last_line && n@.reason == Some(abort_reason_label(reason)))
        },
        event matches SstvEvent::PaperStarted { paper_id, mode, width } ==> {
            &&& !is_safe_integer(paper_id as int) ==> (r matches Err(LibError::IntegerOverflow(f)) && f@ == "paperId"@)
            &&& is_safe_integer(paper_id as int) && bridge_mode_spec(mode) is None ==> (r matches Err(LibError::ModeUnsupported))
            &&& is_safe_integer(paper_id as int) && bridge_mode_spec(mode) is Some ==> (r matches Ok(n)
                && n@.kind == NoticeKind::PaperStarted && n@.paper_id == Some(paper_id) && n@.mode == bridge_mode_spec(mode)
                && n@.width == Some(width))
        },
        event matches SstvEvent::RasterBoundary {
            paper_id,
            boundary_id,
            line_index,
            mode,
            detection,
            kind,
            trusted,
            width,
            nominal_height,
        } ==> {
            &&& !is_safe_integer(paper_id as int) ==> (r matches Err(LibError::IntegerOverflow(f)) && f@ == "paperId"@)
            &&& is_safe_integer(paper_id as int) && !is_safe_integer(boundary_id as int) ==> (r matches Err(
                LibError::IntegerOverflow(f),
            ) && f@ == "boundaryId"@)
            &&& is_safe_integer(paper_id as int) && is_safe_integer(boundary_id as int) && !is_safe_integer(
                line_index as int,
            ) ==> (r matches Err(LibError::IntegerOverflow(f)) && f@ == "lineIndex"@)
            &&& is_safe_integer(paper_id as int) && is_safe_integer(boundary_id as int) && is_safe_integer(
                line_index as int,
            ) && bridge_mode_spec(mode) is None ==> (r matches Err(LibError::ModeUnsupported))
            &&& is_safe_integer(paper_id as int) && is_safe_integer(boundary_id as int) && is_safe_integer(
                line_index as int,
            ) && bridge_mode_spec(mode) is Some ==> (r matches Ok(n) && n@.kind == NoticeKind::RasterBoundary
                && n@.paper_id == Some(paper_id) && n@.boundary_id == Some(boundary_id) && n@.line_index == Some(
                line_index,
            ) && n@.mode == bridge_mode_spec(mode) && n@.boundary_kind == Some(boundary_label(kind)) && n@.trusted
                == Some(trusted) && n@.width == Some(width) && n@.nominal_height == Some(nominal_height) && (
            detection matches Some(d) ==> n@.detection == Some(detection_label(d)) && n@.vis_code
                == detection_vis_code(d) && n@.ambiguous == detection_ambiguous(d) && n@.candidate_count
                == detection_candidate_count(d)) && (detection is None ==> n@.detection is None && n@.vis_code is None
                && n@.ambiguous is None && n@.candidate_count is None))
        },
        event matches SstvEvent::RasterLineReady {
            paper_id,
            boundary_id,
            line_index,
            mode_line_index,
            mode,
            revision,
            completeness,
            pixels,
        } ==> {
            &&& !is_safe_integer(paper_id as int) ==> (r matches Err(LibError::IntegerOverflow(f)) && f@ == "paperId"@)
            &&& is_safe_integer(paper_id as int) && !is_safe_integer(boundary_id as int) ==> (r matches Err(
                LibError::IntegerOverflow(f),
            ) && f@ == "boundaryId"@)
            &&& is_safe_integer(paper_id as int) && is_safe_integer(boundary_id as int) && !is_safe_integer(
                line_index as int,
            ) ==> (r matches Err(LibError::IntegerOverflow(f)) && f@ == "lineIndex"@)
            &&& is_safe_integer(paper_id as int) && is_safe_integer(boundary_id as int) && is_safe_integer(
                line_index as int,
            ) && bridge_mode_spec(mode) is None ==> (r matches Err(LibError::ModeUnsupported))
            &&& is_safe_integer(paper_id as int) && is_safe_integer(boundary_id as int) && is_safe_integer(
                line_index as int,
            ) && bridge_mode_spec(mode) is Some ==> (r matches Ok(n) && n@.kind == NoticeKind::RasterLineReady
                && n@.paper_id == Some(paper_id) && n@.boundary_id == Some(boundary_id) && n@.line_index == Some(
                line_index,
            ) && n@.mode_line_index == Some(mode_line_index) && n@.mode == bridge_mode_spec(mode) && n@.revision
                == Some(revision) && n@.completeness == Some(line_completeness_label(completeness)) && n@.pixels == Some(
                packed_rgb(pixels@),
            ))
        },
        event matches SstvEvent::TransmissionCompleted { paper_id, boundary_id, start_line, end_line, mode, lines } ==> {
            &&& !is_safe_integer(paper_id as int) ==> (r matches Err(LibError::IntegerOverflow(f)) && f@ == "paperId"@)
            &&& is_safe_integer(paper_id as int) && !is_safe_integer(boundary_id as int) ==> (r matches Err(
                LibError::IntegerOverflow(f),
            ) && f@ == "boundaryId"@)
            &&& is_safe_integer(paper_id as int) && is_safe_integer(boundary_id as int) && !is_safe_integer(
                start_line as int,
            ) ==> (r matches Err(LibError::IntegerOverflow(f)) && f@ == "startLine"@)
            &&& is_safe_integer(paper_id as int) && is_safe_integer(boundary_id as int) && is_safe_integer(
                start_line as int,
            ) && !is_safe_integer(end_line as int) ==> (r matches Err(LibError::IntegerOverflow(f)) && f@
                == "endLine"@)
            &&& is_safe_integer(paper_id as int) && is_safe_integer(boundary_id as int) && is_safe_integer(
                start_line as int,
            ) && is_safe_integer(end_line as int) && bridge_mode_spec(mode) is None ==> (r matches Err(
                LibError::ModeUnsupported,
            ))
            &&& is_safe_integer(paper_id as int) && is_safe_integer(boundary_id as int) && is_safe_integer(
                start_line as int,
            ) && is_safe_integer(end_line as int) && bridge_mode_spec(mode) is Some ==> (r matches Ok(n)
                && n@.kind == NoticeKind::TransmissionCompleted && n@.paper_id == Some(paper_id) && n@.boundary_id
                == Some(boundary_id) && n@.start_line == Some(start_line) && n@.end_line == Some(end_line) && n@.mode
                == bridge_mode_spec(mode) && n@.lines == Some(lines))
        },
        event matches SstvEvent::ProtocolObserved { mode, detection, trusted } ==> {
            &&& bridge_mode_spec(mode) is None ==> (r matches Err(LibError::ModeUnsupported))
            &&& bridge_mode_spec(mode) is Some ==> (r matches Ok(n) && n@.kind == NoticeKind::ProtocolObserved && n@.mode
                == bridge_mode_spec(mode) && n@.detection == Some(detection_label(detection)) && n@.vis_code
                == detection_vis_code(detection) && n@.ambiguous == detection_ambiguous(detection)
                && n@.candidate_count == detection_candidate_count(detection) && n@.trusted == Some(trusted))
        },
{
    match event {
        SstvEvent::ModeCandidate { candidates } => {
            if all_published(candidates@) {
                assert forall|i: int| 0 <= i < candidates@.len() implies Some(#[trigger] bridged(candidates@)[i])
                    == bridge_mode_spec(candidates@[i]) by {}
            }
        },
        _ => {},
    }
}

} // verus!
