use rasterwave::fax::FaxIoc;
use vstd::prelude::*;

use crate::clock::{
    ClockSourceKind, ClockStatusKind, RasterBasisKind, clock_source_label, clock_source_name, clock_status_label,
    clock_status_name, raster_basis_label, raster_basis_name,
};
use crate::config::{ModulationKind, modulation_label, modulation_name};
use crate::error::LibError;
use crate::limits::{is_safe_integer, safe_number};
use crate::modes::{JsFaxIoc, bridge_ioc, bridge_ioc_spec};
use crate::names::{BoundaryKind, boundary_label, paper_boundary_name};
use crate::notify::{NoticeFault, NoticeKind, fault_answered, guard};
use crate::sstv_notice::{opt_bytes, opt_name, opt_string};

verus! {

/// The plain parts of a radiofax transmission specification.
#[derive(Clone, Copy)]
pub struct FaxSpecFields {
    pub ioc: FaxIoc,
    pub lpm: u16,
    pub width: u32,
    pub modulation: ModulationKind,
}

/// The plain parts of a radiofax clock calibration point; its phase, drift
/// and confidence are floating point and travel beside the event.
#[derive(Clone, Copy)]
pub struct ClockFields {
    pub revision: u32,
    pub reference_line: u64,
    pub source: ClockSourceKind,
    pub status: ClockStatusKind,
}

/// What a radiofax decoder reports to its event callback, as plain values:
/// the codec's framed and continuous-paper events, plus the queue's own
/// `drain`, `finished` and `error`.
pub enum FaxEvent {
    Drain,
    Finished,
    Error(String),
    AptDetected { ioc: FaxIoc },
    PhasingLocked { ioc: FaxIoc, lpm: u16, width: u32, clock: ClockFields },
    PageStarted { page_id: u64, spec: FaxSpecFields, clock: ClockFields },
    LineReady { page_id: u64, line_index: u32, pixels: Vec<u8>, basis: RasterBasisKind },
    PageCompleted { page_id: u64, lines: u32, partial: bool },
    SignalRejected { reason: String },
    /// A framed event that a newer codec introduced.
    UnsupportedFramed,
    PaperStarted { paper_id: u64, spec: FaxSpecFields },
    RasterBoundary {
        paper_id: u64,
        boundary_id: u64,
        line_index: u64,
        spec: FaxSpecFields,
        kind: BoundaryKind,
        trusted: bool,
    },
    ClockCalibration { paper_id: u64, boundary_id: u64, clock: ClockFields },
    RasterLineReady {
        paper_id: u64,
        boundary_id: u64,
        line_index: u64,
        segment_line_index: u32,
        spec: FaxSpecFields,
        pixels: Vec<u8>,
        basis: RasterBasisKind,
    },
    TransmissionCompleted {
        paper_id: u64,
        boundary_id: u64,
        start_line: u64,
        end_line: u64,
        spec: FaxSpecFields,
        lines: u32,
    },
    ProtocolObserved { spec: FaxSpecFields, trusted: bool },
    /// A continuous-paper event that a newer codec introduced.
    UnsupportedPaper,
}

/// The notification a radiofax event is delivered as; counts are safe
/// integers.
pub struct FaxNotice {
    pub kind: NoticeKind,
    pub page_id: Option<u64>,
    pub paper_id: Option<u64>,
    pub boundary_id: Option<u64>,
    pub ioc: Option<JsFaxIoc>,
    pub lpm: Option<u32>,
    pub width: Option<u32>,
    pub modulation: Option<&'static str>,
    pub line_index: Option<u64>,
    pub segment_line_index: Option<u32>,
    pub pixels: Option<Vec<u8>>,
    pub lines: Option<u32>,
    pub partial: Option<bool>,
    pub reason: Option<String>,
    pub boundary_kind: Option<&'static str>,
    pub trusted: Option<bool>,
    pub start_line: Option<u64>,
    pub end_line: Option<u64>,
    pub basis: Option<&'static str>,
    pub revision: Option<u32>,
    pub reference_line: Option<u64>,
    pub clock_source: Option<&'static str>,
    pub clock_status: Option<&'static str>,
}

/// A radiofax notification with its texts and buffers taken by their
/// contents.
pub struct FaxNoticeView {
    pub kind: NoticeKind,
    pub page_id: Option<u64>,
    pub paper_id: Option<u64>,
    pub boundary_id: Option<u64>,
    pub ioc: Option<JsFaxIoc>,
    pub lpm: Option<u32>,
    pub width: Option<u32>,
    pub modulation: Option<Seq<char>>,
    pub line_index: Option<u64>,
    pub segment_line_index: Option<u32>,
    pub pixels: Option<Seq<u8>>,
    pub lines: Option<u32>,
    pub partial: Option<bool>,
    pub reason: Option<Seq<char>>,
    pub boundary_kind: Option<Seq<char>>,
    pub trusted: Option<bool>,
    pub start_line: Option<u64>,
    pub end_line: Option<u64>,
    pub basis: Option<Seq<char>>,
    pub revision: Option<u32>,
    pub reference_line: Option<u64>,
    pub clock_source: Option<Seq<char>>,
    pub clock_status: Option<Seq<char>>,
}

impl View for FaxNotice {
    type V = FaxNoticeView;

    open spec fn view(&self) -> FaxNoticeView {
        FaxNoticeView {
            kind: self.kind,
            page_id: self.page_id,
            paper_id: self.paper_id,
            boundary_id: self.boundary_id,
            ioc: self.ioc,
            lpm: self.lpm,
            width: self.width,
            modulation: opt_name(self.modulation),
            line_index: self.line_index,
            segment_line_index: self.segment_line_index,
            pixels: opt_bytes(self.pixels),
            lines: self.lines,
            partial: self.partial,
            reason: opt_string(self.reason),
            boundary_kind: opt_name(self.boundary_kind),
            trusted: self.trusted,
            start_line: self.start_line,
            end_line: self.end_line,
            basis: opt_name(self.basis),
            revision: self.revision,
            reference_line: self.reference_line,
            clock_source: opt_name(self.clock_source),
            clock_status: opt_name(self.clock_status),
        }
    }
}

/// A notification of the given kind with no field filled.
pub open spec fn blank_fax(kind: NoticeKind) -> FaxNoticeView {
    FaxNoticeView {
        kind,
        page_id: None,
        paper_id: None,
        boundary_id: None,
        ioc: None,
        lpm: None,
        width: None,
        modulation: None,
        line_index: None,
        segment_line_index: None,
        pixels: None,
        lines: None,
        partial: None,
        reason: None,
        boundary_kind: None,
        trusted: None,
        start_line: None,
        end_line: None,
        basis: None,
        revision: None,
        reference_line: None,
        clock_source: None,
        clock_status: None,
    }
}

/// `v` with the fields that describe a transmission specification.
pub open spec fn with_spec(v: FaxNoticeView, spec: FaxSpecFields) -> FaxNoticeView {
    FaxNoticeView {
        ioc: Some(bridge_ioc_spec(spec.ioc)),
        lpm: Some(spec.lpm as u32),
        width: Some(spec.width),
        modulation: Some(modulation_label(spec.modulation)),
        ..v
    }
}

/// `v` with the fields that describe a clock calibration, refused when its
/// reference line is not a safe integer.
pub open spec fn with_clock(v: FaxNoticeView, clock: ClockFields) -> Result<FaxNoticeView, NoticeFault> {
    guard(
        clock.reference_line,
        "referenceLine"@,
        Ok(
            FaxNoticeView {
                revision: Some(clock.revision),
                reference_line: Some(clock.reference_line),
                clock_source: Some(clock_source_label(clock.source)),
                clock_status: Some(clock_status_label(clock.status)),
                ..v
            },
        ),
    )
}

/// The notification a radiofax event is delivered as, or the fault that
/// refuses it. Counts are checked in the order of the notification's fields.
pub open spec fn fax_notice_spec(event: FaxEvent) -> Result<FaxNoticeView, NoticeFault> {
    match event {
        FaxEvent::Drain => Ok(blank_fax(NoticeKind::Drain)),
        FaxEvent::Finished => Ok(blank_fax(NoticeKind::Finished)),
        FaxEvent::Error(reason) => Ok(FaxNoticeView { reason: Some(reason@), ..blank_fax(NoticeKind::Error) }),
        FaxEvent::AptDetected { ioc } => Ok(
            FaxNoticeView { ioc: Some(bridge_ioc_spec(ioc)), ..blank_fax(NoticeKind::AptDetected) },
        ),
        FaxEvent::PhasingLocked { ioc, lpm, width, clock } => with_clock(
            FaxNoticeView {
                ioc: Some(bridge_ioc_spec(ioc)),
                lpm: Some(lpm as u32),
                width: Some(width),
                ..blank_fax(NoticeKind::PhasingLocked)
            },
            clock,
        ),
        FaxEvent::PageStarted { page_id, spec, clock } => guard(
            page_id,
            "pageId"@,
            with_clock(with_spec(FaxNoticeView { page_id: Some(page_id), ..blank_fax(NoticeKind::PageStarted) }, spec), clock),
        ),
        FaxEvent::LineReady { page_id, line_index, pixels, basis } => guard(
            page_id,
            "pageId"@,
            Ok(
                FaxNoticeView {
                    page_id: Some(page_id),
                    line_index: Some(line_index as u64),
                    pixels: Some(pixels@),
                    basis: Some(raster_basis_label(basis)),
                    ..blank_fax(NoticeKind::LineReady)
                },
            ),
        ),
        FaxEvent::PageCompleted { page_id, lines, partial } => guard(
            page_id,
            "pageId"@,
            Ok(
                FaxNoticeView {
                    page_id: Some(page_id),
                    lines: Some(lines),
                    partial: Some(partial),
                    ..blank_fax(NoticeKind::PageCompleted)
                },
            ),
        ),
        FaxEvent::SignalRejected { reason } => Ok(
            FaxNoticeView { reason: Some(reason@), ..blank_fax(NoticeKind::SignalRejected) },
        ),
        FaxEvent::UnsupportedFramed => Ok(
            FaxNoticeView { reason: Some("unsupported fax decoder event"@), ..blank_fax(NoticeKind::Error) },
        ),
        FaxEvent::PaperStarted { paper_id, spec } => guard(
            paper_id,
            "paperId"@,
            Ok(with_spec(FaxNoticeView { paper_id: Some(paper_id), ..blank_fax(NoticeKind::PaperStarted) }, spec)),
        ),
        FaxEvent::RasterBoundary { paper_id, boundary_id, line_index, spec, kind, trusted } => guard(
            paper_id,
            "paperId"@,
            guard(boundary_id, "boundaryId"@, guard(line_index, "lineIndex"@, Ok(
                with_spec(
                    FaxNoticeView {
                        paper_id: Some(paper_id),
                        boundary_id: Some(boundary_id),
                        line_index: Some(line_index),
                        boundary_kind: Some(boundary_label(kind)),
                        trusted: Some(trusted),
                        ..blank_fax(NoticeKind::RasterBoundary)
                    },
                    spec,
                ),
            ))),
        ),
        FaxEvent::ClockCalibration { paper_id, boundary_id, clock } => guard(
            paper_id,
            "paperId"@,
            guard(boundary_id, "boundaryId"@, with_clock(
                FaxNoticeView {
                    paper_id: Some(paper_id),
                    boundary_id: Some(boundary_id),
                    ..blank_fax(NoticeKind::ClockCalibration)
                },
                clock,
            )),
        ),
        FaxEvent::RasterLineReady { paper_id, boundary_id, line_index, segment_line_index, spec, pixels, basis } => guard(
            paper_id,
            "paperId"@,
            guard(boundary_id, "boundaryId"@, guard(line_index, "lineIndex"@, Ok(
                with_spec(
                    FaxNoticeView {
                        paper_id: Some(paper_id),
                        boundary_id: Some(boundary_id),
                        line_index: Some(line_index),
                        segment_line_index: Some(segment_line_index),
                        pixels: Some(pixels@),
                        basis: Some(raster_basis_label(basis)),
                        ..blank_fax(NoticeKind::RasterLineReady)
                    },
                    spec,
                ),
            ))),
        ),
        FaxEvent::TransmissionCompleted { paper_id, boundary_id, start_line, end_line, spec, lines } => guard(
            paper_id,
            "paperId"@,
            guard(boundary_id, "boundaryId"@, guard(start_line, "startLine"@, guard(end_line, "endLine"@, Ok(
                with_spec(
                    FaxNoticeView {
                        paper_id: Some(paper_id),
                        boundary_id: Some(boundary_id),
                        start_line: Some(start_line),
                        end_line: Some(end_line),
                        lines: Some(lines),
                        partial: Some(false),
                        ..blank_fax(NoticeKind::TransmissionCompleted)
                    },
                    spec,
                ),
            )))),
        ),
        FaxEvent::ProtocolObserved { spec, trusted } => Ok(
            with_spec(FaxNoticeView { trusted: Some(trusted), ..blank_fax(NoticeKind::ProtocolObserved) }, spec),
        ),
        FaxEvent::UnsupportedPaper => Ok(
            FaxNoticeView { reason: Some("unsupported fax paper event"@), ..blank_fax(NoticeKind::Error) },
        ),
    }
}

/// `r` is the answer that `expected` calls for.
pub open spec fn fax_answers(r: Result<FaxNotice, LibError>, expected: Result<FaxNoticeView, NoticeFault>) -> bool {
    match expected {
        Ok(v) => r matches Ok(n) && n@ == v,
        Err(fault) => fault_answered(r, fault),
    }
}

/// Whether an event carries a clock calibration, which then becomes the
/// decoder's reported clock state.
pub open spec fn carries_clock_spec(event: FaxEvent) -> bool {
    event is PhasingLocked || event is PageStarted || event is ClockCalibration
}

/// Whether `event` carries a clock calibration.
pub fn carries_clock(event: &FaxEvent) -> (r: bool)
    ensures
        r == carries_clock_spec(*event),
{
    match event {
        FaxEvent::PhasingLocked { .. } | FaxEvent::PageStarted { .. } | FaxEvent::ClockCalibration { .. } => true,
        _ => false,
    }
}

fn blank_notice(kind: NoticeKind) -> (n: FaxNotice)
    ensures
        n@ == blank_fax(kind),
{
    FaxNotice {
        kind,
        page_id: None,
        paper_id: None,
        boundary_id: None,
        ioc: None,
        lpm: None,
        width: None,
        modulation: None,
        line_index: None,
        segment_line_index: None,
        pixels: None,
        lines: None,
        partial: None,
        reason: None,
        boundary_kind: None,
        trusted: None,
        start_line: None,
        end_line: None,
        basis: None,
        revision: None,
        reference_line: None,
        clock_source: None,
        clock_status: None,
    }
}

fn set_spec(n: &mut FaxNotice, spec: FaxSpecFields)
    ensures
        final(n)@ == with_spec(old(n)@, spec),
{
    n.ioc = Some(bridge_ioc(spec.ioc));
    n.lpm = Some(spec.lpm as u32);
    n.width = Some(spec.width);
    n.modulation = Some(modulation_name(spec.modulation));
}

fn set_clock(n: &mut FaxNotice, clock: ClockFields) -> (r: Result<(), LibError>)
    ensures
        with_clock(old(n)@, clock) matches Ok(v) ==> r is Ok && final(n)@ == v,
        with_clock(old(n)@, clock) matches Err(fault) ==> fault_answered(r, fault),
{
    n.revision = Some(clock.revision);
    n.reference_line = match safe_number(clock.reference_line, "referenceLine") {
        Ok(v) => Some(v),
        Err(e) => return Err(e),
    };
    n.clock_source = Some(clock_source_name(clock.source));
    n.clock_status = Some(clock_status_name(clock.status));
    Ok(())
}

/// Builds the notification a radiofax decoder delivers for `event`: its
/// type, the fields the event fills, and counts refused by name when a
/// JavaScript number cannot hold them. Pixel rows pass through unchanged.
pub fn fax_notice(event: FaxEvent) -> (r: Result<FaxNotice, LibError>)
    ensures
        fax_answers(r, fax_notice_spec(event)),
{
    match event {
        FaxEvent::Drain => Ok(blank_notice(NoticeKind::Drain)),
        FaxEvent::Finished => Ok(blank_notice(NoticeKind::Finished)),
        FaxEvent::Error(reason) => {
            let mut n = blank_notice(NoticeKind::Error);
            n.reason = Some(reason);
            Ok(n)
        },
        FaxEvent::AptDetected { ioc } => {
            let mut n = blank_notice(NoticeKind::AptDetected);
            n.ioc = Some(bridge_ioc(ioc));
            Ok(n)
        },
        FaxEvent::PhasingLocked { ioc, lpm, width, clock } => {
            let mut n = blank_notice(NoticeKind::PhasingLocked);
            n.ioc = Some(bridge_ioc(ioc));
            n.lpm = Some(lpm as u32);
            n.width = Some(width);
            match set_clock(&mut n, clock) {
                Ok(()) => Ok(n),
                Err(e) => Err(e),
            }
        },
        FaxEvent::PageStarted { page_id, spec, clock } => {
            let mut n = blank_notice(NoticeKind::PageStarted);
            n.page_id = match safe_number(page_id, "pageId") {
                Ok(v) => Some(v),
                Err(e) => return Err(e),
            };
            set_spec(&mut n, spec);
            match set_clock(&mut n, clock) {
                Ok(()) => Ok(n),
                Err(e) => Err(e),
            }
        },
        FaxEvent::LineReady { page_id, line_index, pixels, basis } => {
            let mut n = blank_notice(NoticeKind::LineReady);
            n.page_id = match safe_number(page_id, "pageId") {
                Ok(v) => Some(v),
                Err(e) => return Err(e),
            };
            n.line_index = Some(line_index as u64);
            n.pixels = Some(pixels);
            n.basis = Some(raster_basis_name(basis));
            Ok(n)
        },
        FaxEvent::PageCompleted { page_id, lines, partial } => {
            let mut n = blank_notice(NoticeKind::PageCompleted);
            n.page_id = match safe_number(page_id, "pageId") {
                Ok(v) => Some(v),
                Err(e) => return Err(e),
            };
            n.lines = Some(lines);
            n.partial = Some(partial);
            Ok(n)
        },
        FaxEvent::SignalRejected { reason } => {
            let mut n = blank_notice(NoticeKind::SignalRejected);
            n.reason = Some(reason);
            Ok(n)
        },
        FaxEvent::UnsupportedFramed => {
            let mut n = blank_notice(NoticeKind::Error);
            n.reason = Some("unsupported fax decoder event".to_owned());
            Ok(n)
        },
        FaxEvent::PaperStarted { paper_id, spec } => {
            let mut n = blank_notice(NoticeKind::PaperStarted);
            n.paper_id = match safe_number(paper_id, "paperId") {
                Ok(v) => Some(v),
                Err(e) => return Err(e),
            };
            set_spec(&mut n, spec);
            Ok(n)
        },
        FaxEvent::RasterBoundary { paper_id, boundary_id, line_index, spec, kind, trusted } => {
            let mut n = blank_notice(NoticeKind::RasterBoundary);
            n.paper_id = match safe_number(paper_id, "paperId") {
                Ok(v) => Some(v),
                Err(e) => return Err(e),
            };
            n.boundary_id = match safe_number(boundary_id, "boundaryId") {
                Ok(v) => Some(v),
                Err(e) => return Err(e),
            };
            n.line_index = match safe_number(line_index, "lineIndex") {
                Ok(v) => Some(v),
                Err(e) => return Err(e),
            };
            set_spec(&mut n, spec);
            n.boundary_kind = Some(paper_boundary_name(kind));
            n.trusted = Some(trusted);
            Ok(n)
        },
        FaxEvent::ClockCalibration { paper_id, boundary_id, clock } => {
            let mut n = blank_notice(NoticeKind::ClockCalibration);
            n.paper_id = match safe_number(paper_id, "paperId") {
                Ok(v) => Some(v),
                Err(e) => return Err(e),
            };
            n.boundary_id = match safe_number(boundary_id, "boundaryId") {
                Ok(v) => Some(v),
                Err(e) => return Err(e),
            };
            match set_clock(&mut n, clock) {
                Ok(()) => Ok(n),
                Err(e) => Err(e),
            }
        },
        FaxEvent::RasterLineReady { paper_id, boundary_id, line_index, segment_line_index, spec, pixels, basis } => {
            let mut n = blank_notice(NoticeKind::RasterLineReady);
            n.paper_id = match safe_number(paper_id, "paperId") {
                Ok(v) => Some(v),
                Err(e) => return Err(e),
            };
            n.boundary_id = match safe_number(boundary_id, "boundaryId") {
                Ok(v) => Some(v),
                Err(e) => return Err(e),
            };
            n.line_index = match safe_number(line_index, "lineIndex") {
                Ok(v) => Some(v),
                Err(e) => return Err(e),
            };
            n.segment_line_index = Some(segment_line_index);
            set_spec(&mut n, spec);
            n.pixels = Some(pixels);
            n.basis = Some(raster_basis_name(basis));
            Ok(n)
        },
        FaxEvent::TransmissionCompleted { paper_id, boundary_id, start_line, end_line, spec, lines } => {
            let mut n = blank_notice(NoticeKind::TransmissionCompleted);
            n.paper_id = match safe_number(paper_id, "paperId") {
                Ok(v) => Some(v),
                Err(e) => return Err(e),
            };
            n.boundary_id = match safe_number(boundary_id, "boundaryId") {
                Ok(v) => Some(v),
                Err(e) => return Err(e),
            };
            n.start_line = match safe_number(start_line, "startLine") {
                Ok(v) => Some(v),
                Err(e) => return Err(e),
            };
            n.end_line = match safe_number(end_line, "endLine") {
                Ok(v) => Some(v),
                Err(e) => return Err(e),
            };
            set_spec(&mut n, spec);
            n.lines = Some(lines);
            n.partial = Some(false);
            Ok(n)
        },
        FaxEvent::ProtocolObserved { spec, trusted } => {
            let mut n = blank_notice(NoticeKind::ProtocolObserved);
            set_spec(&mut n, spec);
            n.trusted = Some(trusted);
            Ok(n)
        },
        FaxEvent::UnsupportedPaper => {
            let mut n = blank_notice(NoticeKind::Error);
            n.reason = Some("unsupported fax paper event".to_owned());
            Ok(n)
        },
    }
}

/// What each radiofax event is delivered as, field by field: the
/// notification has the event's kind and carries the event's own ids, line
/// numbers, line counts and flags, its row unchanged, the published names of
/// its index of cooperation, modulation, basis, boundary and clock, and the
/// line rate and width of its specification. An id that a JavaScript number
/// cannot hold is refused under its own field name, in the order of the
/// fields.
pub proof fn lemma_fax_notice_fields(event: FaxEvent, r: Result<FaxNotice, LibError>)
    requires
        fax_answers(r, fax_notice_spec(event)),
    ensures
        event is Drain ==> (r matches Ok(n) && n@.kind == NoticeKind::Drain),
        event is Finished ==> (r matches Ok(n) && n@.kind == NoticeKind::Finished),
        event matches FaxEvent::Error(reason) ==> (r matches Ok(n) && n@.kind == NoticeKind::Error && n@.reason == Some(reason@)),
        event matches FaxEvent::SignalRejected { reason } ==> (r matches Ok(n) && n@.kind == NoticeKind::SignalRejected && n@.reason == Some(reason@)),
        event is UnsupportedFramed ==> (r matches Ok(n) && n@.kind == NoticeKind::Error && n@.reason == Some("unsupported fax decoder event"@)),
        event is UnsupportedPaper ==> (r matches Ok(n) && n@.kind == NoticeKind::Error && n@.reason == Some("unsupported fax paper event"@)),
        event matches FaxEvent::AptDetected { ioc } ==> (r matches Ok(n) && n@.kind == NoticeKind::AptDetected && n@.ioc == Some(bridge_ioc_spec(ioc))),
        event matches FaxEvent::PhasingLocked { ioc, lpm, width, clock } ==> {
            &&& !is_safe_integer(clock.reference_line as int) ==> (r matches Err(LibError::IntegerOverflow(f)) && f@ == "referenceLine"@)
            &&& is_safe_integer(clock.reference_line as int) ==> (r matches Ok(n) && n@.kind == NoticeKind::PhasingLocked && n@.ioc == Some(bridge_ioc_spec(ioc)) && n@.lpm == Some(lpm as u32) && n@.width == Some(width) && n@.revision == Some(clock.revision) && n@.reference_line == Some(clock.reference_line) && n@.clock_source == Some(clock_source_label(clock.source)) && n@.clock_status == Some(clock_status_label(clock.status)))
        },
        event matches FaxEvent::PageStarted { page_id, spec, clock } ==> {
            &&& !is_safe_integer(page_id as int) ==> (r matches Err(LibError::IntegerOverflow(f)) && f@ == "pageId"@)
            &&& is_safe_integer(page_id as int) && !is_safe_integer(clock.reference_line as int) ==> (r matches Err(LibError::IntegerOverflow(f)) && f@ == "referenceLine"@)
            &&& is_safe_integer(page_id as int) && is_safe_integer(clock.reference_line as int) ==> (r matches Ok(n) && n@.kind == NoticeKind::PageStarted && n@.page_id == Some(page_id) && n@.ioc == Some(bridge_ioc_spec(spec.ioc)) && n@.lpm == Some(spec.lpm as u32) && n@.width == Some(spec.width) && n@.modulation == Some(modulation_label(spec.modulation)) && n@.revision == Some(clock.revision) && n@.reference_line == Some(clock.reference_line) && n@.clock_source == Some(clock_source_label(clock.source)) && n@.clock_status == Some(clock_status_label(clock.status)))
        },
        event matches FaxEvent::LineReady { page_id, line_index, pixels, basis } ==> {
            &&& !is_safe_integer(page_id as int) ==> (r matches Err(LibError::IntegerOverflow(f)) && f@ == "pageId"@)
            &&& is_safe_integer(page_id as int) ==> (r matches Ok(n) && n@.kind == NoticeKind::LineReady && n@.page_id == Some(page_id) && n@.line_index == Some(line_index as u64) && n@.pixels == Some(pixels@) && n@.basis == Some(raster_basis_label(basis)))
        },
        event matches FaxEvent::PageCompleted { page_id, lines, partial } ==> {
            &&& !is_safe_integer(page_id as int) ==> (r matches Err(LibError::IntegerOverflow(f)) && f@ == "pageId"@)
            &&& is_safe_integer(page_id as int) ==> (r matches Ok(n) && n@.kind == NoticeKind::PageCompleted && n@.page_id == Some(page_id) && n@.lines == Some(lines) && n@.partial == Some(partial))
        },
        event matches FaxEvent::PaperStarted { paper_id, spec } ==> {
            &&& !is_safe_integer(paper_id as int) ==> (r matches Err(LibError::IntegerOverflow(f)) && f@ == "paperId"@)
            &&& is_safe_integer(paper_id as int) ==> (r matches Ok(n) && n@.kind == NoticeKind::PaperStarted && n@.paper_id == Some(paper_id) && n@.ioc == Some(bridge_ioc_spec(spec.ioc)) && n@.lpm == Some(spec.lpm as u32) && n@.width == Some(spec.width) && n@.modulation == Some(modulation_label(spec.modulation)))
        },
        event matches FaxEvent::RasterBoundary { paper_id, boundary_id, line_index, spec, kind, trusted } ==> {
            &&& !is_safe_integer(paper_id as int) ==> (r matches Err(LibError::IntegerOverflow(f)) && f@ == "paperId"@)
            &&& is_safe_integer(paper_id as int) && !is_safe_integer(boundary_id as int) ==> (r matches Err(LibError::IntegerOverflow(f)) && f@ == "boundaryId"@)
            &&& is_safe_integer(paper_id as int) && is_safe_integer(boundary_id as int) && !is_safe_integer(line_index as int) ==> (r matches Err(LibError::IntegerOverflow(f)) && f@ == "lineIndex"@)
            &&& is_safe_integer(paper_id as int) && is_safe_integer(boundary_id as int) && is_safe_integer(line_index as int) ==> (r matches Ok(n) && n@.kind == NoticeKind::RasterBoundary && n@.paper_id == Some(paper_id) && n@.boundary_id == Some(boundary_id) && n@.line_index == Some(line_index) && n@.ioc == Some(bridge_ioc_spec(spec.ioc)) && n@.lpm == Some(spec.lpm as u32) && n@.width == Some(spec.width) && n@.modulation == Some(modulation_label(spec.modulation)) && n@.boundary_kind == Some(boundary_label(kind)) && n@.trusted == Some(trusted))
        },
        event matches FaxEvent::ClockCalibration { paper_id, boundary_id, clock } ==> {
            &&& !is_safe_integer(paper_id as int) ==> (r matches Err(LibError::IntegerOverflow(f)) && f@ == "paperId"@)
            &&& is_safe_integer(paper_id as int) && !is_safe_integer(boundary_id as int) ==> (r matches Err(LibError::IntegerOverflow(f)) && f@ == "boundaryId"@)
            &&& is_safe_integer(paper_id as int) && is_safe_integer(boundary_id as int) && !is_safe_integer(clock.reference_line as int) ==> (r matches Err(LibError::IntegerOverflow(f)) && f@ == "referenceLine"@)
            &&& is_safe_integer(paper_id as int) && is_safe_integer(boundary_id as int) && is_safe_integer(clock.reference_line as int) ==> (r matches Ok(n) && n@.kind == NoticeKind::ClockCalibration && n@.paper_id == Some(paper_id) && n@.boundary_id == Some(boundary_id) && n@.revision == Some(clock.revision) && n@.reference_line == Some(clock.reference_line) && n@.clock_source == Some(clock_source_label(clock.source)) && n@.clock_status == Some(clock_status_label(clock.status)))
        },
        event matches FaxEvent::RasterLineReady { paper_id, boundary_id, line_index, segment_line_index, spec, pixels, basis } ==> {
            &&& !is_safe_integer(paper_id as int) ==> (r matches Err(LibError::IntegerOverflow(f)) && f@ == "paperId"@)
            &&& is_safe_integer(paper_id as int) && !is_safe_integer(boundary_id as int) ==> (r matches Err(LibError::IntegerOverflow(f)) && f@ == "boundaryId"@)
            &&& is_safe_integer(paper_id as int) && is_safe_integer(boundary_id as int) && !is_safe_integer(line_index as int) ==> (r matches Err(LibError::IntegerOverflow(f)) && f@ == "lineIndex"@)
            &&& is_safe_integer(paper_id as int) && is_safe_integer(boundary_id as int) && is_safe_integer(line_index as int) ==> (r matches Ok(n) && n@.kind == NoticeKind::RasterLineReady && n@.paper_id == Some(paper_id) && n@.boundary_id == Some(boundary_id) && n@.line_index == Some(line_index) && n@.segment_line_index == Some(segment_line_index) && n@.ioc == Some(bridge_ioc_spec(spec.ioc)) && n@.lpm == Some(spec.lpm as u32) && n@.width == Some(spec.width) && n@.modulation == Some(modulation_label(spec.modulation)) && n@.pixels == Some(pixels@) && n@.basis == Some(raster_basis_label(basis)))
        },
        event matches FaxEvent::TransmissionCompleted { paper_id, boundary_id, start_line, end_line, spec, lines } ==> {
            &&& !is_safe_integer(paper_id as int) ==> (r matches Err(LibError::IntegerOverflow(f)) && f@ == "paperId"@)
            &&& is_safe_integer(paper_id as int) && !is_safe_integer(boundary_id as int) ==> (r matches Err(LibError::IntegerOverflow(f)) && f@ == "boundaryId"@)
            &&& is_safe_integer(paper_id as int) && is_safe_integer(boundary_id as int) && !is_safe_integer(start_line as int) ==> (r matches Err(LibError::IntegerOverflow(f)) && f@ == "startLine"@)
            &&& is_safe_integer(paper_id as int) && is_safe_integer(boundary_id as int) && is_safe_integer(start_line as int) && !is_safe_integer(end_line as int) ==> (r matches Err(LibError::IntegerOverflow(f)) && f@ == "endLine"@)
            &&& is_safe_integer(paper_id as int) && is_safe_integer(boundary_id as int) && is_safe_integer(start_line as int) && is_safe_integer(end_line as int) ==> (r matches Ok(n) && n@.kind == NoticeKind::TransmissionCompleted && n@.paper_id == Some(paper_id) && n@.boundary_id == Some(boundary_id) && n@.start_line == Some(start_line) && n@.end_line == Some(end_line) && n@.ioc == Some(bridge_ioc_spec(spec.ioc)) && n@.lpm == Some(spec.lpm as u32) && n@.width == Some(spec.width) && n@.modulation == Some(modulation_label(spec.modulation)) && n@.lines == Some(lines) && n@.partial == Some(false))
        },
        event matches FaxEvent::ProtocolObserved { spec, trusted } ==> (r matches Ok(n) && n@.kind == NoticeKind::ProtocolObserved && n@.ioc == Some(bridge_ioc_spec(spec.ioc)) && n@.lpm == Some(spec.lpm as u32) && n@.width == Some(spec.width) && n@.modulation == Some(modulation_label(spec.modulation)) && n@.trusted == Some(trusted)),
{
}

} // verus!
