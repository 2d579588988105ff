use vstd::prelude::*;

use crate::error::LibError;
use crate::text::text_equals;

verus! {

/// Evidence behind a radiofax clock estimate.
#[derive(Clone, Copy, Debug, PartialEq, Eq, Structural)]
pub enum ClockSourceKind {
    Nominal,
    Phasing,
    ImageContent,
    Manual,
}

/// Lifecycle of radiofax clock recovery.
#[derive(Clone, Copy, Debug, PartialEq, Eq, Structural)]
pub enum ClockStatusKind {
    Nominal,
    Acquiring,
    Locked,
    Tracking,
    Degraded,
}

/// Coordinate basis of a decoded radiofax row.
#[derive(Clone, Copy, Debug, PartialEq, Eq, Structural)]
pub enum RasterBasisKind {
    Calibrated,
    NominalPaper,
}

/// The published name of a clock source.
pub open spec fn clock_source_label(source: ClockSourceKind) -> Seq<char> {
    match source {
        ClockSourceKind::Nominal => "nominal"@,
        ClockSourceKind::Phasing => "phasing"@,
        ClockSourceKind::ImageContent => "imageContent"@,
        ClockSourceKind::Manual => "manual"@,
    }
}

/// The clock source a published name denotes, if any.
pub open spec fn clock_source_from_label(text: Seq<char>) -> Option<ClockSourceKind> {
    if text == "nominal"@ {
        Some(ClockSourceKind::Nominal)
    } else if text == "phasing"@ {
        Some(ClockSourceKind::Phasing)
    } else if text == "imageContent"@ {
        Some(ClockSourceKind::ImageContent)
    } else if text == "manual"@ {
        Some(ClockSourceKind::Manual)
    } else {
        None
    }
}

/// The published name of a clock status.
pub open spec fn clock_status_label(status: ClockStatusKind) -> Seq<char> {
    match status {
        ClockStatusKind::Nominal => "nominal"@,
        ClockStatusKind::Acquiring => "acquiring"@,
        ClockStatusKind::Locked => "locked"@,
        ClockStatusKind::Tracking => "tracking"@,
        ClockStatusKind::Degraded => "degraded"@,
    }
}

/// The clock status a published name denotes, if any.
pub open spec fn clock_status_from_label(text: Seq<char>) -> Option<ClockStatusKind> {
    if text == "nominal"@ {
        Some(ClockStatusKind::Nominal)
    } else if text == "acquiring"@ {
        Some(ClockStatusKind::Acquiring)
    } else if text == "locked"@ {
        Some(ClockStatusKind::Locked)
    } else if text == "tracking"@ {
        Some(ClockStatusKind::Tracking)
    } else if text == "degraded"@ {
        Some(ClockStatusKind::Degraded)
    } else {
        None
    }
}

/// The published name of a raster basis.
pub open spec fn raster_basis_label(basis: RasterBasisKind) -> Seq<char> {
    match basis {
        RasterBasisKind::Calibrated => "calibrated"@,
        RasterBasisKind::NominalPaper => "nominalPaper"@,
    }
}

/// Names a clock source.
pub fn clock_source_name(source: ClockSourceKind) -> (r: &'static str)
    ensures
        r@ == clock_source_label(source),
{
    match source {
        ClockSourceKind::Nominal => "nominal",
        ClockSourceKind::Phasing => "phasing",
        ClockSourceKind::ImageContent => "imageContent",
        ClockSourceKind::Manual => "manual",
    }
}

/// Names a clock status.
pub fn clock_status_name(status: ClockStatusKind) -> (r: &'static str)
    ensures
        r@ == clock_status_label(status),
{
    match status {
        ClockStatusKind::Nominal => "nominal",
        ClockStatusKind::Acquiring => "acquiring",
        ClockStatusKind::Locked => "locked",
        ClockStatusKind::Tracking => "tracking",
        ClockStatusKind::Degraded => "degraded",
    }
}

/// Names a raster basis.
pub fn raster_basis_name(basis: RasterBasisKind) -> (r: &'static str)
    ensures
        r@ == raster_basis_label(basis),
{
    match basis {
        RasterBasisKind::Calibrated => "calibrated",
        RasterBasisKind::NominalPaper => "nominalPaper",
    }
}

/// Reads a clock source back from its published name.
pub fn parse_clock_source(value: &str) -> (r: Result<ClockSourceKind, LibError>)
    ensures
        clock_source_from_label(value@) matches Some(s) ==> r == Ok::<ClockSourceKind, LibError>(s),
        clock_source_from_label(value@) is None ==> r matches Err(LibError::ClockSourceInvalid),
{
    if text_equals(value, "nominal") {
        Ok(ClockSourceKind::Nominal)
    } else if text_equals(value, "phasing") {
        Ok(ClockSourceKind::Phasing)
    } else if text_equals(value, "imageContent") {
        Ok(ClockSourceKind::ImageContent)
    } else if text_equals(value, "manual") {
        Ok(ClockSourceKind::Manual)
    } else {
        Err(LibError::ClockSourceInvalid)
    }
}

/// Reads a clock status back from its published name.
pub fn parse_clock_status(value: &str) -> (r: Result<ClockStatusKind, LibError>)
    ensures
        clock_status_from_label(value@) matches Some(s) ==> r == Ok::<ClockStatusKind, LibError>(s),
        clock_status_from_label(value@) is None ==> r matches Err(LibError::ClockStatusInvalid),
{
    if text_equals(value, "nominal") {
        Ok(ClockStatusKind::Nominal)
    } else if text_equals(value, "acquiring") {
        Ok(ClockStatusKind::Acquiring)
    } else if text_equals(value, "locked") {
        Ok(ClockStatusKind::Locked)
    } else if text_equals(value, "tracking") {
        Ok(ClockStatusKind::Tracking)
    } else if text_equals(value, "degraded") {
        Ok(ClockStatusKind::Degraded)
    } else {
        Err(LibError::ClockStatusInvalid)
    }
}

/// Every published clock-source name reads back as the source it names, and
/// a name reads back only as the source that publishes it.
pub proof fn lemma_clock_source_names_round_trip(source: ClockSourceKind, text: Seq<char>)
    ensures
        clock_source_from_label(clock_source_label(source)) == Some(source),
        clock_source_from_label(text) matches Some(s) ==> clock_source_label(s) == text,
{
    reveal_strlit("nominal");
    reveal_strlit("phasing");
    reveal_strlit("imageContent");
    reveal_strlit("manual");
    assert("nominal"@[0] == 'n');
    assert("phasing"@[0] == 'p');
    assert("imageContent"@[0] == 'i');
    assert("manual"@[0] == 'm');
}

/// Every published clock-status name reads back as the status it names, and
/// a name reads back only as the status that publishes it.
pub proof fn lemma_clock_status_names_round_trip(status: ClockStatusKind, text: Seq<char>)
    ensures
        clock_status_from_label(clock_status_label(status)) == Some(status),
        clock_status_from_label(text) matches Some(s) ==> clock_status_label(s) == text,
{
    reveal_strlit("nominal");
    reveal_strlit("acquiring");
    reveal_strlit("locked");
    reveal_strlit("tracking");
    reveal_strlit("degraded");
    assert("nominal"@[0] == 'n');
    assert("acquiring"@[0] == 'a');
    assert("locked"@[0] == 'l');
    assert("tracking"@[0] == 't');
    assert("degraded"@[0] == 'd');
}

/// Each clock source, clock status and raster basis is published under its
/// own name.
pub proof fn lemma_clock_source_names()
    ensures
        clock_source_label(ClockSourceKind::Nominal) == "nominal"@,
        clock_source_label(ClockSourceKind::Phasing) == "phasing"@,
        clock_source_label(ClockSourceKind::ImageContent) == "imageContent"@,
        clock_source_label(ClockSourceKind::Manual) == "manual"@,
        forall|a: ClockSourceKind, b: ClockSourceKind| clock_source_label(a) == clock_source_label(b) ==> a == b,
        clock_source_from_label("nominal"@) == Some(ClockSourceKind::Nominal),
        clock_source_from_label("phasing"@) == Some(ClockSourceKind::Phasing),
        clock_source_from_label("imageContent"@) == Some(ClockSourceKind::ImageContent),
        clock_source_from_label("manual"@) == Some(ClockSourceKind::Manual),
        forall|t: Seq<char>| t != "nominal"@ && t != "phasing"@ && t != "imageContent"@ && t != "manual"@
            ==> clock_source_from_label(t) is None,
{
    reveal_strlit("nominal");
    reveal_strlit("phasing");
    reveal_strlit("imageContent");
    reveal_strlit("manual");
    assert("nominal"@.len() == 7);
    assert("phasing"@.len() == 7);
    assert("imageContent"@.len() == 12);
    assert("manual"@.len() == 6);
    assert("nominal"@[0] == 'n');
    assert("phasing"@[0] == 'p');
}

/// Each clock status is published under its own name, and only those names
/// read back.
pub proof fn lemma_clock_status_names()
    ensures
        clock_status_label(ClockStatusKind::Nominal) == "nominal"@,
        clock_status_label(ClockStatusKind::Acquiring) == "acquiring"@,
        clock_status_label(ClockStatusKind::Locked) == "locked"@,
        clock_status_label(ClockStatusKind::Tracking) == "tracking"@,
        clock_status_label(ClockStatusKind::Degraded) == "degraded"@,
        forall|a: ClockStatusKind, b: ClockStatusKind| clock_status_label(a) == clock_status_label(b) ==> a == b,
        clock_status_from_label("nominal"@) == Some(ClockStatusKind::Nominal),
        clock_status_from_label("acquiring"@) == Some(ClockStatusKind::Acquiring),
        clock_status_from_label("locked"@) == Some(ClockStatusKind::Locked),
        clock_status_from_label("tracking"@) == Some(ClockStatusKind::Tracking),
        clock_status_from_label("degraded"@) == Some(ClockStatusKind::Degraded),
        forall|t: Seq<char>| t != "nominal"@ && t != "acquiring"@ && t != "locked"@ && t != "tracking"@
            && t != "degraded"@ ==> clock_status_from_label(t) is None,
{
    reveal_strlit("nominal");
    reveal_strlit("acquiring");
    reveal_strlit("locked");
    reveal_strlit("tracking");
    reveal_strlit("degraded");
    assert("nominal"@.len() == 7);
    assert("acquiring"@.len() == 9);
    assert("locked"@.len() == 6);
    assert("tracking"@.len() == 8);
    assert("degraded"@.len() == 8);
    assert("degraded"@[0] == 'd');
    assert("tracking"@[0] == 't');
}

/// Rows are placed on the `calibrated` or the `nominalPaper` basis.
pub proof fn lemma_raster_basis_names()
    ensures
        raster_basis_label(RasterBasisKind::Calibrated) == "calibrated"@,
        raster_basis_label(RasterBasisKind::NominalPaper) == "nominalPaper"@,
        raster_basis_label(RasterBasisKind::Calibrated) != raster_basis_label(RasterBasisKind::NominalPaper),
{
    reveal_strlit("calibrated");
    reveal_strlit("nominalPaper");
    assert("calibrated"@.len() == 10);
    assert("nominalPaper"@.len() == 12);
}

} // verus!
