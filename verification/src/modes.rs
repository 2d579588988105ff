use vstd::prelude::*;

use rasterwave::SstvMode;
use rasterwave::fax::{FaxIoc, FaxPolarity};

use crate::error::LibError;

verus! {

/// Built-in SSTV modes, under the names the bridge publishes.
#[derive(Clone, Copy, Debug, PartialEq, Eq, Structural)]
pub enum JsSstvMode {
    Robot8Bw,
    Robot12Bw,
    Robot24Bw,
    Robot36Bw,
    Robot12,
    Robot24,
    Robot36,
    Robot72,
    Martin1,
    Martin2,
    Martin3,
    Martin4,
    Scottie1,
    Scottie2,
    Scottie3,
    Scottie4,
    ScottieDx,
    Pd50,
    Pd90,
    Pd120,
    Pd160,
    Pd180,
    Pd240,
    Pd290,
    WraaseSc2_30,
    WraaseSc2_60,
    WraaseSc2_120,
    WraaseSc2_180,
    Pasokon3,
    Pasokon5,
    Pasokon7,
}

/// Radiofax index of cooperation.
#[derive(Clone, Copy, Debug, PartialEq, Eq, Structural)]
pub enum JsFaxIoc {
    Ioc288,
    Ioc576,
}

/// Mapping direction between modulation and luminance.
#[derive(Clone, Copy, Debug, PartialEq, Eq, Structural)]
pub enum JsFaxPolarity {
    Normal,
    Inverted,
}

/// The codec's SSTV mode; its variants are public and read as they stand.
#[verifier::external_type_specification]
pub struct ExSstvMode(SstvMode);

/// The codec mode each bridge mode names: the variant of the same name.
pub open spec fn codec_mode_spec(mode: JsSstvMode) -> SstvMode {
    match mode {
        JsSstvMode::Robot8Bw => SstvMode::Robot8Bw,
        JsSstvMode::Robot12Bw => SstvMode::Robot12Bw,
        JsSstvMode::Robot24Bw => SstvMode::Robot24Bw,
        JsSstvMode::Robot36Bw => SstvMode::Robot36Bw,
        JsSstvMode::Robot12 => SstvMode::Robot12,
        JsSstvMode::Robot24 => SstvMode::Robot24,
        JsSstvMode::Robot36 => SstvMode::Robot36,
        JsSstvMode::Robot72 => SstvMode::Robot72,
        JsSstvMode::Martin1 => SstvMode::Martin1,
        JsSstvMode::Martin2 => SstvMode::Martin2,
        JsSstvMode::Martin3 => SstvMode::Martin3,
        JsSstvMode::Martin4 => SstvMode::Martin4,
        JsSstvMode::Scottie1 => SstvMode::Scottie1,
        JsSstvMode::Scottie2 => SstvMode::Scottie2,
        JsSstvMode::Scottie3 => SstvMode::Scottie3,
        JsSstvMode::Scottie4 => SstvMode::Scottie4,
        JsSstvMode::ScottieDx => SstvMode::ScottieDx,
        JsSstvMode::Pd50 => SstvMode::Pd50,
        JsSstvMode::Pd90 => SstvMode::Pd90,
        JsSstvMode::Pd120 => SstvMode::Pd120,
        JsSstvMode::Pd160 => SstvMode::Pd160,
        JsSstvMode::Pd180 => SstvMode::Pd180,
        JsSstvMode::Pd240 => SstvMode::Pd240,
        JsSstvMode::Pd290 => SstvMode::Pd290,
        JsSstvMode::WraaseSc2_30 => SstvMode::WraaseSc2_30,
        JsSstvMode::WraaseSc2_60 => SstvMode::WraaseSc2_60,
        JsSstvMode::WraaseSc2_120 => SstvMode::WraaseSc2_120,
        JsSstvMode::WraaseSc2_180 => SstvMode::WraaseSc2_180,
        JsSstvMode::Pasokon3 => SstvMode::Pasokon3,
        JsSstvMode::Pasokon5 => SstvMode::Pasokon5,
        JsSstvMode::Pasokon7 => SstvMode::Pasokon7,
    }
}

/// The codec mode a bridge mode names.
pub fn codec_mode(mode: JsSstvMode) -> (r: SstvMode)
    ensures
        r == codec_mode_spec(mode),
{
    match mode {
        JsSstvMode::Robot8Bw => SstvMode::Robot8Bw,
        JsSstvMode::Robot12Bw => SstvMode::Robot12Bw,
        JsSstvMode::Robot24Bw => SstvMode::Robot24Bw,
        JsSstvMode::Robot36Bw => SstvMode::Robot36Bw,
        JsSstvMode::Robot12 => SstvMode::Robot12,
        JsSstvMode::Robot24 => SstvMode::Robot24,
        JsSstvMode::Robot36 => SstvMode::Robot36,
        JsSstvMode::Robot72 => SstvMode::Robot72,
        JsSstvMode::Martin1 => SstvMode::Martin1,
        JsSstvMode::Martin2 => SstvMode::Martin2,
        JsSstvMode::Martin3 => SstvMode::Martin3,
        JsSstvMode::Martin4 => SstvMode::Martin4,
        JsSstvMode::Scottie1 => SstvMode::Scottie1,
        JsSstvMode::Scottie2 => SstvMode::Scottie2,
        JsSstvMode::Scottie3 => SstvMode::Scottie3,
        JsSstvMode::Scottie4 => SstvMode::Scottie4,
        JsSstvMode::ScottieDx => SstvMode::ScottieDx,
        JsSstvMode::Pd50 => SstvMode::Pd50,
        JsSstvMode::Pd90 => SstvMode::Pd90,
        JsSstvMode::Pd120 => SstvMode::Pd120,
        JsSstvMode::Pd160 => SstvMode::Pd160,
        JsSstvMode::Pd180 => SstvMode::Pd180,
        JsSstvMode::Pd240 => SstvMode::Pd240,
        JsSstvMode::Pd290 => SstvMode::Pd290,
        JsSstvMode::WraaseSc2_30 => SstvMode::WraaseSc2_30,
        JsSstvMode::WraaseSc2_60 => SstvMode::WraaseSc2_60,
        JsSstvMode::WraaseSc2_120 => SstvMode::WraaseSc2_120,
        JsSstvMode::WraaseSc2_180 => SstvMode::WraaseSc2_180,
        JsSstvMode::Pasokon3 => SstvMode::Pasokon3,
        JsSstvMode::Pasokon5 => SstvMode::Pasokon5,
        JsSstvMode::Pasokon7 => SstvMode::Pasokon7,
    }
}

/// The bridge mode that names a codec mode, if one does.
pub open spec fn bridge_mode_spec(mode: SstvMode) -> Option<JsSstvMode> {
    if exists|named: JsSstvMode| codec_mode_spec(named) == mode {
        Some(choose|named: JsSstvMode| codec_mode_spec(named) == mode)
    } else {
        None
    }
}

/// The bridge mode that names a codec mode; a codec mode that no bridge mode
/// names is refused.
pub fn bridge_mode(mode: SstvMode) -> (r: Result<JsSstvMode, LibError>)
    ensures
        forall|named: JsSstvMode| r == Ok::<JsSstvMode, LibError>(named) <==> codec_mode_spec(named) == mode,
        r is Err ==> r matches Err(LibError::ModeUnsupported),
        r is Ok <==> bridge_mode_spec(mode) is Some,
        r matches Ok(named) ==> bridge_mode_spec(mode) == Some(named),
{
    let r = bridge_mode_table(mode);
    proof {
        match r {
            Ok(named) => {
                assert(codec_mode_spec(named) == mode);
                let chosen = choose|j: JsSstvMode| codec_mode_spec(j) == mode;
                assert(codec_mode_spec(chosen) == mode);
                assert(r == Ok::<JsSstvMode, LibError>(chosen));
            },
            Err(_) => {
                assert forall|j: JsSstvMode| codec_mode_spec(j) != mode by {
                    if codec_mode_spec(j) == mode {
                        assert(r == Ok::<JsSstvMode, LibError>(j));
                    }
                }
            },
        }
    }
    r
}

fn bridge_mode_table(mode: SstvMode) -> (r: Result<JsSstvMode, LibError>)
    ensures
        forall|named: JsSstvMode| r == Ok::<JsSstvMode, LibError>(named) <==> codec_mode_spec(named) == mode,
        r is Err ==> r matches Err(LibError::ModeUnsupported),
{
    match mode {
        SstvMode::Robot8Bw => Ok(JsSstvMode::Robot8Bw),
        SstvMode::Robot12Bw => Ok(JsSstvMode::Robot12Bw),
        SstvMode::Robot24Bw => Ok(JsSstvMode::Robot24Bw),
        SstvMode::Robot36Bw => Ok(JsSstvMode::Robot36Bw),
        SstvMode::Robot12 => Ok(JsSstvMode::Robot12),
        SstvMode::Robot24 => Ok(JsSstvMode::Robot24),
        SstvMode::Robot36 => Ok(JsSstvMode::Robot36),
        SstvMode::Robot72 => Ok(JsSstvMode::Robot72),
        SstvMode::Martin1 => Ok(JsSstvMode::Martin1),
        SstvMode::Martin2 => Ok(JsSstvMode::Martin2),
        SstvMode::Martin3 => Ok(JsSstvMode::Martin3),
        SstvMode::Martin4 => Ok(JsSstvMode::Martin4),
        SstvMode::Scottie1 => Ok(JsSstvMode::Scottie1),
        SstvMode::Scottie2 => Ok(JsSstvMode::Scottie2),
        SstvMode::Scottie3 => Ok(JsSstvMode::Scottie3),
        SstvMode::Scottie4 => Ok(JsSstvMode::Scottie4),
        SstvMode::ScottieDx => Ok(JsSstvMode::ScottieDx),
        SstvMode::Pd50 => Ok(JsSstvMode::Pd50),
        SstvMode::Pd90 => Ok(JsSstvMode::Pd90),
        SstvMode::Pd120 => Ok(JsSstvMode::Pd120),
        SstvMode::Pd160 => Ok(JsSstvMode::Pd160),
        SstvMode::Pd180 => Ok(JsSstvMode::Pd180),
        SstvMode::Pd240 => Ok(JsSstvMode::Pd240),
        SstvMode::Pd290 => Ok(JsSstvMode::Pd290),
        SstvMode::WraaseSc2_30 => Ok(JsSstvMode::WraaseSc2_30),
        SstvMode::WraaseSc2_60 => Ok(JsSstvMode::WraaseSc2_60),
        SstvMode::WraaseSc2_120 => Ok(JsSstvMode::WraaseSc2_120),
        SstvMode::WraaseSc2_180 => Ok(JsSstvMode::WraaseSc2_180),
        SstvMode::Pasokon3 => Ok(JsSstvMode::Pasokon3),
        SstvMode::Pasokon5 => Ok(JsSstvMode::Pasokon5),
        SstvMode::Pasokon7 => Ok(JsSstvMode::Pasokon7),
        _ => Err(LibError::ModeUnsupported),
    }
}

/// No two bridge modes name the same codec mode, so reading back the mode
/// that a bridge mode names gives that bridge mode again.
pub proof fn lemma_codec_mode_injective(a: JsSstvMode, b: JsSstvMode)
    ensures
        codec_mode_spec(a) == codec_mode_spec(b) ==> a == b,
{
}

/// The codec's index of cooperation; its variants are read as they stand.
#[verifier::external_type_specification]
pub struct ExFaxIoc(FaxIoc);

/// The codec's polarity; its variants are read as they stand.
#[verifier::external_type_specification]
pub struct ExFaxPolarity(FaxPolarity);

/// The codec index of cooperation each bridge value names.
pub open spec fn codec_ioc_spec(ioc: JsFaxIoc) -> FaxIoc {
    match ioc {
        JsFaxIoc::Ioc288 => FaxIoc::Ioc288,
        JsFaxIoc::Ioc576 => FaxIoc::Ioc576,
    }
}

/// The codec index of cooperation a bridge value names.
pub fn codec_ioc(ioc: JsFaxIoc) -> (r: FaxIoc)
    ensures
        r == codec_ioc_spec(ioc),
{
    match ioc {
        JsFaxIoc::Ioc288 => FaxIoc::Ioc288,
        JsFaxIoc::Ioc576 => FaxIoc::Ioc576,
    }
}

/// The bridge value naming a codec index of cooperation.
pub open spec fn bridge_ioc_spec(ioc: FaxIoc) -> JsFaxIoc {
    match ioc {
        FaxIoc::Ioc288 => JsFaxIoc::Ioc288,
        FaxIoc::Ioc576 => JsFaxIoc::Ioc576,
    }
}

/// The bridge value naming a codec index of cooperation.
pub fn bridge_ioc(ioc: FaxIoc) -> (r: JsFaxIoc)
    ensures
        r == bridge_ioc_spec(ioc),
        codec_ioc_spec(r) == ioc,
{
    match ioc {
        FaxIoc::Ioc288 => JsFaxIoc::Ioc288,
        FaxIoc::Ioc576 => JsFaxIoc::Ioc576,
    }
}

/// The bridge and codec indices of cooperation correspond one to one.
pub proof fn lemma_ioc_one_to_one(a: JsFaxIoc, b: JsFaxIoc, ioc: FaxIoc)
    ensures
        codec_ioc_spec(a) == codec_ioc_spec(b) ==> a == b,
        exists|named: JsFaxIoc| codec_ioc_spec(named) == ioc,
{
    match ioc {
        FaxIoc::Ioc288 => assert(codec_ioc_spec(JsFaxIoc::Ioc288) == ioc),
        FaxIoc::Ioc576 => assert(codec_ioc_spec(JsFaxIoc::Ioc576) == ioc),
    }
}

/// The codec polarity a bridge polarity names.
pub fn codec_polarity(polarity: JsFaxPolarity) -> (r: FaxPolarity)
    ensures
        r == (match polarity {
            JsFaxPolarity::Normal => FaxPolarity::Normal,
            JsFaxPolarity::Inverted => FaxPolarity::Inverted,
        }),
{
    match polarity {
        JsFaxPolarity::Normal => FaxPolarity::Normal,
        JsFaxPolarity::Inverted => FaxPolarity::Inverted,
    }
}

/// Each bridge mode names the codec mode of the same name, and each codec
/// mode that a bridge mode names reads back as that bridge mode.
pub proof fn lemma_modes_by_name()
    ensures
        codec_mode_spec(JsSstvMode::Robot8Bw) == SstvMode::Robot8Bw,
        codec_mode_spec(JsSstvMode::Robot12Bw) == SstvMode::Robot12Bw,
        codec_mode_spec(JsSstvMode::Robot24Bw) == SstvMode::Robot24Bw,
        codec_mode_spec(JsSstvMode::Robot36Bw) == SstvMode::Robot36Bw,
        codec_mode_spec(JsSstvMode::Robot12) == SstvMode::Robot12,
        codec_mode_spec(JsSstvMode::Robot24) == SstvMode::Robot24,
        codec_mode_spec(JsSstvMode::Robot36) == SstvMode::Robot36,
        codec_mode_spec(JsSstvMode::Robot72) == SstvMode::Robot72,
        codec_mode_spec(JsSstvMode::Martin1) == SstvMode::Martin1,
        codec_mode_spec(JsSstvMode::Martin2) == SstvMode::Martin2,
        codec_mode_spec(JsSstvMode::Martin3) == SstvMode::Martin3,
        codec_mode_spec(JsSstvMode::Martin4) == SstvMode::Martin4,
        codec_mode_spec(JsSstvMode::Scottie1) == SstvMode::Scottie1,
        codec_mode_spec(JsSstvMode::Scottie2) == SstvMode::Scottie2,
        codec_mode_spec(JsSstvMode::Scottie3) == SstvMode::Scottie3,
        codec_mode_spec(JsSstvMode::Scottie4) == SstvMode::Scottie4,
        codec_mode_spec(JsSstvMode::ScottieDx) == SstvMode::ScottieDx,
        codec_mode_spec(JsSstvMode::Pd50) == SstvMode::Pd50,
        codec_mode_spec(JsSstvMode::Pd90) == SstvMode::Pd90,
        codec_mode_spec(JsSstvMode::Pd120) == SstvMode::Pd120,
        codec_mode_spec(JsSstvMode::Pd160) == SstvMode::Pd160,
        codec_mode_spec(JsSstvMode::Pd180) == SstvMode::Pd180,
        codec_mode_spec(JsSstvMode::Pd240) == SstvMode::Pd240,
        codec_mode_spec(JsSstvMode::Pd290) == SstvMode::Pd290,
        codec_mode_spec(JsSstvMode::WraaseSc2_30) == SstvMode::WraaseSc2_30,
        codec_mode_spec(JsSstvMode::WraaseSc2_60) == SstvMode::WraaseSc2_60,
        codec_mode_spec(JsSstvMode::WraaseSc2_120) == SstvMode::WraaseSc2_120,
        codec_mode_spec(JsSstvMode::WraaseSc2_180) == SstvMode::WraaseSc2_180,
        codec_mode_spec(JsSstvMode::Pasokon3) == SstvMode::Pasokon3,
        codec_mode_spec(JsSstvMode::Pasokon5) == SstvMode::Pasokon5,
        codec_mode_spec(JsSstvMode::Pasokon7) == SstvMode::Pasokon7,
        forall|named: JsSstvMode| #[trigger] bridge_mode_spec(codec_mode_spec(named)) == Some(named),
{
    assert forall|named: JsSstvMode| #[trigger] bridge_mode_spec(codec_mode_spec(named)) == Some(named) by {
        let mode = codec_mode_spec(named);
        assert(codec_mode_spec(named) == mode);
        let chosen = choose|j: JsSstvMode| codec_mode_spec(j) == mode;
        lemma_codec_mode_injective(chosen, named);
    }
}

/// Each index of cooperation names the codec's of the same value, both ways.
pub proof fn lemma_ioc_by_name()
    ensures
        codec_ioc_spec(JsFaxIoc::Ioc288) == FaxIoc::Ioc288,
        codec_ioc_spec(JsFaxIoc::Ioc576) == FaxIoc::Ioc576,
        bridge_ioc_spec(FaxIoc::Ioc288) == JsFaxIoc::Ioc288,
        bridge_ioc_spec(FaxIoc::Ioc576) == JsFaxIoc::Ioc576,
{
}

} // verus!
