use rasterwave::fax::{FaxIoc, FaxPolarity};
use rasterwave::{SSTV_MODES, SstvMode};
use rasterwave_node::error::LibError;
use rasterwave_node::modes::{
    JsFaxIoc, JsFaxPolarity, JsSstvMode, bridge_ioc, bridge_mode, codec_ioc, codec_mode, codec_polarity,
};

const ALL: [JsSstvMode; 31] = [
    JsSstvMode::Robot8Bw,
    JsSstvMode::Robot12Bw,
    JsSstvMode::Robot24Bw,
    JsSstvMode::Robot36Bw,
    JsSstvMode::Robot12,
    JsSstvMode::Robot24,
    JsSstvMode::Robot36,
    JsSstvMode::Robot72,
    JsSstvMode::Martin1,
    JsSstvMode::Martin2,
    JsSstvMode::Martin3,
    JsSstvMode::Martin4,
    JsSstvMode::Scottie1,
    JsSstvMode::Scottie2,
    JsSstvMode::Scottie3,
    JsSstvMode::Scottie4,
    JsSstvMode::ScottieDx,
    JsSstvMode::Pd50,
    JsSstvMode::Pd90,
    JsSstvMode::Pd120,
    JsSstvMode::Pd160,
    JsSstvMode::Pd180,
    JsSstvMode::Pd240,
    JsSstvMode::Pd290,
    JsSstvMode::WraaseSc2_30,
    JsSstvMode::WraaseSc2_60,
    JsSstvMode::WraaseSc2_120,
    JsSstvMode::WraaseSc2_180,
    JsSstvMode::Pasokon3,
    JsSstvMode::Pasokon5,
    JsSstvMode::Pasokon7,
];

#[test]
fn bridge_modes_name_codec_modes_of_the_same_name() {
    assert_eq!(codec_mode(JsSstvMode::Robot36), SstvMode::Robot36);
    assert_eq!(codec_mode(JsSstvMode::Pd90), SstvMode::Pd90);
    assert_eq!(codec_mode(JsSstvMode::WraaseSc2_180), SstvMode::WraaseSc2_180);
    assert_eq!(codec_mode(JsSstvMode::Pasokon7), SstvMode::Pasokon7);
}

#[test]
fn every_bridge_mode_reads_back_as_itself() {
    for mode in ALL {
        assert_eq!(bridge_mode(codec_mode(mode)).unwrap(), mode);
    }
}

#[test]
fn every_published_codec_mode_has_a_bridge_mode() {
    for spec in SSTV_MODES.iter() {
        let mode = bridge_mode(spec.mode).expect("published mode");
        assert_eq!(codec_mode(mode), spec.mode);
    }
}

#[test]
fn unsupported_mode_error_code() {
    assert_eq!(LibError::ModeUnsupported.code(), "RASTERWAVE_UNSUPPORTED_MODE");
}

#[test]
fn ioc_values_correspond_one_to_one() {
    assert_eq!(codec_ioc(JsFaxIoc::Ioc288), FaxIoc::Ioc288);
    assert_eq!(codec_ioc(JsFaxIoc::Ioc576), FaxIoc::Ioc576);
    assert_eq!(codec_ioc(JsFaxIoc::Ioc576).value(), 576);
    assert_eq!(bridge_ioc(FaxIoc::Ioc288), JsFaxIoc::Ioc288);
    assert_eq!(bridge_ioc(FaxIoc::Ioc576), JsFaxIoc::Ioc576);
}

#[test]
fn polarity_keeps_its_direction() {
    assert_eq!(codec_polarity(JsFaxPolarity::Normal), FaxPolarity::Normal);
    assert_eq!(codec_polarity(JsFaxPolarity::Inverted), FaxPolarity::Inverted);
}
