use bass_rs::midi;
use bass_rs::raw;
use bass_rs::{BassError, OutputBackend, SourceOptions};

#[test]
fn defaults_enable_float_decode_and_prescan() {
    let options = SourceOptions::default();
    assert!(options.float);
    assert!(options.prescan);
    assert_eq!(options.stream_flags & raw::BASS_SAMPLE_FLOAT, 0);
}

#[test]
fn backend_flags_match_official_constants() {
    assert_eq!(OutputBackend::Wasapi.flags(), 0);
    assert_eq!(OutputBackend::DirectSound.flags(), raw::BASS_DEVICE_DSOUND);
    assert_eq!(raw::BASS_DEVICE_MONO, 2);
}

#[test]
fn midi_boundary_reports_unsupported_without_guessing_abi() {
    let error = midi::MidiAddon::load("definitely-missing-bassmidi.dll").unwrap_err();
    assert!(matches!(
        error,
        BassError::AddonUnavailable { name: "BASSMIDI" }
    ));
}
