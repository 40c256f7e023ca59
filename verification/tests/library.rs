use std::path::PathBuf;

use bass_rs::cli::{
    engine_source, max_polyphony, midi_source, option_value, play_settings, play_should_stop,
    positional_paths, required_path, LibrarySource,
};
use bass_rs::{after_music_attempt, after_stream_attempt, ChannelKind, FileLoadStep};
use bass_rs::midi::{MidiAddon, MidiOptions};
use bass_rs::raw;
use bass_rs::{
    api_error, buffering_percent, check_api_version, check_bool, check_effect_available,
    check_library_version, check_parameter_kind, data_bytes_kept, data_request,
    decode_native_text, derived_channel_flags, download_notice, fft_capacity, fft_flag,
    fft_values_kept, known_value, level_channel_count, lossy_text, nonzero_handle,
    not_a_directory, platform_library_name, require_fx_loaded, select_fx_path, ActiveState,
    BassEngineOptions, BassError, BassFxEffect, DeviceInfo, DeviceType, DownloadNotice,
    EffectKind, EffectParameters, ErrorCode, InitOptions, NativePath, OutputBackend, OutputInfo,
    Platform, SourceOptions, SyncKind, TagKind, TagReader, UrlOptions, BASS_API_VERSION,
    MAX_DEVICES, MAX_TAG_ENTRIES,
};

fn strings(values: &[&str]) -> Vec<String> {
    values.iter().map(|value| value.to_string()).collect()
}

#[test]
fn error_codes_map_known_numbers_and_keep_unknown_ones() {
    assert_eq!(ErrorCode::from(0), ErrorCode::NoError);
    assert_eq!(ErrorCode::from(1), ErrorCode::Mem);
    assert_eq!(ErrorCode::from(13), ErrorCode::Track);
    assert_eq!(ErrorCode::from(51), ErrorCode::Cancel);
    assert_eq!(ErrorCode::from(12), ErrorCode::Unknown(12));
    assert_eq!(ErrorCode::from(-1), ErrorCode::Unknown(-1));
    assert_eq!(ErrorCode::from(raw::BASS_ERROR_NOFX), ErrorCode::NoFx);
}

#[test]
fn error_code_numbers_round_trip() {
    let named = [0, 1, 2, 8, 14, 37, 44, 50];
    for (i, a) in named.iter().enumerate() {
        for b in named.iter().skip(i + 1) {
            assert_ne!(ErrorCode::from(*a), ErrorCode::from(*b));
        }
    }
    assert_ne!(ErrorCode::from(12), ErrorCode::from(15));
}

#[test]
fn check_bool_succeeds_on_nonzero_and_reports_the_code() {
    assert!(check_bool("BASS_Start", 1, 9).is_ok());
    assert!(check_bool("BASS_Start", -7, 9).is_ok());
    let error = check_bool("BASS_Start", 0, 9).unwrap_err();
    assert!(matches!(
        error,
        BassError::Api { operation: "BASS_Start", code: ErrorCode::Start }
    ));
    assert!(matches!(
        api_error("BASS_Init", 99),
        BassError::Api { operation: "BASS_Init", code: ErrorCode::Unknown(99) }
    ));
}

#[test]
fn api_version_must_match_the_headers() {
    assert!(check_api_version(0x204).is_ok());
    assert!(matches!(
        check_api_version(0x203),
        Err(BassError::VersionMismatch { expected: 0x204, actual: 0x203 })
    ));
    assert_eq!(BASS_API_VERSION, 0x204);
    assert!(check_library_version(0x0204_0011).is_ok());
    assert!(matches!(
        check_library_version(0x0203_0000),
        Err(BassError::VersionMismatch { expected: 0x204, actual: 0x203 })
    ));
}

#[test]
fn library_names_follow_the_platform() {
    assert_eq!(platform_library_name(Platform::Windows, "bass"), "bass.dll");
    assert_eq!(platform_library_name(Platform::MacOs, "bass_fx"), "libbass_fx.dylib");
    assert_eq!(platform_library_name(Platform::Unix, "bassmidi"), "libbassmidi.so");
    assert_eq!(platform_library_name(Platform::Other, "bass"), "bass.dll");
}

#[test]
fn explicit_fx_path_takes_precedence() {
    let explicit = Some(PathBuf::from("/opt/fx/libbass_fx.so"));
    let standard = PathBuf::from("/opt/bass/libbass_fx.so");
    assert_eq!(
        select_fx_path(explicit.clone(), standard.clone(), true),
        explicit
    );
    assert_eq!(
        select_fx_path(None, standard.clone(), true),
        Some(standard.clone())
    );
    assert_eq!(select_fx_path(None, standard, false), None);
}

#[test]
fn fx_request_follows_the_options() {
    let options = BassEngineOptions::default();
    assert!(options.fx_path.is_none());
    assert!(!options.require_fx);
    assert!(matches!(options.fx_request(), Ok(None)));
    let required = BassEngineOptions { fx_path: None, require_fx: true };
    assert!(matches!(required.fx_request(), Err(BassError::FxUnavailable)));
    let path = PathBuf::from("bass_fx.dll");
    let given = BassEngineOptions { fx_path: Some(path.clone()), require_fx: true };
    assert_eq!(given.fx_request().unwrap(), Some(path));
}

#[test]
fn init_flags_combine_backend_and_options() {
    let options = InitOptions::default();
    assert_eq!(options.device, -1);
    assert_eq!(options.sample_rate, 44100);
    assert_eq!(options.backend, OutputBackend::Wasapi);
    assert!(options.float_processing);
    assert_eq!(options.flags(), 0);
    let options = InitOptions {
        backend: OutputBackend::DirectSound,
        mono: true,
        exclusive: true,
        force_frequency: true,
        ..InitOptions::default()
    };
    assert_eq!(
        options.flags(),
        raw::BASS_DEVICE_DSOUND | raw::BASS_DEVICE_MONO | raw::BASS_DEVICE_HOG | raw::BASS_DEVICE_FREQ
    );
    assert_eq!(OutputBackend::default(), OutputBackend::Wasapi);
}

#[test]
fn device_types_come_from_the_type_bits() {
    assert_eq!(DeviceType::from_flags(0x0100_0000), DeviceType::Network);
    assert_eq!(DeviceType::from_flags(0x0400_0007), DeviceType::Headphones);
    assert_eq!(DeviceType::from_flags(0x0a00_0000), DeviceType::Hdmi);
    assert_eq!(DeviceType::from_flags(0x4000_0000), DeviceType::DisplayPort);
    assert_eq!(DeviceType::from_flags(0x0b00_0000), DeviceType::Unknown);
    assert_eq!(DeviceType::from_flags(0x0000_000f), DeviceType::Unknown);
    assert_eq!(
        DeviceType::from_flags(0x0200_0000 | raw::BASS_DEVICE_ENABLED | raw::BASS_DEVICE_INIT),
        DeviceType::from_flags(0x0200_0000)
    );
}

#[test]
fn device_flags_answer_the_status_questions() {
    let device = DeviceInfo::new(
        3,
        "Speakers".to_string(),
        "driver".to_string(),
        0x0200_0000 | raw::BASS_DEVICE_ENABLED | raw::BASS_DEVICE_DEFAULT,
    );
    assert_eq!(device.index, 3);
    assert_eq!(device.device_type, DeviceType::Speakers);
    assert!(device.is_enabled());
    assert!(device.is_default());
    assert!(!device.is_initialized());
    assert!(!device.is_loopback());
    let loopback = DeviceInfo::new(0, String::new(), String::new(), raw::BASS_DEVICE_LOOPBACK | raw::BASS_DEVICE_INIT);
    assert!(loopback.is_loopback());
    assert!(loopback.is_initialized());
    assert!(!loopback.is_enabled());
}

#[test]
fn enumeration_stops_at_the_first_missing_device() {
    let devices = DeviceInfo::enumerate(|index| {
        if index < 3 {
            Some((format!("device {index}"), "drv".to_string(), 0x0300_0000 | index))
        } else {
            None
        }
    });
    assert_eq!(devices.len(), 3);
    for (k, device) in devices.iter().enumerate() {
        assert_eq!(device.index as usize, k);
        assert_eq!(device.name, format!("device {k}"));
        assert_eq!(device.device_type, DeviceType::Line);
    }
    let all = DeviceInfo::enumerate(|_| Some((String::new(), String::new(), 0)));
    assert_eq!(all.len(), MAX_DEVICES as usize);
}

#[test]
fn output_info_copies_the_native_fields() {
    let native = raw::BASS_INFO {
        flags: 1,
        reserved: [0; 7],
        minbuf: 20,
        dsver: 9,
        latency: 30,
        initflags: 0,
        speakers: 2,
        freq: 48000,
    };
    let info = OutputInfo::from_raw(&native);
    assert_eq!(info.flags, 1);
    assert_eq!(info.min_buffer_ms, 20);
    assert_eq!(info.latency_ms, 30);
    assert_eq!(info.sample_rate, 48000);
    assert_eq!(info.speakers, 2);
    assert_eq!(info.direct_sound_version, 9);
}

#[test]
fn source_flags_add_the_bit_of_each_option() {
    let options = SourceOptions::default();
    assert_eq!(
        options.stream_flags(),
        raw::BASS_SAMPLE_FLOAT | raw::BASS_STREAM_PRESCAN
    );
    assert_eq!(
        options.music_flags(),
        raw::BASS_MUSIC_RAMP | raw::BASS_MUSIC_FLOAT | raw::BASS_MUSIC_PRESCAN
    );
    let options = SourceOptions {
        float: false,
        mono: true,
        looped: true,
        decode_only: true,
        prescan: false,
        stream_flags: raw::BASS_STREAM_AUTOFREE,
        music_flags: 0,
        music_frequency: 1,
    };
    assert_eq!(
        options.stream_flags(),
        raw::BASS_STREAM_AUTOFREE | raw::BASS_SAMPLE_MONO | raw::BASS_SAMPLE_LOOP | raw::BASS_STREAM_DECODE
    );
    assert_eq!(
        options.music_flags(),
        raw::BASS_MUSIC_MONO | raw::BASS_MUSIC_LOOP | raw::BASS_MUSIC_DECODE
    );
}

#[test]
fn url_options_default_to_blocking_float_streams() {
    let options: UrlOptions<Box<dyn FnMut(bass_rs::DownloadEvent) + Send>> = UrlOptions::default();
    assert_eq!(options.offset, 0);
    assert!(options.float);
    assert_eq!(options.flags, raw::BASS_STREAM_BLOCK | raw::BASS_STREAM_STATUS);
    assert!(options.callback.is_none());
    assert_eq!(
        options.stream_flags(),
        raw::BASS_STREAM_BLOCK | raw::BASS_STREAM_STATUS | raw::BASS_SAMPLE_FLOAT
    );
    let plain: UrlOptions<()> = UrlOptions { offset: 5, float: false, flags: 0, callback: None };
    assert_eq!(plain.stream_flags(), 0);
}

#[test]
fn download_notices_are_classified() {
    assert_eq!(download_notice(true, 10), DownloadNotice::Finished);
    assert_eq!(download_notice(false, 0), DownloadNotice::StatusText);
    assert_eq!(download_notice(false, 512), DownloadNotice::Data { length: 512 });
}

#[test]
fn active_states_follow_the_native_values() {
    assert_eq!(ActiveState::from_raw(raw::BASS_ACTIVE_STOPPED), ActiveState::Stopped);
    assert_eq!(ActiveState::from_raw(raw::BASS_ACTIVE_PLAYING), ActiveState::Playing);
    assert_eq!(ActiveState::from_raw(raw::BASS_ACTIVE_STALLED), ActiveState::Stalled);
    assert_eq!(ActiveState::from_raw(raw::BASS_ACTIVE_PAUSED), ActiveState::Paused);
    assert_eq!(ActiveState::from_raw(raw::BASS_ACTIVE_PAUSED_DEVICE), ActiveState::PausedDevice);
    assert_eq!(ActiveState::from_raw(77), ActiveState::Stopped);
}

#[test]
fn tag_and_sync_kinds_map_to_native_values() {
    assert_eq!(TagKind::Id3.raw(), raw::BASS_TAG_ID3);
    assert_eq!(TagKind::Ogg.raw(), 2);
    assert_eq!(TagKind::MediaFoundation.raw(), 13);
    assert_eq!(SyncKind::Position(1234).raw(), (raw::BASS_SYNC_POS, 1234));
    assert_eq!(SyncKind::End.raw(), (raw::BASS_SYNC_END, 0));
    assert_eq!(SyncKind::OggChange.raw(), (12, 0));
    assert_eq!(SyncKind::Other { kind: 99, parameter: 7 }.raw(), (99, 7));
}

#[test]
fn channel_values_are_interpreted() {
    assert_eq!(known_value(u64::MAX), None);
    assert_eq!(known_value(4096), Some(4096));
    assert_eq!(buffering_percent(0), 100);
    assert_eq!(buffering_percent(25), 75);
    assert_eq!(buffering_percent(100), 0);
    assert_eq!(buffering_percent(250), 0);
    assert_eq!(nonzero_handle(0), None);
    assert_eq!(nonzero_handle(9), Some(9));
    assert_eq!(level_channel_count(0), 1);
    assert_eq!(level_channel_count(6), 6);
    assert_eq!(data_request(1024, raw::BASS_DATA_FLOAT), 1024 | raw::BASS_DATA_FLOAT);
    assert_eq!(data_bytes_kept(u32::MAX, 100), None);
    assert_eq!(data_bytes_kept(40, 100), Some(40));
    assert_eq!(data_bytes_kept(400, 100), Some(100));
}

#[test]
fn fft_sizes_map_to_flags() {
    assert_eq!(fft_flag(256).unwrap(), raw::BASS_DATA_FFT256);
    assert_eq!(fft_flag(8192).unwrap(), raw::BASS_DATA_FFT8192);
    match fft_flag(300) {
        Err(BassError::InvalidInput { kind, message }) => {
            assert_eq!(kind, "FFT size");
            assert_eq!(message, "expected one of 256, 512, 1024, 2048, 4096, or 8192");
        }
        other => panic!("unexpected {other:?}"),
    }
    assert_eq!(fft_capacity(1024), 513);
    assert_eq!(fft_values_kept(2048, 513), Some(512));
    assert_eq!(fft_values_kept(4096, 513), Some(513));
    assert_eq!(fft_values_kept(3, 513), Some(0));
    assert_eq!(fft_values_kept(u32::MAX, 513), None);
}

#[test]
fn effect_kinds_map_to_native_values() {
    assert_eq!(BassFxEffect::Rotate.raw(), raw::BASS_FX_BFX_ROTATE);
    assert_eq!(BassFxEffect::Compressor2.raw(), 0x10011);
    assert_eq!(BassFxEffect::Freeverb.raw(), 0x10016);
    assert_eq!(EffectKind::Dx8(raw::BASS_FX_DX8_PARAMEQ).raw(), 7);
    assert_eq!(EffectKind::BassFx(BassFxEffect::Echo4).raw(), raw::BASS_FX_BFX_ECHO4);
    assert_eq!(EffectKind::Volume.raw(), raw::BASS_FX_VOLUME);
    assert!(EffectKind::BassFx(BassFxEffect::Mix).needs_fx());
    assert!(!EffectKind::Dx8(0).needs_fx());
    assert!(!EffectKind::Volume.needs_fx());
    assert_eq!(
        raw::BASS_DX8_GARGLE::effect_kind(),
        EffectKind::Dx8(raw::BASS_FX_DX8_GARGLE)
    );
}

#[test]
fn effect_descriptions_match_their_debug_form() {
    for kind in [
        EffectKind::Dx8(0),
        EffectKind::Dx8(7),
        EffectKind::Dx8(1234567890),
        EffectKind::BassFx(BassFxEffect::Compressor2),
        EffectKind::BassFx(BassFxEffect::LowPassFilter),
        EffectKind::Volume,
    ] {
        assert_eq!(kind.describe(), format!("{kind:?}"));
    }
    assert_eq!(BassFxEffect::PitchShift.name(), "PitchShift");
}

#[test]
fn parameters_must_match_the_effect_kind() {
    let compressor = EffectKind::BassFx(BassFxEffect::Compressor2);
    assert!(check_parameter_kind(compressor, compressor).is_ok());
    match check_parameter_kind(EffectKind::Dx8(7), compressor) {
        Err(BassError::InvalidInput { kind, message }) => {
            assert_eq!(kind, "effect parameters");
            assert_eq!(message, "parameters are for Dx8(7), effect is BassFx(Compressor2)");
        }
        other => panic!("unexpected {other:?}"),
    }
}

#[test]
fn fx_effects_need_the_fx_library() {
    assert!(matches!(
        check_effect_available(EffectKind::BassFx(BassFxEffect::Echo), false),
        Err(BassError::FxUnavailable)
    ));
    assert!(check_effect_available(EffectKind::BassFx(BassFxEffect::Echo), true).is_ok());
    assert!(check_effect_available(EffectKind::Dx8(3), false).is_ok());
    assert!(check_effect_available(EffectKind::Volume, false).is_ok());
    assert!(require_fx_loaded(true).is_ok());
    assert!(matches!(require_fx_loaded(false), Err(BassError::FxUnavailable)));
    assert_eq!(derived_channel_flags(0x200), 0x200 | raw::BASS_FX_FREESOURCE);
}

#[test]
fn midi_addon_is_never_driven() {
    assert!(matches!(
        MidiAddon::load_found(false),
        Err(BassError::AddonUnavailable { name: "BASSMIDI" })
    ));
    assert!(matches!(
        MidiAddon::load_found(true),
        Err(BassError::Unsupported { operation: "BASSMIDI ABI (official bassmidi.h is not present)" })
    ));
    match MidiAddon::load_from_directory("definitely-missing-directory", Platform::Unix) {
        Err(BassError::InvalidInput { kind, message }) => {
            assert_eq!(kind, "DLL directory");
            assert_eq!(message, "definitely-missing-directory is not a directory");
        }
        other => panic!("unexpected {other:?}"),
    }
    assert!(matches!(
        MidiAddon::load_from_directory("/", Platform::Unix),
        Err(BassError::AddonUnavailable { name: "BASSMIDI" })
    ));
    assert!(matches!(
        MidiAddon::load_from_directory_found("x", true, true),
        Err(BassError::Unsupported { .. })
    ));
    let addon = MidiAddon { path: PathBuf::from("bassmidi.dll") };
    assert!(matches!(
        addon.set_max_polyphony(MidiOptions { max_polyphony: Some(64) }),
        Err(BassError::Unsupported { .. })
    ));
    match not_a_directory("C:\\libs") {
        BassError::InvalidInput { message, .. } => assert_eq!(message, "C:\\libs is not a directory"),
        other => panic!("unexpected {other:?}"),
    }
}

#[test]
fn native_paths_end_in_their_only_nul() {
    let wide = NativePath::from_wide(vec![b'a' as u16, b'b' as u16], "audio path").unwrap();
    match &wide {
        NativePath::Wide(units) => assert_eq!(units, &vec![b'a' as u16, b'b' as u16, 0]),
        NativePath::Narrow(_) => panic!("expected a wide path"),
    }
    assert_eq!(wide.flags(raw::BASS_SAMPLE_FLOAT), raw::BASS_SAMPLE_FLOAT | raw::BASS_UNICODE);
    let narrow = NativePath::from_narrow(b"song.mp3".to_vec(), "audio path").unwrap();
    match &narrow {
        NativePath::Narrow(bytes) => assert_eq!(bytes.as_slice(), b"song.mp3\0"),
        NativePath::Wide(_) => panic!("expected a narrow path"),
    }
    assert_eq!(narrow.flags(7), 7);
    match NativePath::from_narrow(b"a\0b".to_vec(), "plugin path") {
        Err(BassError::InvalidInput { kind, message }) => {
            assert_eq!(kind, "plugin path");
            assert_eq!(message, "path contains an embedded NUL");
        }
        other => panic!("unexpected {other:?}"),
    }
    assert!(NativePath::from_wide(vec![0], "URL").is_err());
    let empty = NativePath::from_wide(Vec::new(), "URL").unwrap();
    assert!(matches!(empty, NativePath::Wide(ref units) if units == &vec![0u16]));
}

#[test]
fn native_text_prefers_utf8_then_code_page_then_lossy() {
    assert_eq!(decode_native_text("héllo".as_bytes(), || None), "héllo");
    assert_eq!(
        decode_native_text("héllo".as_bytes(), || -> Option<String> {
            panic!("the code page is not asked for valid UTF-8")
        }),
        "héllo"
    );
    assert_eq!(decode_native_text(&[0x41, 0xe9, 0x42], || Some("AéB".to_string())), "AéB");
    assert_eq!(decode_native_text(&[0x41, 0xe9, 0x42], || None), "A\u{fffd}B");
    assert_eq!(lossy_text(&[0xff, 0x61]), "\u{fffd}a");
    assert_eq!(lossy_text(b"plain"), "plain");
}

#[test]
fn tag_reader_stops_at_the_empty_entry() {
    let mut reader = TagReader::new();
    assert!(reader.accept(b"TITLE=Song"));
    assert!(reader.accept(&[0x41, 0xff]));
    assert!(!reader.accept(b""));
    assert!(!reader.accept(b"ignored"));
    assert_eq!(reader.into_tags(), vec!["TITLE=Song".to_string(), "A\u{fffd}".to_string()]);
}

#[test]
fn tag_reader_reads_at_most_the_limit() {
    let mut reader = TagReader::new();
    let mut accepted = 0;
    while reader.accept(b"x") {
        accepted += 1;
    }
    assert_eq!(accepted + 1, MAX_TAG_ENTRIES);
    assert_eq!(reader.into_tags().len(), MAX_TAG_ENTRIES);
}

#[test]
fn options_accept_both_forms_and_the_first_wins() {
    let args = strings(&["play", "--dll-dir", "C:\\bass", "--duration=10", "--bass-fx=fx.dll", "--dll-dir=late"]);
    assert_eq!(option_value(&args, "--dll-dir"), Some("C:\\bass".to_string()));
    assert_eq!(option_value(&args, "--duration"), Some("10".to_string()));
    assert_eq!(option_value(&args, "--bass-fx"), Some("fx.dll".to_string()));
    assert_eq!(option_value(&args, "--bass"), None);
    let trailing = strings(&["--bass", "x", "--dll-dir"]);
    assert_eq!(option_value(&trailing, "--dll-dir"), None);
    let later = strings(&["--dll-dir", "--bass=b.dll", "--dll-dir=d"]);
    assert_eq!(option_value(&later, "--dll-dir"), Some("--bass=b.dll".to_string()));
}

#[test]
fn positional_paths_skip_options_and_their_values() {
    let args = strings(&[
        "song.mp3",
        "--dll-dir",
        "C:\\bass",
        "--watch-buffer",
        "--duration=5",
        "other.ogg",
        "--bass",
    ]);
    assert_eq!(positional_paths(&args), strings(&["song.mp3", "other.ogg"]));
    assert_eq!(required_path(&args, "need a file").unwrap(), "song.mp3");
    let none = strings(&["--dll-dir", "x", "--backend=dsound"]);
    assert!(positional_paths(&none).is_empty());
    match required_path(&none, "inspect requires a file path") {
        Err(BassError::InvalidInput { kind, message }) => {
            assert_eq!(kind, "argument");
            assert_eq!(message, "inspect requires a file path");
        }
        other => panic!("unexpected {other:?}"),
    }
}

#[test]
fn engine_state_tracks_initialization() {
    let mut state = bass_rs::EngineState::new();
    assert!(!state.initialized);
    state.record_init(false);
    assert!(!state.initialized);
    state.record_init(true);
    assert!(state.initialized);
    state.record_free(false);
    assert!(state.initialized);
    state.record_free(true);
    assert!(!state.initialized);
    assert!(!state.take_for_release());
    state.record_init(true);
    assert!(state.take_for_release());
    assert!(!state.initialized);
    assert!(!state.take_for_release());
}

#[test]
fn plugin_info_holds_every_reported_format() {
    let info = bass_rs::PluginInfo::collect(0x0204_0001, 3, |index| bass_rs::PluginFormat {
        channel_type: 0x10000 + index,
        name: format!("format {index}"),
        extensions: "*.x".to_string(),
    });
    assert_eq!(info.version, 0x0204_0001);
    assert_eq!(info.formats.len(), 3);
    assert_eq!(info.formats[2].channel_type, 0x10002);
    assert_eq!(info.formats[1].name, "format 1");
    let empty = bass_rs::PluginInfo::collect(1, 0, |_| -> bass_rs::PluginFormat { unreachable!() });
    assert!(empty.formats.is_empty());
}

#[test]
fn play_settings_read_the_play_options() {
    let args = strings(&["song.mp3", "--dll-dir", "C:\\bass", "--backend=dsound", "--duration=10", "--watch-buffer"]);
    let settings = play_settings(&args).unwrap();
    assert_eq!(settings.source, "song.mp3");
    assert_eq!(settings.backend, OutputBackend::DirectSound);
    assert!(settings.watch);
    assert_eq!(settings.limit_secs, Some(10));
    assert!(!settings.is_url);
    let url = strings(&["https://example.com/audio.mp3", "--duration", "30"]);
    let settings = play_settings(&url).unwrap();
    assert!(settings.is_url);
    assert_eq!(settings.backend, OutputBackend::Wasapi);
    assert!(!settings.watch);
    assert_eq!(settings.limit_secs, Some(30));
    let plain = play_settings(&strings(&["http://x"])).unwrap();
    assert!(plain.is_url);
    assert_eq!(plain.limit_secs, None);
    assert!(!play_settings(&strings(&["httpx://x"])).unwrap().is_url);
}

#[test]
fn play_settings_report_missing_source_and_bad_duration() {
    match play_settings(&strings(&["--duration", "5"])) {
        Err(BassError::InvalidInput { kind, message }) => {
            assert_eq!(kind, "argument");
            assert_eq!(message, "play requires a file path or URL");
        }
        other => panic!("unexpected {other:?}"),
    }
    match play_settings(&strings(&["song.mp3", "--duration=ten"])) {
        Err(BassError::InvalidInput { kind, message }) => {
            assert_eq!(kind, "duration");
            assert_eq!(message, "expected integer seconds");
        }
        other => panic!("unexpected {other:?}"),
    }
    assert!(play_settings(&strings(&["song.mp3", "--duration=-1"])).is_err());
}

#[test]
fn playback_stops_at_the_limit_or_when_a_file_ends() {
    assert!(play_should_stop(Some(10), 10, true, ActiveState::Playing));
    assert!(!play_should_stop(Some(10), 9, true, ActiveState::Stopped));
    assert!(play_should_stop(None, 0, false, ActiveState::Stopped));
    assert!(!play_should_stop(None, 1000, false, ActiveState::Playing));
    assert!(!play_should_stop(None, 1000, true, ActiveState::Stopped));
}

#[test]
fn files_open_as_streams_then_as_music() {
    assert_eq!(
        after_stream_attempt(5),
        FileLoadStep::Opened { handle: 5, kind: ChannelKind::Stream }
    );
    assert_eq!(after_stream_attempt(0), FileLoadStep::TryMusic);
    assert_eq!(
        after_music_attempt(9),
        FileLoadStep::Opened { handle: 9, kind: ChannelKind::Music }
    );
    assert_eq!(after_music_attempt(0), FileLoadStep::Failed);
}

#[test]
fn error_messages_read_as_documented() {
    assert_eq!(
        api_error("BASS_Init", 8).message(),
        "BASS operation BASS_Init failed with error Init"
    );
    assert_eq!(
        api_error("BASS_Init", -3).message(),
        "BASS operation BASS_Init failed with error Unknown(-3)"
    );
    assert_eq!(
        BassError::VersionMismatch { expected: 0x204, actual: 0x1f0 }.message(),
        "BASS version mismatch: expected API 0x204, got 0x1f0"
    );
    assert_eq!(
        BassError::VersionMismatch { expected: 0x204, actual: 0 }.message(),
        "BASS version mismatch: expected API 0x204, got 0x0"
    );
    assert_eq!(BassError::FxUnavailable.message(), "BASS_FX is not loaded");
    assert_eq!(
        BassError::AddonUnavailable { name: "BASSMIDI" }.message(),
        "add-on BASSMIDI is unavailable; provide its official DLL through the documented path"
    );
    assert_eq!(
        BassError::InvalidInput { kind: "URL", message: "bad".to_string() }.message(),
        "invalid URL: bad"
    );
    assert_eq!(
        BassError::Unsupported { operation: "x" }.message(),
        "operation x is not supported on this platform"
    );
    assert_eq!(
        BassError::CallbackPanicked.message(),
        "a callback panicked while handling a BASS event"
    );
    assert_eq!(
        BassError::LibraryLoad { library: PathBuf::from("/opt/libbass.so"), message: "gone".to_string() }.message(),
        "could not load /opt/libbass.so: gone"
    );
    assert_eq!(
        BassError::MissingSymbol { library: PathBuf::from("bass.dll"), symbol: "BASS_Init".to_string() }.message(),
        "missing symbol BASS_Init in bass.dll"
    );
    assert_eq!(ErrorCode::from(0).describe(), "Ok");
    assert_eq!(
        api_error("BASS_Start", 0).message(),
        "BASS operation BASS_Start failed with error Ok"
    );
    for value in [1, 12, 51, 52, i32::MIN, i32::MAX] {
        let code = ErrorCode::from(value);
        assert_eq!(code.describe(), format!("{code:?}"));
    }
}

#[test]
fn midi_library_path_ends_with_the_platform_name() {
    assert!(MidiAddon::library_path("/opt/bass", Platform::Unix).ends_with("libbassmidi.so"));
    assert!(MidiAddon::library_path("dir", Platform::Windows).ends_with("bassmidi.dll"));
    assert!(MidiAddon::library_path("", Platform::MacOs).ends_with("libbassmidi.dylib"));
}

#[test]
fn durations_are_read_as_unsigned_integers() {
    let limit = |text: &str| play_settings(&strings(&["a.mp3", "--duration", text])).ok().map(|s| s.limit_secs);
    assert_eq!(limit("10"), Some(Some(10)));
    assert_eq!(limit("+7"), Some(Some(7)));
    assert_eq!(limit("007"), Some(Some(7)));
    assert_eq!(limit("18446744073709551615"), Some(Some(u64::MAX)));
    assert_eq!(limit("18446744073709551616"), None);
    assert_eq!(limit("99999999999999999999x"), None);
    assert_eq!(limit(""), None);
    assert_eq!(limit("+"), None);
    assert_eq!(limit("-1"), None);
    assert_eq!(limit(" 1"), None);
    assert_eq!(limit("1.5"), None);
    assert_eq!(limit("１"), None);
}

#[test]
fn library_sources_come_from_the_options() {
    assert_eq!(
        engine_source(&strings(&["--bass", "b.dll", "--dll-dir", "d"])).unwrap(),
        LibrarySource::File("b.dll".to_string())
    );
    assert_eq!(
        engine_source(&strings(&["--dll-dir=d"])).unwrap(),
        LibrarySource::Directory("d".to_string())
    );
    match engine_source(&strings(&["devices"])) {
        Err(BassError::InvalidInput { kind, message }) => {
            assert_eq!(kind, "argument");
            assert_eq!(message, "BASS path is required; use --bass PATH or --dll-dir PATH");
        }
        other => panic!("unexpected {other:?}"),
    }
    assert_eq!(
        midi_source(&strings(&["--bass", "b.dll", "--bassmidi=m.dll"])).unwrap(),
        LibrarySource::File("m.dll".to_string())
    );
    assert_eq!(
        midi_source(&strings(&["--bass", "b.dll", "--dll-dir", "d"])).unwrap(),
        LibrarySource::Directory("d".to_string())
    );
    match midi_source(&strings(&["--bass", "b.dll"])) {
        Err(BassError::InvalidInput { kind, message }) => {
            assert_eq!(kind, "argument");
            assert_eq!(message, "BASSMIDI path is required; use --bassmidi PATH or --dll-dir PATH");
        }
        other => panic!("unexpected {other:?}"),
    }
}

#[test]
fn polyphony_defaults_to_zero_and_must_be_an_integer() {
    assert_eq!(max_polyphony(&strings(&["song.mid"])).unwrap(), 0);
    assert_eq!(max_polyphony(&strings(&["--max-polyphony=64"])).unwrap(), 64);
    assert_eq!(max_polyphony(&strings(&["--max-polyphony", "4294967295"])).unwrap(), u32::MAX);
    for bad in ["4294967296", "many", "-1"] {
        match max_polyphony(&strings(&["--max-polyphony", bad])) {
            Err(BassError::InvalidInput { kind, message }) => {
                assert_eq!(kind, "max-polyphony");
                assert_eq!(message, "expected an integer");
            }
            other => panic!("unexpected {other:?}"),
        }
    }
}

#[test]
fn float_processing_sets_float_dsp_first() {
    assert_eq!(
        InitOptions::default().float_dsp_config(),
        Some((raw::BASS_CONFIG_FLOATDSP, 1))
    );
    let plain = InitOptions { float_processing: false, ..InitOptions::default() };
    assert_eq!(plain.float_dsp_config(), None);
}

#[test]
fn midi_library_path_lies_in_the_directory() {
    assert_eq!(MidiAddon::library_path("/opt/bass", Platform::Unix), "/opt/bass/libbassmidi.so");
    assert_eq!(MidiAddon::library_path("/opt/bass/", Platform::Unix), "/opt/bass/libbassmidi.so");
    assert_eq!(MidiAddon::library_path("", Platform::Unix), "libbassmidi.so");
}

#[test]
fn initialize_sets_float_dsp_then_initializes() {
    let mut state = bass_rs::EngineState::new();
    let mut asked = Vec::new();
    let result = state.initialize(
        &InitOptions::default(),
        |option, value| {
            asked.push((option, value));
            (1, 0)
        },
        |device, rate, flags| {
            assert_eq!((device, rate, flags), (-1, 44100, 0));
            (1, 0)
        },
    );
    assert!(result.is_ok());
    assert!(state.initialized);
    assert_eq!(asked, vec![(raw::BASS_CONFIG_FLOATDSP, 1)]);
}

#[test]
fn failed_initialization_leaves_the_state() {
    let mut state = bass_rs::EngineState::new();
    let result = state.initialize(
        &InitOptions::default(),
        |_, _| (0, raw::BASS_ERROR_ILLPARAM),
        |_, _, _| -> (i32, i32) { panic!("BASS_Init is not called after a failed BASS_SetConfig") },
    );
    assert!(matches!(
        result,
        Err(BassError::Api { operation: "BASS_SetConfig", code: ErrorCode::IllParam })
    ));
    assert!(!state.initialized);
    let plain = InitOptions { float_processing: false, ..InitOptions::default() };
    let result = state.initialize(
        &plain,
        |_, _| -> (i32, i32) { panic!("no float DSP requested") },
        |_, _, _| (0, raw::BASS_ERROR_DEVICE),
    );
    assert!(matches!(
        result,
        Err(BassError::Api { operation: "BASS_Init", code: ErrorCode::Device })
    ));
    assert!(!state.initialized);
}

#[test]
fn free_clears_the_state_only_on_success() {
    let mut state = bass_rs::EngineState::new();
    state.record_init(true);
    let result = state.free(|| (0, raw::BASS_ERROR_INIT));
    assert!(matches!(
        result,
        Err(BassError::Api { operation: "BASS_Free", code: ErrorCode::Init })
    ));
    assert!(state.initialized);
    assert!(state.free(|| (1, 0)).is_ok());
    assert!(!state.initialized);
}

#[test]
fn directory_options_prefer_the_explicit_fx_path() {
    let standard = PathBuf::from("/d/libbass_fx.so");
    let explicit = PathBuf::from("/e/fx.so");
    let given = BassEngineOptions { fx_path: Some(explicit.clone()), require_fx: true };
    let options = given
        .for_directory(true, "/d", standard.clone(), || -> bool { panic!("not probed") })
        .unwrap();
    assert_eq!(options.fx_path, Some(explicit));
    assert!(options.require_fx);
    let found = BassEngineOptions::default()
        .for_directory(true, "/d", standard.clone(), || true)
        .unwrap();
    assert_eq!(found.fx_path, Some(standard.clone()));
    let missing = BassEngineOptions::default()
        .for_directory(true, "/d", standard.clone(), || false)
        .unwrap();
    assert_eq!(missing.fx_path, None);
    match BassEngineOptions::default().for_directory(false, "/nope", standard, || true) {
        Err(BassError::InvalidInput { kind, message }) => {
            assert_eq!(kind, "DLL directory");
            assert_eq!(message, "/nope is not a directory");
        }
        other => panic!("unexpected {other:?}"),
    }
}
