//! Safe, dynamically-loaded bindings for BASS 2.4 and BASS_FX: the verified
//! core that decides flags, error codes, paths and option handling.

pub mod cli;
mod engine;
mod error;
mod fx;
pub mod midi;
mod path;
pub mod raw;
mod text;


pub use engine::{
    after_music_attempt, after_stream_attempt, buffering_percent, check_api_version, check_library_version, data_bytes_kept, data_request,
    download_notice, fft_capacity, fft_flag, fft_values_kept, known_value, level_channel_count,
    nonzero_handle, not_a_directory, platform_library_name, select_fx_path, ActiveState,
    BassEngineOptions, ChannelInfo, ChannelKind, DeviceInfo, DeviceType, DownloadEvent,
    DownloadNotice, EngineState, FileLoadStep, InitOptions, OutputBackend, OutputInfo, Platform, PluginFormat, PluginInfo,
    SourceOptions, SyncEvent, SyncKind, TagKind, UrlOptions, MAX_DEVICES,
};
pub use fx::{
    check_effect_available, check_parameter_kind, derived_channel_flags, require_fx_loaded,
    BassFxEffect, DspInfo, EffectKind, EffectParameters,
};
pub use error::{api_error, check_bool, BassError, ErrorCode, Result};
pub use path::NativePath;
pub use text::{decode_native_text, lossy_text, TagReader, MAX_TAG_ENTRIES};

use vstd::prelude::*;

verus! {

/// The BASS API version encoded in the official headers.
pub const BASS_API_VERSION: u16 = 0x204;

/// The BASS_FX API version encoded in the official headers.
pub const BASS_FX_API_VERSION: u16 = 0x204;

} // verus!
