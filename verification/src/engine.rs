//! Engine and channel options, device and channel descriptions, and the
//! decisions that turn them into the flag words and results of BASS.

use crate::error::{check_bool, error_code_of, BassError, Result};
use crate::raw::{self, DWORD, QWORD};
use std::path::PathBuf;
use vstd::prelude::*;
use vstd::string::*;

verus! {

/// `bit` when `on` holds, else no bit.
pub open spec fn flag_if(on: bool, bit: u32) -> u32 {
    if on { bit } else { 0 }
}

/// Options controlling optional BASS_FX loading.
#[derive(Debug, Clone)]
pub struct BassEngineOptions {
    pub fx_path: Option<PathBuf>,
    pub require_fx: bool,
}

impl Default for BassEngineOptions {
    fn default() -> (options: Self)
        ensures
            options.fx_path is None,
            !options.require_fx,
    {
        BassEngineOptions { fx_path: None, require_fx: false }
    }
}

impl BassEngineOptions {
    /// What to do about BASS_FX: load it from the given path, fail because
    /// it is required but no path was given, or go on without it.
    pub fn fx_request(self) -> (request: Result<Option<PathBuf>>)
        ensures
            self.fx_path is Some ==> request == Ok::<Option<PathBuf>, BassError>(self.fx_path),
            self.fx_path is None && self.require_fx ==> request == Err::<Option<PathBuf>, BassError>(
                BassError::FxUnavailable,
            ),
            self.fx_path is None && !self.require_fx ==> request == Ok::<Option<PathBuf>, BassError>(
                None,
            ),
    {
        match self.fx_path {
            Some(path) => Ok(Some(path)),
            None => {
                if self.require_fx {
                    Err(BassError::FxUnavailable)
                } else {
                    Ok(None)
                }
            },
        }
    }
}

/// The BASS_FX path used when loading from a directory: an explicit path
/// takes precedence; otherwise the standard file of the directory, when it
/// exists.
pub fn select_fx_path(explicit: Option<PathBuf>, standard: PathBuf, standard_exists: bool) -> (chosen: Option<PathBuf>)
    ensures
        explicit is Some ==> chosen == explicit,
        explicit is None && standard_exists ==> chosen == Some(standard),
        explicit is None && !standard_exists ==> chosen is None,
{
    match explicit {
        Some(path) => Some(path),
        None => {
            if standard_exists {
                Some(standard)
            } else {
                None
            }
        },
    }
}

/// Whether BASS has been initialized by an engine, and so must be freed
/// when the engine goes away.
#[derive(Debug, Default)]
pub struct EngineState {
    pub initialized: bool,
}

impl EngineState {
    /// The state of a freshly loaded engine: not initialized.
    pub fn new() -> (state: Self)
        ensures
            !state.initialized,
    {
        EngineState { initialized: false }
    }

    /// Records the outcome of `BASS_Init`: a success marks BASS as
    /// initialized, a failure changes nothing.
    pub fn record_init(&mut self, succeeded: bool)
        ensures
            final(self).initialized == (old(self).initialized || succeeded),
    {
        if succeeded {
            self.initialized = true;
        }
    }

    /// Records the outcome of `BASS_Free`: a success marks BASS as no longer
    /// initialized, a failure changes nothing.
    pub fn record_free(&mut self, succeeded: bool)
        ensures
            final(self).initialized == (old(self).initialized && !succeeded),
    {
        if succeeded {
            self.initialized = false;
        }
    }

    /// Whether the engine must free BASS as it goes away; afterwards BASS
    /// counts as freed.
    pub fn take_for_release(&mut self) -> (must_free: bool)
        ensures
            must_free == old(self).initialized,
            !final(self).initialized,
    {
        let must_free = self.initialized;
        self.initialized = false;
        must_free
    }
}

impl BassEngineOptions {
    /// The options for loading from a directory: an error when the path is
    /// not a directory; otherwise the same options, with the BASS_FX path
    /// chosen by `select_fx_path`. `directory_text` is the directory as it
    /// is shown, `standard_fx` the standard BASS_FX file in it, and
    /// `standard_fx_exists` asks whether that is a file; it is asked only
    /// when no explicit path was given.
    pub fn for_directory<P: FnOnce() -> bool>(
        self,
        is_directory: bool,
        directory_text: &str,
        standard_fx: PathBuf,
        standard_fx_exists: P,
    ) -> (result: Result<BassEngineOptions>)
        requires
            self.fx_path is None ==> call_requires(standard_fx_exists, ()),
        ensures
            !is_directory ==> (result matches Err(BassError::InvalidInput { kind, message })
                && kind@ == "DLL directory"@ && message@ == directory_text@
                + " is not a directory"@),
            is_directory && self.fx_path is Some ==> result == Ok::<BassEngineOptions, BassError>(
                self,
            ),
            is_directory && self.fx_path is None ==> exists|exists: bool|
                call_ensures(standard_fx_exists, (), exists) && result == Ok::<
                    BassEngineOptions,
                    BassError,
                >(
                    BassEngineOptions {
                        fx_path: if exists { Some(standard_fx) } else { None },
                        require_fx: self.require_fx,
                    },
                ),
    {
        if !is_directory {
            return Err(not_a_directory(directory_text));
        }
        match self.fx_path {
            Some(path) => Ok(BassEngineOptions { fx_path: Some(path), require_fx: self.require_fx }),
            None => {
                let exists = standard_fx_exists();
                let fx_path = select_fx_path(None, standard_fx, exists);
                Ok(BassEngineOptions { fx_path, require_fx: self.require_fx })
            },
        }
    }
}

/// The API version in the high word of a `BASS_GetVersion` result.
pub open spec fn api_version_of(version: u32) -> u16 {
    (version / 0x10000) as u16
}

/// Accepts exactly the API version of the official headers.
pub fn check_api_version(actual: u16) -> (result: Result<()>)
    ensures
        actual == crate::BASS_API_VERSION ==> result == Ok::<(), BassError>(()),
        actual != crate::BASS_API_VERSION ==> result == Err::<(), BassError>(
            BassError::VersionMismatch { expected: crate::BASS_API_VERSION, actual },
        ),
{
    if actual == crate::BASS_API_VERSION {
        Ok(())
    } else {
        Err(BassError::VersionMismatch { expected: crate::BASS_API_VERSION, actual })
    }
}

/// Checks the full version word that a loaded library reports.
pub fn check_library_version(version: u32) -> (result: Result<()>)
    ensures
        api_version_of(version) == crate::BASS_API_VERSION ==> result == Ok::<(), BassError>(()),
        api_version_of(version) != crate::BASS_API_VERSION ==> result == Err::<(), BassError>(
            BassError::VersionMismatch {
                expected: crate::BASS_API_VERSION,
                actual: api_version_of(version),
            },
        ),
{
    let high = version >> 16;
    assert(high == version / 0x10000) by (bit_vector)
        requires
            high == version >> 16,
    ;
    check_api_version(high as u16)
}

/// The error for a path given as a directory that is not one.
pub fn not_a_directory(directory: &str) -> (error: BassError)
    ensures
        error matches BassError::InvalidInput { kind, message } && kind@ == "DLL directory"@
            && message@ == directory@ + " is not a directory"@,
{
    let message = String::from_str(directory);
    let message = message.concat(" is not a directory");
    BassError::InvalidInput { kind: "DLL directory", message }
}

/// The platform whose naming convention native library files follow.
#[derive(Debug, Clone, Copy, PartialEq, Eq, Structural)]
pub enum Platform {
    Windows,
    MacOs,
    Unix,
    Other,
}

/// The file name of the native library `stem` on `platform`.
pub open spec fn library_file_name(platform: Platform, stem: Seq<char>) -> Seq<char> {
    match platform {
        Platform::Windows => stem + ".dll"@,
        Platform::MacOs => "lib"@ + stem + ".dylib"@,
        Platform::Unix => "lib"@ + stem + ".so"@,
        Platform::Other => stem + ".dll"@,
    }
}

/// The file name of the native library `stem` on `platform`: `stem.dll` on
/// Windows, `libstem.dylib` on macOS, `libstem.so` on other Unix systems.
pub fn platform_library_name(platform: Platform, stem: &str) -> (name: String)
    ensures
        name@ == library_file_name(platform, stem@),
{
    match platform {
        Platform::Windows | Platform::Other => {
            let name = String::from_str(stem);
            name.concat(".dll")
        },
        Platform::MacOs => {
            let name = String::from_str("lib");
            let name = name.concat(stem);
            name.concat(".dylib")
        },
        Platform::Unix => {
            let name = String::from_str("lib");
            let name = name.concat(stem);
            name.concat(".so")
        },
    }
}


/// The output backend that BASS initializes.
#[derive(Debug, Clone, Copy, PartialEq, Eq, Structural)]
pub enum OutputBackend {
    Wasapi,
    DirectSound,
}

impl Default for OutputBackend {
    fn default() -> (backend: Self)
        ensures
            backend == OutputBackend::Wasapi,
    {
        OutputBackend::Wasapi
    }
}

/// The `BASS_Init` flag that selects a backend.
pub open spec fn backend_flags(backend: OutputBackend) -> u32 {
    match backend {
        OutputBackend::Wasapi => 0,
        OutputBackend::DirectSound => raw::BASS_DEVICE_DSOUND,
    }
}

impl OutputBackend {
    /// The `BASS_Init` flag of this backend. WASAPI is represented by no
    /// flag, the official behavior on Vista and newer Windows systems.
    pub fn flags(self) -> (flags: DWORD)
        ensures
            flags == backend_flags(self),
    {
        match self {
            OutputBackend::Wasapi => 0,
            OutputBackend::DirectSound => raw::BASS_DEVICE_DSOUND,
        }
    }
}

/// Options of `BASS_Init`.
#[derive(Debug, Clone)]
pub struct InitOptions {
    pub device: i32,
    pub sample_rate: u32,
    pub backend: OutputBackend,
    pub mono: bool,
    pub exclusive: bool,
    pub force_frequency: bool,
    pub float_processing: bool,
}

impl Default for InitOptions {
    fn default() -> (options: Self)
        ensures
            options.device == -1,
            options.sample_rate == 44100,
            options.backend == OutputBackend::Wasapi,
            !options.mono,
            !options.exclusive,
            !options.force_frequency,
            options.float_processing,
    {
        InitOptions {
            device: -1,
            sample_rate: 44100,
            backend: OutputBackend::default(),
            mono: false,
            exclusive: false,
            force_frequency: false,
            float_processing: true,
        }
    }
}

/// The `BASS_Init` flag word for a set of options.
pub open spec fn init_flags(options: InitOptions) -> u32 {
    backend_flags(options.backend) | flag_if(options.mono, raw::BASS_DEVICE_MONO) | flag_if(
        options.exclusive,
        raw::BASS_DEVICE_HOG,
    ) | flag_if(options.force_frequency, raw::BASS_DEVICE_FREQ)
}

impl InitOptions {
    /// The flag word handed to `BASS_Init`: the backend flag, then mono,
    /// exclusive and forced-frequency output as requested.
    pub fn flags(&self) -> (flags: DWORD)
        ensures
            flags == init_flags(*self),
    {
        self.backend.flags() | (if self.mono {
            raw::BASS_DEVICE_MONO
        } else {
            0
        }) | (if self.exclusive {
            raw::BASS_DEVICE_HOG
        } else {
            0
        }) | (if self.force_frequency {
            raw::BASS_DEVICE_FREQ
        } else {
            0
        })
    }
}

impl InitOptions {
    /// The configuration set before `BASS_Init`: float DSP processing,
    /// when requested.
    pub fn float_dsp_config(&self) -> (config: Option<(DWORD, DWORD)>)
        ensures
            self.float_processing ==> config == Some((raw::BASS_CONFIG_FLOATDSP, 1u32)),
            !self.float_processing ==> config is None,
    {
        if self.float_processing {
            Some((raw::BASS_CONFIG_FLOATDSP, 1))
        } else {
            None
        }
    }
}

/// The `BASS_Init` flag word holds the backend flag, and the bit of each
/// output option exactly when the option is enabled.
pub proof fn lemma_init_flags_bits(options: InitOptions)
    ensures
        init_flags(options) & backend_flags(options.backend) == backend_flags(options.backend),
        (init_flags(options) & raw::BASS_DEVICE_DSOUND != 0) == (options.backend
            == OutputBackend::DirectSound),
        (init_flags(options) & raw::BASS_DEVICE_MONO != 0) == options.mono,
        (init_flags(options) & raw::BASS_DEVICE_HOG != 0) == options.exclusive,
        (init_flags(options) & raw::BASS_DEVICE_FREQ != 0) == options.force_frequency,
{
    let k = backend_flags(options.backend);
    let a = flag_if(options.mono, 2u32);
    let b = flag_if(options.exclusive, 0x10000u32);
    let c = flag_if(options.force_frequency, 0x4000u32);
    let f = k | a | b | c;
    assert(f & k == k && ((f & 0x40000u32 != 0) == (k == 0x40000u32)) && ((f & 2u32 != 0) == (a
        == 2u32)) && ((f & 0x10000u32 != 0) == (b == 0x10000u32)) && ((f & 0x4000u32 != 0) == (c
        == 0x4000u32))) by (bit_vector)
        requires
            f == k | a | b | c,
            k == 0 || k == 0x40000u32,
            a == 0 || a == 2u32,
            b == 0 || b == 0x10000u32,
            c == 0 || c == 0x4000u32,
    ;
}

/// The `BASS_Init` flag word holds no bit beyond the DirectSound, mono,
/// exclusive and forced-frequency bits.
pub proof fn lemma_init_flags_nothing_else(options: InitOptions)
    ensures
        init_flags(options) & !(raw::BASS_DEVICE_DSOUND | raw::BASS_DEVICE_MONO
            | raw::BASS_DEVICE_HOG | raw::BASS_DEVICE_FREQ) == 0,
{
    let k = backend_flags(options.backend);
    let a = flag_if(options.mono, 2u32);
    let b = flag_if(options.exclusive, 0x10000u32);
    let c = flag_if(options.force_frequency, 0x4000u32);
    let f = k | a | b | c;
    assert(f & !(0x40000u32 | 2u32 | 0x10000u32 | 0x4000u32) == 0) by (bit_vector)
        requires
            f == k | a | b | c,
            k == 0 || k == 0x40000u32,
            a == 0 || a == 2u32,
            b == 0 || b == 0x10000u32,
            c == 0 || c == 0x4000u32,
    ;
}

/// Whether `result` is the API error of `operation` for error number `code`.
pub open spec fn is_api_error(result: Result<()>, operation: Seq<char>, code: i32) -> bool {
    result matches Err(BassError::Api { operation: op, code: c }) && op@ == operation && c
        == error_code_of(code)
}

/// What initializing gives, from the replies of the native calls (each the
/// `BOOL` returned and the error number reported): with float processing,
/// `BASS_SetConfig` is asked first, and its failure ends the call before
/// `BASS_Init`; otherwise the reply of `BASS_Init` decides. A success marks
/// BASS as initialized; a failure leaves the state as it was.
pub open spec fn initialize_outcome(
    float_processing: bool,
    before: bool,
    config_reply: Option<(i32, i32)>,
    init_reply: Option<(i32, i32)>,
    result: Result<()>,
    after: bool,
) -> bool {
    &&& (config_reply is Some) == float_processing
    &&& if config_reply is Some && config_reply.unwrap().0 == 0 {
        &&& init_reply is None
        &&& is_api_error(result, "BASS_SetConfig"@, config_reply.unwrap().1)
        &&& after == before
    } else {
        &&& init_reply is Some
        &&& init_reply.unwrap().0 != 0 ==> result == Ok::<(), BassError>(()) && after
        &&& init_reply.unwrap().0 == 0 ==> is_api_error(result, "BASS_Init"@, init_reply.unwrap().1)
            && after == before
    }
}

/// What freeing gives, from the reply of `BASS_Free`: a success marks BASS
/// as no longer initialized; a failure leaves the state as it was.
pub open spec fn free_outcome(before: bool, reply: (i32, i32), result: Result<()>, after: bool) -> bool {
    if reply.0 != 0 {
        result == Ok::<(), BassError>(()) && !after
    } else {
        is_api_error(result, "BASS_Free"@, reply.1) && after == before
    }
}

impl EngineState {
    /// Initializes output with `options`: `set_config` performs
    /// `BASS_SetConfig` and `init` performs `BASS_Init`, each answering the
    /// `BOOL` returned and the error number BASS reports after it.
    pub fn initialize<C: FnOnce(DWORD, DWORD) -> (i32, i32), I: FnOnce(i32, u32, DWORD) -> (i32, i32)>(
        &mut self,
        options: &InitOptions,
        set_config: C,
        init: I,
    ) -> (result: Result<()>)
        requires
            call_requires(set_config, (raw::BASS_CONFIG_FLOATDSP, 1u32)),
            call_requires(init, (options.device, options.sample_rate, init_flags(*options))),
        ensures
            exists|config_reply: Option<(i32, i32)>, init_reply: Option<(i32, i32)>|
                {
                    &&& (config_reply matches Some(r) ==> call_ensures(
                        set_config,
                        (raw::BASS_CONFIG_FLOATDSP, 1u32),
                        r,
                    ))
                    &&& (init_reply matches Some(r) ==> call_ensures(
                        init,
                        (options.device, options.sample_rate, init_flags(*options)),
                        r,
                    ))
                    &&& initialize_outcome(
                        options.float_processing,
                        old(self).initialized,
                        config_reply,
                        init_reply,
                        result,
                        final(self).initialized,
                    )
                },
    {
        let mut config_reply: Option<(i32, i32)> = None;
        if let Some((option, value)) = options.float_dsp_config() {
            let reply = set_config(option, value);
            config_reply = Some(reply);
            if let Err(error) = check_bool("BASS_SetConfig", reply.0, reply.1) {
                assert(initialize_outcome(
                    options.float_processing,
                    old(self).initialized,
                    config_reply,
                    None,
                    Err::<(), BassError>(error),
                    self.initialized,
                ));
                return Err(error);
            }
        }
        let reply = init(options.device, options.sample_rate, options.flags());
        let result = check_bool("BASS_Init", reply.0, reply.1);
        self.record_init(result.is_ok());
        assert(initialize_outcome(
            options.float_processing,
            old(self).initialized,
            config_reply,
            Some(reply),
            result,
            self.initialized,
        ));
        result
    }

    /// Frees output: `free` performs `BASS_Free`, answering the `BOOL`
    /// returned and the error number BASS reports after it.
    pub fn free<F: FnOnce() -> (i32, i32)>(&mut self, free: F) -> (result: Result<()>)
        requires
            call_requires(free, ()),
        ensures
            exists|reply: (i32, i32)|
                call_ensures(free, (), reply) && free_outcome(
                    old(self).initialized,
                    reply,
                    result,
                    final(self).initialized,
                ),
    {
        let reply = free();
        let result = check_bool("BASS_Free", reply.0, reply.1);
        self.record_free(result.is_ok());
        assert(free_outcome(old(self).initialized, reply, result, self.initialized));
        result
    }
}

/// An initialization that succeeds leaves BASS initialized; one that fails,
/// at `BASS_SetConfig` or at `BASS_Init`, leaves the state as it was.
pub proof fn lemma_initialize_state(
    float_processing: bool,
    before: bool,
    config_reply: Option<(i32, i32)>,
    init_reply: Option<(i32, i32)>,
    result: Result<()>,
    after: bool,
)
    requires
        initialize_outcome(float_processing, before, config_reply, init_reply, result, after),
    ensures
        result is Ok ==> after,
        result is Err ==> after == before,
{
}

/// A free that succeeds leaves BASS no longer initialized; one that fails
/// leaves the state as it was.
pub proof fn lemma_free_state(before: bool, reply: (i32, i32), result: Result<()>, after: bool)
    requires
        free_outcome(before, reply, result, after),
    ensures
        result is Ok ==> !after,
        result is Err ==> after == before,
{
}

/// Information about the initialized output, from `BASS_GetInfo`.
#[derive(Debug, Clone)]
pub struct OutputInfo {
    pub flags: DWORD,
    pub min_buffer_ms: u32,
    pub latency_ms: u32,
    pub sample_rate: u32,
    pub speakers: u32,
    pub direct_sound_version: u32,
}

impl OutputInfo {
    /// The output description carried by a filled `BASS_INFO`.
    pub fn from_raw(info: &raw::BASS_INFO) -> (output: Self)
        ensures
            output.flags == info.flags,
            output.min_buffer_ms == info.minbuf,
            output.latency_ms == info.latency,
            output.sample_rate == info.freq,
            output.speakers == info.speakers,
            output.direct_sound_version == info.dsver,
    {
        OutputInfo {
            flags: info.flags,
            min_buffer_ms: info.minbuf,
            latency_ms: info.latency,
            sample_rate: info.freq,
            speakers: info.speakers,
            direct_sound_version: info.dsver,
        }
    }
}

/// The kind of an output device, from the type bits of its flags.
#[derive(Debug, Clone, Copy, PartialEq, Eq, Structural)]
pub enum DeviceType {
    Network,
    Speakers,
    Line,
    Headphones,
    Microphone,
    Headset,
    Handset,
    Digital,
    Spdif,
    Hdmi,
    DisplayPort,
    Unknown,
}

/// The device type that the type bits `bits` name.
pub open spec fn device_type_of_bits(bits: u32) -> DeviceType {
    if bits == raw::BASS_DEVICE_TYPE_NETWORK {
        DeviceType::Network
    } else if bits == raw::BASS_DEVICE_TYPE_SPEAKERS {
        DeviceType::Speakers
    } else if bits == raw::BASS_DEVICE_TYPE_LINE {
        DeviceType::Line
    } else if bits == raw::BASS_DEVICE_TYPE_HEADPHONES {
        DeviceType::Headphones
    } else if bits == raw::BASS_DEVICE_TYPE_MICROPHONE {
        DeviceType::Microphone
    } else if bits == raw::BASS_DEVICE_TYPE_HEADSET {
        DeviceType::Headset
    } else if bits == raw::BASS_DEVICE_TYPE_HANDSET {
        DeviceType::Handset
    } else if bits == raw::BASS_DEVICE_TYPE_DIGITAL {
        DeviceType::Digital
    } else if bits == raw::BASS_DEVICE_TYPE_SPDIF {
        DeviceType::Spdif
    } else if bits == raw::BASS_DEVICE_TYPE_HDMI {
        DeviceType::Hdmi
    } else if bits == raw::BASS_DEVICE_TYPE_DISPLAYPORT {
        DeviceType::DisplayPort
    } else {
        DeviceType::Unknown
    }
}

/// The device type that a device flag word names.
pub open spec fn device_type_of(flags: u32) -> DeviceType {
    device_type_of_bits(flags & raw::BASS_DEVICE_TYPE_MASK)
}

impl DeviceType {
    /// The device type named by the type bits of `flags`.
    pub fn from_flags(flags: DWORD) -> (device_type: Self)
        ensures
            device_type == device_type_of(flags),
    {
        let bits = flags & raw::BASS_DEVICE_TYPE_MASK;
        if bits == raw::BASS_DEVICE_TYPE_NETWORK {
            DeviceType::Network
        } else if bits == raw::BASS_DEVICE_TYPE_SPEAKERS {
            DeviceType::Speakers
        } else if bits == raw::BASS_DEVICE_TYPE_LINE {
            DeviceType::Line
        } else if bits == raw::BASS_DEVICE_TYPE_HEADPHONES {
            DeviceType::Headphones
        } else if bits == raw::BASS_DEVICE_TYPE_MICROPHONE {
            DeviceType::Microphone
        } else if bits == raw::BASS_DEVICE_TYPE_HEADSET {
            DeviceType::Headset
        } else if bits == raw::BASS_DEVICE_TYPE_HANDSET {
            DeviceType::Handset
        } else if bits == raw::BASS_DEVICE_TYPE_DIGITAL {
            DeviceType::Digital
        } else if bits == raw::BASS_DEVICE_TYPE_SPDIF {
            DeviceType::Spdif
        } else if bits == raw::BASS_DEVICE_TYPE_HDMI {
            DeviceType::Hdmi
        } else if bits == raw::BASS_DEVICE_TYPE_DISPLAYPORT {
            DeviceType::DisplayPort
        } else {
            DeviceType::Unknown
        }
    }
}

/// The status bits of a device (enabled, default, initialized, loopback)
/// never change its type: only the type bits count.
pub proof fn lemma_device_type_ignores_status_bits(flags: u32, status: u32)
    requires
        status & raw::BASS_DEVICE_TYPE_MASK == 0,
    ensures
        device_type_of(flags | status) == device_type_of(flags),
{
    assert((flags | status) & 0xff00_0000u32 == flags & 0xff00_0000u32) by (bit_vector)
        requires
            status & 0xff00_0000u32 == 0,
    ;
}

/// The most devices enumerated.
pub const MAX_DEVICES: u32 = 4096;

/// Whether `query`, asked for the index of `info`, can report the name,
/// driver and flags that `info` holds, its type read from those flags.
pub open spec fn device_reported<F: Fn(u32) -> Option<(String, String, DWORD)>>(
    query: F,
    info: DeviceInfo,
) -> bool {
    exists|reply: (String, String, DWORD)|
        {
            &&& #[trigger] call_ensures(query, (info.index,), Some(reply))
            &&& info.name == reply.0
            &&& info.driver == reply.1
            &&& info.flags == reply.2
            &&& info.device_type == device_type_of(reply.2)
        }
}

/// An output device reported by `BASS_GetDeviceInfo`.
#[derive(Debug, Clone)]
pub struct DeviceInfo {
    pub index: u32,
    pub name: String,
    pub driver: String,
    pub flags: DWORD,
    pub device_type: DeviceType,
}

impl DeviceInfo {
    /// The description of device `index`, its type read from `flags`.
    pub fn new(index: u32, name: String, driver: String, flags: DWORD) -> (info: Self)
        ensures
            info.index == index,
            info.name == name,
            info.driver == driver,
            info.flags == flags,
            info.device_type == device_type_of(flags),
    {
        DeviceInfo { index, name, driver, flags, device_type: DeviceType::from_flags(flags) }
    }

    /// Enumerates the output devices: `query` reports the name, driver and
    /// flags of a device index, or nothing past the last device. Indices are
    /// asked from zero up, at most `MAX_DEVICES` of them, and the
    /// enumeration stops at the first index without a device.
    pub fn enumerate<F: Fn(u32) -> Option<(String, String, DWORD)>>(query: F) -> (devices: Vec<
        DeviceInfo,
    >)
        requires
            forall|index: u32| index < MAX_DEVICES ==> call_requires(query, (index,)),
        ensures
            devices.len() <= MAX_DEVICES,
            forall|k: int|
                #![trigger devices@[k]]
                0 <= k < devices.len() ==> devices@[k].index == k
                    && device_reported(query, devices@[k]),
            devices.len() < MAX_DEVICES ==> call_ensures(query, (devices.len() as u32,), None),
    {
        let mut devices: Vec<DeviceInfo> = Vec::new();
        let mut index: u32 = 0;
        while index < MAX_DEVICES
            invariant_except_break
                index <= MAX_DEVICES,
                devices.len() == index,
                forall|i: u32| i < MAX_DEVICES ==> call_requires(query, (i,)),
                forall|k: int|
                    #![trigger devices@[k]]
                    0 <= k < devices.len() ==> devices@[k].index == k
                        && device_reported(query, devices@[k]),
            ensures
                devices.len() <= MAX_DEVICES,
                forall|k: int|
                    #![trigger devices@[k]]
                    0 <= k < devices.len() ==> devices@[k].index == k
                        && device_reported(query, devices@[k]),
                devices.len() < MAX_DEVICES ==> call_ensures(query, (devices.len() as u32,), None),
            decreases MAX_DEVICES - index,
        {
            let answer = query(index);
            match answer {
                None => {
                    break;
                },
                Some(reply) => {
                    let ghost kept = reply;
                    let (name, driver, flags) = reply;
                    let info = DeviceInfo::new(index, name, driver, flags);
                    assert(device_reported(query, info)) by {
                        assert(call_ensures(query, (info.index,), Some(kept)));
                    }
                    let ghost old_devices = devices@;
                    devices.push(info);
                    assert forall|k: int|
                        #![trigger devices@[k]]
                        0 <= k < devices.len() implies devices@[k].index == k
                            && device_reported(query, devices@[k]) by {
                        if k < index {
                            assert(devices@[k] == old_devices[k]);
                        }
                    }
                },
            }
            index = index + 1;
        }
        devices
    }

    /// Whether the device is the system default.
    pub fn is_default(&self) -> (r: bool)
        ensures
            r == (self.flags & raw::BASS_DEVICE_DEFAULT != 0),
    {
        self.flags & raw::BASS_DEVICE_DEFAULT != 0
    }

    /// Whether the device is enabled.
    pub fn is_enabled(&self) -> (r: bool)
        ensures
            r == (self.flags & raw::BASS_DEVICE_ENABLED != 0),
    {
        self.flags & raw::BASS_DEVICE_ENABLED != 0
    }

    /// Whether the device has been initialized.
    pub fn is_initialized(&self) -> (r: bool)
        ensures
            r == (self.flags & raw::BASS_DEVICE_INIT != 0),
    {
        self.flags & raw::BASS_DEVICE_INIT != 0
    }

    /// Whether the device is a loopback device.
    pub fn is_loopback(&self) -> (r: bool)
        ensures
            r == (self.flags & raw::BASS_DEVICE_LOOPBACK != 0),
    {
        self.flags & raw::BASS_DEVICE_LOOPBACK != 0
    }
}


/// How a file or music source is opened.
#[derive(Debug, Clone)]
pub struct SourceOptions {
    pub float: bool,
    pub mono: bool,
    pub looped: bool,
    pub decode_only: bool,
    pub prescan: bool,
    pub stream_flags: DWORD,
    pub music_flags: DWORD,
    pub music_frequency: DWORD,
}

impl Default for SourceOptions {
    /// Float samples and a prescan, with ramping for music files.
    fn default() -> (options: Self)
        ensures
            options.float,
            !options.mono,
            !options.looped,
            !options.decode_only,
            options.prescan,
            options.stream_flags == 0,
            options.music_flags == raw::BASS_MUSIC_RAMP,
            options.music_frequency == 0,
    {
        SourceOptions {
            float: true,
            mono: false,
            looped: false,
            decode_only: false,
            prescan: true,
            stream_flags: 0,
            music_flags: raw::BASS_MUSIC_RAMP,
            music_frequency: 0,
        }
    }
}

/// The `BASS_StreamCreateFile` flag word for a set of options.
pub open spec fn stream_flags_of(options: SourceOptions) -> u32 {
    options.stream_flags | flag_if(options.float, raw::BASS_SAMPLE_FLOAT) | flag_if(
        options.mono,
        raw::BASS_SAMPLE_MONO,
    ) | flag_if(options.looped, raw::BASS_SAMPLE_LOOP) | flag_if(
        options.decode_only,
        raw::BASS_STREAM_DECODE,
    ) | flag_if(options.prescan, raw::BASS_STREAM_PRESCAN)
}

/// The `BASS_MusicLoad` flag word for a set of options.
pub open spec fn music_flags_of(options: SourceOptions) -> u32 {
    options.music_flags | flag_if(options.float, raw::BASS_MUSIC_FLOAT) | flag_if(
        options.mono,
        raw::BASS_MUSIC_MONO,
    ) | flag_if(options.looped, raw::BASS_MUSIC_LOOP) | flag_if(
        options.decode_only,
        raw::BASS_MUSIC_DECODE,
    ) | flag_if(options.prescan, raw::BASS_MUSIC_PRESCAN)
}

impl SourceOptions {
    /// The extra stream flags with the bit of each enabled option added.
    pub fn stream_flags(&self) -> (flags: DWORD)
        ensures
            flags == stream_flags_of(*self),
    {
        self.stream_flags | (if self.float {
            raw::BASS_SAMPLE_FLOAT
        } else {
            0
        }) | (if self.mono {
            raw::BASS_SAMPLE_MONO
        } else {
            0
        }) | (if self.looped {
            raw::BASS_SAMPLE_LOOP
        } else {
            0
        }) | (if self.decode_only {
            raw::BASS_STREAM_DECODE
        } else {
            0
        }) | (if self.prescan {
            raw::BASS_STREAM_PRESCAN
        } else {
            0
        })
    }

    /// The extra music flags with the bit of each enabled option added.
    pub fn music_flags(&self) -> (flags: DWORD)
        ensures
            flags == music_flags_of(*self),
    {
        self.music_flags | (if self.float {
            raw::BASS_MUSIC_FLOAT
        } else {
            0
        }) | (if self.mono {
            raw::BASS_MUSIC_MONO
        } else {
            0
        }) | (if self.looped {
            raw::BASS_MUSIC_LOOP
        } else {
            0
        }) | (if self.decode_only {
            raw::BASS_MUSIC_DECODE
        } else {
            0
        }) | (if self.prescan {
            raw::BASS_MUSIC_PRESCAN
        } else {
            0
        })
    }
}

/// The stream flag word keeps every extra flag the caller gave, and holds
/// the bit of each option exactly when the option is enabled or the caller
/// gave that bit.
pub proof fn lemma_stream_flags_bits(options: SourceOptions)
    ensures
        stream_flags_of(options) & options.stream_flags == options.stream_flags,
        (stream_flags_of(options) & raw::BASS_SAMPLE_FLOAT != 0) == (options.float
            || options.stream_flags & raw::BASS_SAMPLE_FLOAT != 0),
        (stream_flags_of(options) & raw::BASS_SAMPLE_MONO != 0) == (options.mono
            || options.stream_flags & raw::BASS_SAMPLE_MONO != 0),
        (stream_flags_of(options) & raw::BASS_SAMPLE_LOOP != 0) == (options.looped
            || options.stream_flags & raw::BASS_SAMPLE_LOOP != 0),
        (stream_flags_of(options) & raw::BASS_STREAM_DECODE != 0) == (options.decode_only
            || options.stream_flags & raw::BASS_STREAM_DECODE != 0),
        (stream_flags_of(options) & raw::BASS_STREAM_PRESCAN != 0) == (options.prescan
            || options.stream_flags & raw::BASS_STREAM_PRESCAN != 0),
{
    let u = options.stream_flags;
    let a = flag_if(options.float, 0x100u32);
    let b = flag_if(options.mono, 2u32);
    let c = flag_if(options.looped, 4u32);
    let d = flag_if(options.decode_only, 0x200000u32);
    let e = flag_if(options.prescan, 0x20000u32);
    let f = u | a | b | c | d | e;
    assert(f & u == u && ((f & 0x100u32 != 0) == (a == 0x100u32 || u & 0x100u32 != 0)) && ((f & 2u32
        != 0) == (b == 2u32 || u & 2u32 != 0)) && ((f & 4u32 != 0) == (c == 4u32 || u & 4u32 != 0))
        && ((f & 0x200000u32 != 0) == (d == 0x200000u32 || u & 0x200000u32 != 0)) && ((f
        & 0x20000u32 != 0) == (e == 0x20000u32 || u & 0x20000u32 != 0))) by (bit_vector)
        requires
            f == u | a | b | c | d | e,
            a == 0 || a == 0x100u32,
            b == 0 || b == 2u32,
            c == 0 || c == 4u32,
            d == 0 || d == 0x200000u32,
            e == 0 || e == 0x20000u32,
    ;
}

/// The music flag word keeps every extra flag the caller gave, and holds
/// the bit of each option exactly when the option is enabled or the caller
/// gave that bit.
pub proof fn lemma_music_flags_bits(options: SourceOptions)
    ensures
        music_flags_of(options) & options.music_flags == options.music_flags,
        (music_flags_of(options) & raw::BASS_MUSIC_FLOAT != 0) == (options.float
            || options.music_flags & raw::BASS_MUSIC_FLOAT != 0),
        (music_flags_of(options) & raw::BASS_MUSIC_MONO != 0) == (options.mono
            || options.music_flags & raw::BASS_MUSIC_MONO != 0),
        (music_flags_of(options) & raw::BASS_MUSIC_LOOP != 0) == (options.looped
            || options.music_flags & raw::BASS_MUSIC_LOOP != 0),
        (music_flags_of(options) & raw::BASS_MUSIC_DECODE != 0) == (options.decode_only
            || options.music_flags & raw::BASS_MUSIC_DECODE != 0),
        (music_flags_of(options) & raw::BASS_MUSIC_PRESCAN != 0) == (options.prescan
            || options.music_flags & raw::BASS_MUSIC_PRESCAN != 0),
{
    let u = options.music_flags;
    let a = flag_if(options.float, 0x100u32);
    let b = flag_if(options.mono, 2u32);
    let c = flag_if(options.looped, 4u32);
    let d = flag_if(options.decode_only, 0x200000u32);
    let e = flag_if(options.prescan, 0x20000u32);
    let f = u | a | b | c | d | e;
    assert(f & u == u && ((f & 0x100u32 != 0) == (a == 0x100u32 || u & 0x100u32 != 0)) && ((f & 2u32
        != 0) == (b == 2u32 || u & 2u32 != 0)) && ((f & 4u32 != 0) == (c == 4u32 || u & 4u32 != 0))
        && ((f & 0x200000u32 != 0) == (d == 0x200000u32 || u & 0x200000u32 != 0)) && ((f
        & 0x20000u32 != 0) == (e == 0x20000u32 || u & 0x20000u32 != 0))) by (bit_vector)
        requires
            f == u | a | b | c | d | e,
            a == 0 || a == 0x100u32,
            b == 0 || b == 2u32,
            c == 0 || c == 4u32,
            d == 0 || d == 0x200000u32,
            e == 0 || e == 0x20000u32,
    ;
}

/// The stream flag word adds nothing to the extra flags the caller gave
/// beyond the float, mono, loop, decode and prescan bits.
pub proof fn lemma_stream_flags_nothing_else(options: SourceOptions)
    ensures
        stream_flags_of(options) & !(options.stream_flags | raw::BASS_SAMPLE_FLOAT
            | raw::BASS_SAMPLE_MONO | raw::BASS_SAMPLE_LOOP | raw::BASS_STREAM_DECODE
            | raw::BASS_STREAM_PRESCAN) == 0,
{
    let u = options.stream_flags;
    let a = flag_if(options.float, 0x100u32);
    let b = flag_if(options.mono, 2u32);
    let c = flag_if(options.looped, 4u32);
    let d = flag_if(options.decode_only, 0x200000u32);
    let e = flag_if(options.prescan, 0x20000u32);
    let f = u | a | b | c | d | e;
    assert(f & !(u | 0x100u32 | 2u32 | 4u32 | 0x200000u32 | 0x20000u32) == 0) by (bit_vector)
        requires
            f == u | a | b | c | d | e,
            a == 0 || a == 0x100u32,
            b == 0 || b == 2u32,
            c == 0 || c == 4u32,
            d == 0 || d == 0x200000u32,
            e == 0 || e == 0x20000u32,
    ;
}

/// The music flag word adds nothing to the extra flags the caller gave
/// beyond the float, mono, loop, decode and prescan bits.
pub proof fn lemma_music_flags_nothing_else(options: SourceOptions)
    ensures
        music_flags_of(options) & !(options.music_flags | raw::BASS_MUSIC_FLOAT
            | raw::BASS_MUSIC_MONO | raw::BASS_MUSIC_LOOP | raw::BASS_MUSIC_DECODE
            | raw::BASS_MUSIC_PRESCAN) == 0,
{
    let u = options.music_flags;
    let a = flag_if(options.float, 0x100u32);
    let b = flag_if(options.mono, 2u32);
    let c = flag_if(options.looped, 4u32);
    let d = flag_if(options.decode_only, 0x200000u32);
    let e = flag_if(options.prescan, 0x20000u32);
    let f = u | a | b | c | d | e;
    assert(f & !(u | 0x100u32 | 2u32 | 4u32 | 0x200000u32 | 0x20000u32) == 0) by (bit_vector)
        requires
            f == u | a | b | c | d | e,
            a == 0 || a == 0x100u32,
            b == 0 || b == 2u32,
            c == 0 || c == 4u32,
            d == 0 || d == 0x200000u32,
            e == 0 || e == 0x20000u32,
    ;
}

/// A progress report of a URL download.
#[derive(Debug, Clone)]
pub enum DownloadEvent {
    Data { length: usize },
    Status(String),
    Finished,
}

/// How a URL stream is opened. `C` is the type of the download callback;
/// the native layer uses a boxed `FnMut(DownloadEvent) + Send` closure.
pub struct UrlOptions<C> {
    pub offset: DWORD,
    pub float: bool,
    pub flags: DWORD,
    pub callback: Option<C>,
}

impl<C> Default for UrlOptions<C> {
    /// Float samples, blocking download with status reports, no callback.
    fn default() -> (options: Self)
        ensures
            options.offset == 0,
            options.float,
            options.flags == raw::BASS_STREAM_BLOCK | raw::BASS_STREAM_STATUS,
            options.callback is None,
    {
        UrlOptions {
            offset: 0,
            float: true,
            flags: raw::BASS_STREAM_BLOCK | raw::BASS_STREAM_STATUS,
            callback: None,
        }
    }
}

/// The flag word of a URL stream for a set of options.
pub open spec fn url_flags_of<C>(options: UrlOptions<C>) -> u32 {
    options.flags | flag_if(options.float, raw::BASS_SAMPLE_FLOAT)
}

impl<C> UrlOptions<C> {
    /// The flags handed to `BASS_StreamCreateURL`: the given flags, with
    /// float samples added when requested.
    pub fn stream_flags(&self) -> (flags: DWORD)
        ensures
            flags == url_flags_of(*self),
    {
        self.flags | (if self.float {
            raw::BASS_SAMPLE_FLOAT
        } else {
            0
        })
    }
}

/// The URL flag word keeps every flag the caller gave, holds the float bit
/// exactly when float samples are requested or the caller gave that bit,
/// and holds no other bit.
pub proof fn lemma_url_flags_bits<C>(options: UrlOptions<C>)
    ensures
        url_flags_of(options) & options.flags == options.flags,
        (url_flags_of(options) & raw::BASS_SAMPLE_FLOAT != 0) == (options.float || options.flags
            & raw::BASS_SAMPLE_FLOAT != 0),
        url_flags_of(options) & !(options.flags | raw::BASS_SAMPLE_FLOAT) == 0,
{
    let u = options.flags;
    let a = flag_if(options.float, 0x100u32);
    let f = u | a;
    assert(f & u == u && ((f & 0x100u32 != 0) == (a == 0x100u32 || u & 0x100u32 != 0)) && f & !(u
        | 0x100u32) == 0) by (bit_vector)
        requires
            f == u | a,
            a == 0 || a == 0x100u32,
    ;
}


/// What a download notification from BASS carries: the end of the
/// download, a status text to read from the buffer, or a block of data.
#[derive(Debug, Clone, Copy, PartialEq, Eq, Structural)]
pub enum DownloadNotice {
    Finished,
    StatusText,
    Data { length: usize },
}

/// Classifies a download notification: no buffer marks the end of the
/// download, an empty buffer holds a NUL-terminated status text, any other
/// buffer holds `length` bytes of data.
pub fn download_notice(buffer_is_null: bool, length: u32) -> (notice: DownloadNotice)
    ensures
        buffer_is_null ==> notice == DownloadNotice::Finished,
        !buffer_is_null && length == 0 ==> notice == DownloadNotice::StatusText,
        !buffer_is_null && length != 0 ==> notice == (DownloadNotice::Data { length: length as usize }),
{
    if buffer_is_null {
        DownloadNotice::Finished
    } else if length == 0 {
        DownloadNotice::StatusText
    } else {
        DownloadNotice::Data { length: length as usize }
    }
}

/// How a channel was created.
#[derive(Debug, Clone, Copy, PartialEq, Eq, Structural)]
pub enum ChannelKind {
    Stream,
    Music,
    Url,
    Derived,
}

/// The next step of opening a local file: a channel has been created, the
/// file should be tried as music, or both attempts failed.
#[derive(Debug, Clone, Copy, PartialEq, Eq, Structural)]
pub enum FileLoadStep {
    Opened { handle: u32, kind: ChannelKind },
    TryMusic,
    Failed,
}

/// The step after `BASS_StreamCreateFile` answered `stream`: a nonzero
/// handle is the opened stream, zero means the file is tried as music.
pub fn after_stream_attempt(stream: u32) -> (step: FileLoadStep)
    ensures
        stream != 0 ==> step == (FileLoadStep::Opened { handle: stream, kind: ChannelKind::Stream }),
        stream == 0 ==> step == FileLoadStep::TryMusic,
{
    if stream != 0 {
        FileLoadStep::Opened { handle: stream, kind: ChannelKind::Stream }
    } else {
        FileLoadStep::TryMusic
    }
}

/// The step after `BASS_MusicLoad` answered `music`: a nonzero handle is the
/// opened music, zero means the file could not be opened at all.
pub fn after_music_attempt(music: u32) -> (step: FileLoadStep)
    ensures
        music != 0 ==> step == (FileLoadStep::Opened { handle: music, kind: ChannelKind::Music }),
        music == 0 ==> step == FileLoadStep::Failed,
{
    if music != 0 {
        FileLoadStep::Opened { handle: music, kind: ChannelKind::Music }
    } else {
        FileLoadStep::Failed
    }
}

/// The playback state of a channel.
#[derive(Debug, Clone, Copy, PartialEq, Eq, Structural)]
pub enum ActiveState {
    Stopped,
    Playing,
    Stalled,
    Paused,
    PausedDevice,
}

/// The playback state that a `BASS_ChannelIsActive` result names.
pub open spec fn active_state_of(value: u32) -> ActiveState {
    if value == raw::BASS_ACTIVE_PLAYING {
        ActiveState::Playing
    } else if value == raw::BASS_ACTIVE_STALLED {
        ActiveState::Stalled
    } else if value == raw::BASS_ACTIVE_PAUSED {
        ActiveState::Paused
    } else if value == raw::BASS_ACTIVE_PAUSED_DEVICE {
        ActiveState::PausedDevice
    } else {
        ActiveState::Stopped
    }
}

impl ActiveState {
    /// The playback state reported by `BASS_ChannelIsActive`; any value
    /// other than playing, stalled or paused counts as stopped.
    pub fn from_raw(value: DWORD) -> (state: Self)
        ensures
            state == active_state_of(value),
    {
        if value == raw::BASS_ACTIVE_PLAYING {
            ActiveState::Playing
        } else if value == raw::BASS_ACTIVE_STALLED {
            ActiveState::Stalled
        } else if value == raw::BASS_ACTIVE_PAUSED {
            ActiveState::Paused
        } else if value == raw::BASS_ACTIVE_PAUSED_DEVICE {
            ActiveState::PausedDevice
        } else {
            ActiveState::Stopped
        }
    }
}

/// Information about a channel, from `BASS_ChannelGetInfo`.
#[derive(Debug, Clone)]
pub struct ChannelInfo {
    pub frequency: u32,
    pub channels: u32,
    pub flags: DWORD,
    pub channel_type: DWORD,
    pub original_resolution: DWORD,
    pub plugin: Option<u32>,
    pub filename: Option<String>,
}

/// A handle that BASS reports, where zero means none.
pub fn nonzero_handle(handle: u32) -> (result: Option<u32>)
    ensures
        handle == 0 ==> result is None,
        handle != 0 ==> result == Some(handle),
{
    if handle != 0 {
        Some(handle)
    } else {
        None
    }
}

/// The tag formats that `BASS_ChannelGetTags` can return.
#[derive(Debug, Clone, Copy, PartialEq, Eq, Structural)]
pub enum TagKind {
    Id3,
    Id3v2,
    Ogg,
    Http,
    Icy,
    Meta,
    Ape,
    Mp4,
    Wma,
    Vendor,
    MediaFoundation,
}

/// The `BASS_TAG_*` value of a tag format.
pub open spec fn tag_kind_value(kind: TagKind) -> u32 {
    match kind {
        TagKind::Id3 => raw::BASS_TAG_ID3,
        TagKind::Id3v2 => raw::BASS_TAG_ID3V2,
        TagKind::Ogg => raw::BASS_TAG_OGG,
        TagKind::Http => raw::BASS_TAG_HTTP,
        TagKind::Icy => raw::BASS_TAG_ICY,
        TagKind::Meta => raw::BASS_TAG_META,
        TagKind::Ape => raw::BASS_TAG_APE,
        TagKind::Mp4 => raw::BASS_TAG_MP4,
        TagKind::Wma => raw::BASS_TAG_WMA,
        TagKind::Vendor => raw::BASS_TAG_VENDOR,
        TagKind::MediaFoundation => raw::BASS_TAG_MF,
    }
}

impl TagKind {
    /// The `BASS_TAG_*` value of this format.
    pub fn raw(self) -> (value: DWORD)
        ensures
            value == tag_kind_value(self),
    {
        match self {
            TagKind::Id3 => raw::BASS_TAG_ID3,
            TagKind::Id3v2 => raw::BASS_TAG_ID3V2,
            TagKind::Ogg => raw::BASS_TAG_OGG,
            TagKind::Http => raw::BASS_TAG_HTTP,
            TagKind::Icy => raw::BASS_TAG_ICY,
            TagKind::Meta => raw::BASS_TAG_META,
            TagKind::Ape => raw::BASS_TAG_APE,
            TagKind::Mp4 => raw::BASS_TAG_MP4,
            TagKind::Wma => raw::BASS_TAG_WMA,
            TagKind::Vendor => raw::BASS_TAG_VENDOR,
            TagKind::MediaFoundation => raw::BASS_TAG_MF,
        }
    }
}

/// The tag format that a `BASS_TAG_*` value names in the BASS header, if
/// any.
pub open spec fn tag_kind_named(value: u32) -> Option<TagKind> {
    if value == raw::BASS_TAG_ID3 {
        Some(TagKind::Id3)
    } else if value == raw::BASS_TAG_ID3V2 {
        Some(TagKind::Id3v2)
    } else if value == raw::BASS_TAG_OGG {
        Some(TagKind::Ogg)
    } else if value == raw::BASS_TAG_HTTP {
        Some(TagKind::Http)
    } else if value == raw::BASS_TAG_ICY {
        Some(TagKind::Icy)
    } else if value == raw::BASS_TAG_META {
        Some(TagKind::Meta)
    } else if value == raw::BASS_TAG_APE {
        Some(TagKind::Ape)
    } else if value == raw::BASS_TAG_MP4 {
        Some(TagKind::Mp4)
    } else if value == raw::BASS_TAG_WMA {
        Some(TagKind::Wma)
    } else if value == raw::BASS_TAG_VENDOR {
        Some(TagKind::Vendor)
    } else if value == raw::BASS_TAG_MF {
        Some(TagKind::MediaFoundation)
    } else {
        None
    }
}

/// Each tag format asks BASS for the value that the header names after it
/// (ID3v2 for `Id3v2`, APE for `Ape`, ...), and every value the header names
/// is asked for by exactly that format.
pub proof fn lemma_tag_kind_value_named(kind: TagKind, value: u32)
    ensures
        tag_kind_named(tag_kind_value(kind)) == Some(kind),
        tag_kind_named(value) == Some(kind) ==> tag_kind_value(kind) == value,
{
}

/// Distinct tag formats ask BASS for distinct tag values.
pub proof fn lemma_tag_kind_values_distinct(a: TagKind, b: TagKind)
    requires
        tag_kind_value(a) == tag_kind_value(b),
    ensures
        a == b,
{
}

/// The events a sync can be set on.
#[derive(Debug, Clone, Copy, PartialEq, Eq, Structural)]
pub enum SyncKind {
    Position(QWORD),
    End,
    Meta,
    Stall,
    Download,
    Free,
    OggChange,
    Other { kind: DWORD, parameter: QWORD },
}

/// The sync type and parameter handed to `BASS_ChannelSetSync`.
pub open spec fn sync_kind_value(kind: SyncKind) -> (DWORD, QWORD) {
    match kind {
        SyncKind::Position(p) => (raw::BASS_SYNC_POS, p),
        SyncKind::End => (raw::BASS_SYNC_END, 0),
        SyncKind::Meta => (raw::BASS_SYNC_META, 0),
        SyncKind::Stall => (raw::BASS_SYNC_STALL, 0),
        SyncKind::Download => (raw::BASS_SYNC_DOWNLOAD, 0),
        SyncKind::Free => (raw::BASS_SYNC_FREE, 0),
        SyncKind::OggChange => (raw::BASS_SYNC_OGG_CHANGE, 0),
        SyncKind::Other { kind, parameter } => (kind, parameter),
    }
}

impl SyncKind {
    /// The sync type and its parameter: the byte position for a position
    /// sync, zero for the named events, and both values as given for
    /// `Other`.
    pub fn raw(&self) -> (value: (DWORD, QWORD))
        ensures
            value == sync_kind_value(*self),
    {
        match *self {
            SyncKind::Position(p) => (raw::BASS_SYNC_POS, p),
            SyncKind::End => (raw::BASS_SYNC_END, 0),
            SyncKind::Meta => (raw::BASS_SYNC_META, 0),
            SyncKind::Stall => (raw::BASS_SYNC_STALL, 0),
            SyncKind::Download => (raw::BASS_SYNC_DOWNLOAD, 0),
            SyncKind::Free => (raw::BASS_SYNC_FREE, 0),
            SyncKind::OggChange => (raw::BASS_SYNC_OGG_CHANGE, 0),
            SyncKind::Other { kind, parameter } => (kind, parameter),
        }
    }
}

/// The sync that a `BASS_SYNC_*` type and its parameter name in the BASS
/// header; a type the header does not name is an `Other` sync.
pub open spec fn sync_kind_named(kind: DWORD, parameter: QWORD) -> SyncKind {
    if kind == raw::BASS_SYNC_POS {
        SyncKind::Position(parameter)
    } else if kind == raw::BASS_SYNC_END && parameter == 0 {
        SyncKind::End
    } else if kind == raw::BASS_SYNC_META && parameter == 0 {
        SyncKind::Meta
    } else if kind == raw::BASS_SYNC_STALL && parameter == 0 {
        SyncKind::Stall
    } else if kind == raw::BASS_SYNC_DOWNLOAD && parameter == 0 {
        SyncKind::Download
    } else if kind == raw::BASS_SYNC_FREE && parameter == 0 {
        SyncKind::Free
    } else if kind == raw::BASS_SYNC_OGG_CHANGE && parameter == 0 {
        SyncKind::OggChange
    } else {
        SyncKind::Other { kind, parameter }
    }
}

/// Each named sync is set with the type that the header names after it
/// (END for `End`, META for `Meta`, ...) and a zero parameter, a position
/// sync with the POS type and its byte position, and an `Other` sync with
/// exactly the type and parameter it holds.
pub proof fn lemma_sync_kind_value_named(kind: SyncKind)
    ensures
        !(kind is Other) ==> sync_kind_named(sync_kind_value(kind).0, sync_kind_value(kind).1)
            == kind,
        kind matches SyncKind::Other { kind: k, parameter: p } ==> sync_kind_value(kind) == (k, p),
{
}

/// A sync event delivered to a sync callback.
#[derive(Debug, Clone, Copy)]
pub struct SyncEvent {
    pub sync_handle: u32,
    pub channel: u32,
    pub data: u32,
}

/// Information about a loaded plugin.
#[derive(Debug, Clone)]
pub struct PluginInfo {
    pub version: DWORD,
    pub formats: Vec<PluginFormat>,
}

/// Whether `describe`, asked for format `index`, can give `format`.
pub open spec fn format_reported<F: Fn(u32) -> PluginFormat>(
    describe: F,
    index: u32,
    format: PluginFormat,
) -> bool {
    call_ensures(describe, (index,), format)
}

impl PluginInfo {
    /// The information of a plugin of version `version` that supports
    /// `count` formats, format `i` as `describe` gives it.
    pub fn collect<F: Fn(u32) -> PluginFormat>(version: DWORD, count: u32, describe: F) -> (info:
        Self)
        requires
            forall|index: u32| index < count ==> call_requires(describe, (index,)),
        ensures
            info.version == version,
            info.formats.len() == count,
            forall|k: int|
                #![trigger info.formats@[k]]
                0 <= k < count ==> format_reported(describe, k as u32, info.formats@[k]),
    {
        let mut formats: Vec<PluginFormat> = Vec::new();
        let mut index: u32 = 0;
        while index < count
            invariant
                index <= count,
                formats.len() == index,
                forall|i: u32| i < count ==> call_requires(describe, (i,)),
                forall|k: int|
                    #![trigger formats@[k]]
                    0 <= k < index ==> format_reported(describe, k as u32, formats@[k]),
            decreases count - index,
        {
            let format = describe(index);
            let ghost old_formats = formats@;
            formats.push(format);
            assert forall|k: int|
                #![trigger formats@[k]]
                0 <= k < index + 1 implies format_reported(describe, k as u32, formats@[k]) by {
                if k < index {
                    assert(formats@[k] == old_formats[k]);
                }
            }
            index = index + 1;
        }
        PluginInfo { version, formats }
    }
}

/// A file format supported by a plugin.
#[derive(Debug, Clone)]
pub struct PluginFormat {
    pub channel_type: DWORD,
    pub name: String,
    pub extensions: String,
}

/// A position or size reported by BASS, where the all-ones value means
/// that it is not available.
pub fn known_value(value: QWORD) -> (result: Option<QWORD>)
    ensures
        value == u64::MAX ==> result is None,
        value != u64::MAX ==> result == Some(value),
{
    if value != u64::MAX {
        Some(value)
    } else {
        None
    }
}

/// The buffered percentage of a URL stream, from the percentage still
/// missing that `BASS_FILEPOS_BUFFERING` reports (capped at 100).
pub fn buffering_percent(missing: QWORD) -> (percent: u8)
    ensures
        missing <= 100 ==> percent == 100 - missing,
        missing > 100 ==> percent == 0,
{
    let capped: u8 = if missing < 100 {
        missing as u8
    } else {
        100
    };
    100 - capped
}

/// The `BASS_DATA_FFT*` flag for an FFT size, of which 256, 512, 1024,
/// 2048, 4096 and 8192 are accepted.
pub open spec fn fft_flag_of(fft_size: usize) -> Option<u32> {
    if fft_size == 256 {
        Some(raw::BASS_DATA_FFT256)
    } else if fft_size == 512 {
        Some(raw::BASS_DATA_FFT512)
    } else if fft_size == 1024 {
        Some(raw::BASS_DATA_FFT1024)
    } else if fft_size == 2048 {
        Some(raw::BASS_DATA_FFT2048)
    } else if fft_size == 4096 {
        Some(raw::BASS_DATA_FFT4096)
    } else if fft_size == 8192 {
        Some(raw::BASS_DATA_FFT8192)
    } else {
        None
    }
}

/// The `BASS_DATA_FFT*` flag for an FFT size, or an invalid-input error for
/// a size BASS does not offer.
pub fn fft_flag(fft_size: usize) -> (result: Result<DWORD>)
    ensures
        fft_flag_of(fft_size) is Some ==> result == Ok::<DWORD, BassError>(
            fft_flag_of(fft_size).unwrap(),
        ),
        fft_flag_of(fft_size) is None ==> (result matches Err(BassError::InvalidInput { kind, message })
            && kind@ == "FFT size"@ && message@
            == "expected one of 256, 512, 1024, 2048, 4096, or 8192"@),
{
    if fft_size == 256 {
        Ok(raw::BASS_DATA_FFT256)
    } else if fft_size == 512 {
        Ok(raw::BASS_DATA_FFT512)
    } else if fft_size == 1024 {
        Ok(raw::BASS_DATA_FFT1024)
    } else if fft_size == 2048 {
        Ok(raw::BASS_DATA_FFT2048)
    } else if fft_size == 4096 {
        Ok(raw::BASS_DATA_FFT4096)
    } else if fft_size == 8192 {
        Ok(raw::BASS_DATA_FFT8192)
    } else {
        Err(
            BassError::InvalidInput {
                kind: "FFT size",
                message: String::from_str("expected one of 256, 512, 1024, 2048, 4096, or 8192"),
            },
        )
    }
}

/// The number of samples of the FFT that the flag `step` places after
/// `BASS_DATA_FFT256` asks for: 256, doubled once per step.
pub open spec fn fft_samples(step: nat) -> nat
    decreases step,
{
    if step == 0 {
        256
    } else {
        2 * fft_samples((step - 1) as nat)
    }
}

/// The FFT flag asks BASS for an FFT of exactly the requested size: an
/// accepted size `n` gets the flag `BASS_DATA_FFT256 + k` with
/// `n == 256 * 2^k`, and the accepted sizes are exactly 256 doubled up to
/// five times.
pub proof fn lemma_fft_flag_size(fft_size: usize, step: nat)
    ensures
        fft_flag_of(fft_size) matches Some(flag) ==> raw::BASS_DATA_FFT256 <= flag
            <= raw::BASS_DATA_FFT8192 && fft_samples((flag - raw::BASS_DATA_FFT256) as nat)
            == fft_size,
        step <= 5 && fft_size == fft_samples(step) ==> fft_flag_of(fft_size) == Some(
            (raw::BASS_DATA_FFT256 + step) as u32,
        ),
{
    reveal_with_fuel(fft_samples, 6);
}

/// The number of values of an FFT of `fft_size` samples: half the size, and
/// one more.
pub fn fft_capacity(fft_size: usize) -> (capacity: usize)
    ensures
        capacity == fft_size / 2 + 1,
{
    fft_size / 2 + 1
}

/// The number of FFT values kept after `BASS_ChannelGetData` answered with
/// `read` bytes for a buffer of `capacity` floats: none when BASS reported
/// an error (the all-ones value), otherwise the floats written, at most the
/// buffer.
pub fn fft_values_kept(read: DWORD, capacity: usize) -> (kept: Option<usize>)
    ensures
        read == u32::MAX ==> kept is None,
        read != u32::MAX ==> kept == Some(
            if (read / 4) as int <= capacity { (read / 4) as usize } else { capacity },
        ),
{
    if read == u32::MAX {
        return None;
    }
    let written = (read / 4) as usize;
    if written <= capacity {
        Some(written)
    } else {
        Some(capacity)
    }
}

/// The flag word of a `BASS_ChannelGetData` request for `bytes` bytes:
/// the length in the low bits, truncated to 32 bits, combined with `flags`.
pub fn data_request(bytes: usize, flags: DWORD) -> (request: DWORD)
    ensures
        request == (bytes as u32) | flags,
{
    (bytes as u32) | flags
}

/// The number of bytes kept after `BASS_ChannelGetData` answered a request
/// for `requested` bytes with `read`: none when BASS reported an error
/// (the all-ones value), otherwise the bytes read, at most those requested.
pub fn data_bytes_kept(read: DWORD, requested: usize) -> (kept: Option<usize>)
    ensures
        read == u32::MAX ==> kept is None,
        read != u32::MAX ==> kept == Some(
            if read as int <= requested { read as usize } else { requested },
        ),
{
    if read == u32::MAX {
        None
    } else if (read as usize) <= requested {
        Some(read as usize)
    } else {
        Some(requested)
    }
}

/// The number of level values to ask for: one per channel, at least one.
pub fn level_channel_count(channels: u32) -> (count: usize)
    ensures
        count == if channels >= 1 { channels as int } else { 1 },
{
    if channels >= 1 {
        channels as usize
    } else {
        1
    }
}

} // verus!
