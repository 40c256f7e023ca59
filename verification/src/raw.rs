//! Integer types, constants and plain-data structures of the BASS 2.4 and
//! BASS_FX 2.4 C headers.
//!
//! Only the items that carry plain integer data live here; the structures
//! that hold floating-point parameters or native pointers belong to the
//! native binding layer.
#![allow(non_camel_case_types, non_snake_case, non_upper_case_globals)]

use vstd::prelude::*;

verus! {

pub type BYTE = u8;
pub type WORD = u16;
pub type DWORD = u32;
pub type QWORD = u64;
pub type BOOL = i32;
pub type HMUSIC = DWORD;
pub type HSAMPLE = DWORD;
pub type HCHANNEL = DWORD;
pub type HSTREAM = DWORD;
pub type HRECORD = DWORD;
pub type HSYNC = DWORD;
pub type HDSP = DWORD;
pub type HFX = DWORD;
pub type HPLUGIN = DWORD;

pub const BASSVERSION: WORD = 0x204;

pub const BASS_OK: i32 = 0;
pub const BASS_ERROR_MEM: i32 = 1;
pub const BASS_ERROR_FILEOPEN: i32 = 2;
pub const BASS_ERROR_DRIVER: i32 = 3;
pub const BASS_ERROR_BUFLOST: i32 = 4;
pub const BASS_ERROR_HANDLE: i32 = 5;
pub const BASS_ERROR_FORMAT: i32 = 6;
pub const BASS_ERROR_POSITION: i32 = 7;
pub const BASS_ERROR_INIT: i32 = 8;
pub const BASS_ERROR_START: i32 = 9;
pub const BASS_ERROR_SSL: i32 = 10;
pub const BASS_ERROR_REINIT: i32 = 11;
pub const BASS_ERROR_TRACK: i32 = 13;
pub const BASS_ERROR_ALREADY: i32 = 14;
pub const BASS_ERROR_NOTAUDIO: i32 = 17;
pub const BASS_ERROR_NOCHAN: i32 = 18;
pub const BASS_ERROR_ILLTYPE: i32 = 19;
pub const BASS_ERROR_ILLPARAM: i32 = 20;
pub const BASS_ERROR_NO3D: i32 = 21;
pub const BASS_ERROR_NOEAX: i32 = 22;
pub const BASS_ERROR_DEVICE: i32 = 23;
pub const BASS_ERROR_NOPLAY: i32 = 24;
pub const BASS_ERROR_FREQ: i32 = 25;
pub const BASS_ERROR_NOTFILE: i32 = 27;
pub const BASS_ERROR_NOHW: i32 = 29;
pub const BASS_ERROR_EMPTY: i32 = 31;
pub const BASS_ERROR_NONET: i32 = 32;
pub const BASS_ERROR_CREATE: i32 = 33;
pub const BASS_ERROR_NOFX: i32 = 34;
pub const BASS_ERROR_NOTAVAIL: i32 = 37;
pub const BASS_ERROR_DECODE: i32 = 38;
pub const BASS_ERROR_DX: i32 = 39;
pub const BASS_ERROR_TIMEOUT: i32 = 40;
pub const BASS_ERROR_FILEFORM: i32 = 41;
pub const BASS_ERROR_SPEAKER: i32 = 42;
pub const BASS_ERROR_VERSION: i32 = 43;
pub const BASS_ERROR_CODEC: i32 = 44;
pub const BASS_ERROR_ENDED: i32 = 45;
pub const BASS_ERROR_BUSY: i32 = 46;
pub const BASS_ERROR_UNSTREAMABLE: i32 = 47;
pub const BASS_ERROR_PROTOCOL: i32 = 48;
pub const BASS_ERROR_DENIED: i32 = 49;
pub const BASS_ERROR_FREEING: i32 = 50;
pub const BASS_ERROR_CANCEL: i32 = 51;

pub const BASS_CONFIG_BUFFER: DWORD = 0;
pub const BASS_CONFIG_UPDATEPERIOD: DWORD = 1;
pub const BASS_CONFIG_GVOL_SAMPLE: DWORD = 4;
pub const BASS_CONFIG_GVOL_STREAM: DWORD = 5;
pub const BASS_CONFIG_GVOL_MUSIC: DWORD = 6;
pub const BASS_CONFIG_CURVE_VOL: DWORD = 7;
pub const BASS_CONFIG_CURVE_PAN: DWORD = 8;
pub const BASS_CONFIG_FLOATDSP: DWORD = 9;
pub const BASS_CONFIG_3DALGORITHM: DWORD = 10;
pub const BASS_CONFIG_NET_TIMEOUT: DWORD = 11;
pub const BASS_CONFIG_NET_BUFFER: DWORD = 12;
pub const BASS_CONFIG_PAUSE_NOPLAY: DWORD = 13;
pub const BASS_CONFIG_NET_PREBUF: DWORD = 15;
pub const BASS_CONFIG_NET_PASSIVE: DWORD = 18;
pub const BASS_CONFIG_REC_BUFFER: DWORD = 19;
pub const BASS_CONFIG_NET_PLAYLIST: DWORD = 21;
pub const BASS_CONFIG_MUSIC_VIRTUAL: DWORD = 22;
pub const BASS_CONFIG_VERIFY: DWORD = 23;
pub const BASS_CONFIG_UPDATETHREADS: DWORD = 24;
pub const BASS_CONFIG_DEV_BUFFER: DWORD = 27;
pub const BASS_CONFIG_REC_LOOPBACK: DWORD = 28;
pub const BASS_CONFIG_DEV_DEFAULT: DWORD = 36;
pub const BASS_CONFIG_NET_READTIMEOUT: DWORD = 37;
pub const BASS_CONFIG_VISTA_SPEAKERS: DWORD = 38;
pub const BASS_CONFIG_MF_DISABLE: DWORD = 40;
pub const BASS_CONFIG_HANDLES: DWORD = 41;
pub const BASS_CONFIG_UNICODE: DWORD = 42;
pub const BASS_CONFIG_SRC: DWORD = 43;
pub const BASS_CONFIG_SRC_SAMPLE: DWORD = 44;
pub const BASS_CONFIG_ASYNCFILE_BUFFER: DWORD = 45;
pub const BASS_CONFIG_OGG_PRESCAN: DWORD = 47;
pub const BASS_CONFIG_VIDEO: DWORD = 48;
pub const BASS_CONFIG_DEV_NONSTOP: DWORD = 50;
pub const BASS_CONFIG_VERIFY_NET: DWORD = 52;
pub const BASS_CONFIG_DEV_PERIOD: DWORD = 53;
pub const BASS_CONFIG_FLOAT: DWORD = 54;
pub const BASS_CONFIG_NET_SEEK: DWORD = 56;
pub const BASS_CONFIG_NET_PLAYLIST_DEPTH: DWORD = 59;
pub const BASS_CONFIG_NET_PREBUF_WAIT: DWORD = 60;
pub const BASS_CONFIG_WASAPI_PERSIST: DWORD = 65;
pub const BASS_CONFIG_REC_WASAPI: DWORD = 66;
pub const BASS_CONFIG_SAMPLE_ONEHANDLE: DWORD = 69;
pub const BASS_CONFIG_NET_META: DWORD = 71;
pub const BASS_CONFIG_NET_RESTRATE: DWORD = 72;
pub const BASS_CONFIG_REC_DEFAULT: DWORD = 73;
pub const BASS_CONFIG_NORAMP: DWORD = 74;
pub const BASS_CONFIG_NOSOUND_MAXDELAY: DWORD = 76;
pub const BASS_CONFIG_DOWNMIX: DWORD = 80;
pub const BASS_CONFIG_NET_AGENT: DWORD = 16;
pub const BASS_CONFIG_NET_PROXY: DWORD = 17;
pub const BASS_CONFIG_DEV_NOTIFY: DWORD = 33;
pub const BASS_CONFIG_FILENAME: DWORD = 75;
pub const BASS_CONFIG_THREAD: DWORD = 0x4000_0000;

pub const BASS_DEVICE_MONO: DWORD = 2;
pub const BASS_DEVICE_REINIT: DWORD = 0x80;
pub const BASS_DEVICE_SPEAKERS: DWORD = 0x800;
pub const BASS_DEVICE_NOSPEAKER: DWORD = 0x1000;
pub const BASS_DEVICE_FREQ: DWORD = 0x4000;
pub const BASS_DEVICE_STEREO: DWORD = 0x8000;
pub const BASS_DEVICE_HOG: DWORD = 0x10000;
pub const BASS_DEVICE_DSOUND: DWORD = 0x40000;
pub const BASS_DEVICE_SOFTWARE: DWORD = 0x80000;

pub const BASS_DEVICE_ENABLED: DWORD = 1;
pub const BASS_DEVICE_DEFAULT: DWORD = 2;
pub const BASS_DEVICE_INIT: DWORD = 4;
pub const BASS_DEVICE_LOOPBACK: DWORD = 8;
pub const BASS_DEVICE_DEFAULTCOM: DWORD = 0x80;
pub const BASS_DEVICE_TYPE_MASK: DWORD = 0xff00_0000;
pub const BASS_DEVICE_TYPE_NETWORK: DWORD = 0x0100_0000;
pub const BASS_DEVICE_TYPE_SPEAKERS: DWORD = 0x0200_0000;
pub const BASS_DEVICE_TYPE_LINE: DWORD = 0x0300_0000;
pub const BASS_DEVICE_TYPE_HEADPHONES: DWORD = 0x0400_0000;
pub const BASS_DEVICE_TYPE_MICROPHONE: DWORD = 0x0500_0000;
pub const BASS_DEVICE_TYPE_HEADSET: DWORD = 0x0600_0000;
pub const BASS_DEVICE_TYPE_HANDSET: DWORD = 0x0700_0000;
pub const BASS_DEVICE_TYPE_DIGITAL: DWORD = 0x0800_0000;
pub const BASS_DEVICE_TYPE_SPDIF: DWORD = 0x0900_0000;
pub const BASS_DEVICE_TYPE_HDMI: DWORD = 0x0a00_0000;
pub const BASS_DEVICE_TYPE_DISPLAYPORT: DWORD = 0x4000_0000;

pub const BASS_FILE_NAME: DWORD = 0;
pub const BASS_FILE_MEM: DWORD = 1;
pub const BASS_FILE_MEMCOPY: DWORD = 3;
pub const BASS_FILE_HANDLE: DWORD = 4;

pub const BASS_SAMPLE_MONO: DWORD = 2;
pub const BASS_SAMPLE_LOOP: DWORD = 4;
pub const BASS_SAMPLE_FLOAT: DWORD = 0x100;
pub const BASS_SAMPLE_FX: DWORD = 0x80;
pub const BASS_STREAM_PRESCAN: DWORD = 0x20000;
pub const BASS_STREAM_AUTOFREE: DWORD = 0x40000;
pub const BASS_STREAM_RESTRATE: DWORD = 0x80000;
pub const BASS_STREAM_BLOCK: DWORD = 0x100000;
pub const BASS_STREAM_DECODE: DWORD = 0x200000;
pub const BASS_STREAM_STATUS: DWORD = 0x800000;
pub const BASS_MUSIC_FLOAT: DWORD = BASS_SAMPLE_FLOAT;
pub const BASS_MUSIC_MONO: DWORD = BASS_SAMPLE_MONO;
pub const BASS_MUSIC_LOOP: DWORD = BASS_SAMPLE_LOOP;
pub const BASS_MUSIC_DECODE: DWORD = BASS_STREAM_DECODE;
pub const BASS_MUSIC_PRESCAN: DWORD = BASS_STREAM_PRESCAN;
pub const BASS_MUSIC_RAMP: DWORD = 0x200;
pub const BASS_MUSIC_RAMPS: DWORD = 0x400;
pub const BASS_MUSIC_SURROUND: DWORD = 0x800;
pub const BASS_MUSIC_SURROUND2: DWORD = 0x1000;
pub const BASS_MUSIC_SINCINTER: DWORD = 0x800000;
pub const BASS_MUSIC_AUTOFREE: DWORD = BASS_STREAM_AUTOFREE;

pub const BASS_UNICODE: DWORD = 0x8000_0000;
pub const BASS_FX_FREESOURCE: DWORD = 0x10000;

pub const BASS_FILEPOS_CURRENT: DWORD = 0;
pub const BASS_FILEPOS_DOWNLOAD: DWORD = 1;
pub const BASS_FILEPOS_END: DWORD = 2;
pub const BASS_FILEPOS_START: DWORD = 3;
pub const BASS_FILEPOS_CONNECTED: DWORD = 4;
pub const BASS_FILEPOS_BUFFER: DWORD = 5;
pub const BASS_FILEPOS_SOCKET: DWORD = 6;
pub const BASS_FILEPOS_ASYNCBUF: DWORD = 7;
pub const BASS_FILEPOS_SIZE: DWORD = 8;
pub const BASS_FILEPOS_BUFFERING: DWORD = 9;
pub const BASS_FILEPOS_AVAILABLE: DWORD = 10;

pub const BASS_SYNC_POS: DWORD = 0;
pub const BASS_SYNC_END: DWORD = 2;
pub const BASS_SYNC_META: DWORD = 4;
pub const BASS_SYNC_STALL: DWORD = 6;
pub const BASS_SYNC_DOWNLOAD: DWORD = 7;
pub const BASS_SYNC_FREE: DWORD = 8;
pub const BASS_SYNC_OGG_CHANGE: DWORD = 12;
pub const BASS_SYNC_THREAD: DWORD = 0x2000_0000;
pub const BASS_SYNC_MIXTIME: DWORD = 0x4000_0000;
pub const BASS_SYNC_ONETIME: DWORD = 0x8000_0000;

pub const BASS_ACTIVE_STOPPED: DWORD = 0;
pub const BASS_ACTIVE_PLAYING: DWORD = 1;
pub const BASS_ACTIVE_STALLED: DWORD = 2;
pub const BASS_ACTIVE_PAUSED: DWORD = 3;
pub const BASS_ACTIVE_PAUSED_DEVICE: DWORD = 4;

pub const BASS_ATTRIB_FREQ: DWORD = 1;
pub const BASS_ATTRIB_VOL: DWORD = 2;
pub const BASS_ATTRIB_PAN: DWORD = 3;
pub const BASS_ATTRIB_BUFFER: DWORD = 13;
pub const BASS_ATTRIB_DOWNLOADPROC: DWORD = 18;
pub const BASS_ATTRIB_DOWNMIX: DWORD = 21;
pub const BASS_ATTRIB_TEMPO: DWORD = 0x10000;
pub const BASS_ATTRIB_TEMPO_PITCH: DWORD = 0x10001;
pub const BASS_ATTRIB_TEMPO_FREQ: DWORD = 0x10002;
pub const BASS_ATTRIB_REVERSE_DIR: DWORD = 0x11000;

pub const BASS_POS_BYTE: DWORD = 0;
pub const BASS_POS_MUSIC_ORDER: DWORD = 1;
pub const BASS_POS_DSP: DWORD = 0x800000;
pub const BASS_POS_FLUSH: DWORD = 0x1000000;
pub const BASS_POS_RELATIVE: DWORD = 0x4000000;
pub const BASS_POS_INEXACT: DWORD = 0x8000000;
pub const BASS_POS_DECODE: DWORD = 0x10000000;

pub const BASS_DATA_AVAILABLE: DWORD = 0;
pub const BASS_DATA_FLOAT: DWORD = 0x4000_0000;
pub const BASS_DATA_FFT256: DWORD = 0x8000_0000;
pub const BASS_DATA_FFT512: DWORD = 0x8000_0001;
pub const BASS_DATA_FFT1024: DWORD = 0x8000_0002;
pub const BASS_DATA_FFT2048: DWORD = 0x8000_0003;
pub const BASS_DATA_FFT4096: DWORD = 0x8000_0004;
pub const BASS_DATA_FFT8192: DWORD = 0x8000_0005;
pub const BASS_DATA_FFT_INDIVIDUAL: DWORD = 0x10;
pub const BASS_DATA_FFT_NOWINDOW: DWORD = 0x20;
pub const BASS_DATA_FFT_REMOVEDC: DWORD = 0x40;
pub const BASS_DATA_FFT_COMPLEX: DWORD = 0x80;
pub const BASS_DATA_FFT_NYQUIST: DWORD = 0x100;

pub const BASS_LEVEL_MONO: DWORD = 1;
pub const BASS_LEVEL_STEREO: DWORD = 2;
pub const BASS_LEVEL_RMS: DWORD = 4;
pub const BASS_LEVEL_VOLPAN: DWORD = 8;

pub const BASS_TAG_ID3: DWORD = 0;
pub const BASS_TAG_ID3V2: DWORD = 1;
pub const BASS_TAG_OGG: DWORD = 2;
pub const BASS_TAG_HTTP: DWORD = 3;
pub const BASS_TAG_ICY: DWORD = 4;
pub const BASS_TAG_META: DWORD = 5;
pub const BASS_TAG_APE: DWORD = 6;
pub const BASS_TAG_MP4: DWORD = 7;
pub const BASS_TAG_WMA: DWORD = 8;
pub const BASS_TAG_VENDOR: DWORD = 9;
pub const BASS_TAG_MF: DWORD = 13;

pub const BASS_DSP_READONLY: DWORD = 1;
pub const BASS_DSP_FLOAT: DWORD = 2;
pub const BASS_DSP_FREECALL: DWORD = 4;
pub const BASS_DSP_BYPASS: DWORD = 0x400000;

pub const BASS_FX_DX8_CHORUS: DWORD = 0;
pub const BASS_FX_DX8_COMPRESSOR: DWORD = 1;
pub const BASS_FX_DX8_DISTORTION: DWORD = 2;
pub const BASS_FX_DX8_ECHO: DWORD = 3;
pub const BASS_FX_DX8_FLANGER: DWORD = 4;
pub const BASS_FX_DX8_GARGLE: DWORD = 5;
pub const BASS_FX_DX8_I3DL2REVERB: DWORD = 6;
pub const BASS_FX_DX8_PARAMEQ: DWORD = 7;
pub const BASS_FX_DX8_REVERB: DWORD = 8;
pub const BASS_FX_VOLUME: DWORD = 9;

pub const BASS_FX_BFX_ROTATE: DWORD = 0x10000;
pub const BASS_FX_BFX_ECHO: DWORD = 0x10001;
pub const BASS_FX_BFX_FLANGER: DWORD = 0x10002;
pub const BASS_FX_BFX_VOLUME: DWORD = 0x10003;
pub const BASS_FX_BFX_PEAKEQ: DWORD = 0x10004;
pub const BASS_FX_BFX_REVERB: DWORD = 0x10005;
pub const BASS_FX_BFX_LPF: DWORD = 0x10006;
pub const BASS_FX_BFX_MIX: DWORD = 0x10007;
pub const BASS_FX_BFX_DAMP: DWORD = 0x10008;
pub const BASS_FX_BFX_AUTOWAH: DWORD = 0x10009;
pub const BASS_FX_BFX_ECHO2: DWORD = 0x1000a;
pub const BASS_FX_BFX_PHASER: DWORD = 0x1000b;
pub const BASS_FX_BFX_ECHO3: DWORD = 0x1000c;
pub const BASS_FX_BFX_CHORUS: DWORD = 0x1000d;
pub const BASS_FX_BFX_APF: DWORD = 0x1000e;
pub const BASS_FX_BFX_COMPRESSOR: DWORD = 0x1000f;
pub const BASS_FX_BFX_DISTORTION: DWORD = 0x10010;
pub const BASS_FX_BFX_COMPRESSOR2: DWORD = 0x10011;
pub const BASS_FX_BFX_VOLUME_ENV: DWORD = 0x10012;
pub const BASS_FX_BFX_BQF: DWORD = 0x10013;
pub const BASS_FX_BFX_ECHO4: DWORD = 0x10014;
pub const BASS_FX_BFX_PITCHSHIFT: DWORD = 0x10015;
pub const BASS_FX_BFX_FREEVERB: DWORD = 0x10016;

pub const BASS_BFX_CHANALL: i32 = -1;
pub const BASS_BFX_CHANNONE: i32 = 0;
pub const BASS_BFX_CHAN1: i32 = 1;
pub const BASS_BFX_CHAN2: i32 = 2;
pub const BASS_BFX_CHAN3: i32 = 4;
pub const BASS_BFX_CHAN4: i32 = 8;
pub const BASS_BFX_CHAN5: i32 = 16;
pub const BASS_BFX_CHAN6: i32 = 32;
pub const BASS_BFX_CHAN7: i32 = 64;
pub const BASS_BFX_CHAN8: i32 = 128;
pub const BASS_BFX_BQF_LOWPASS: i32 = 0;
pub const BASS_BFX_BQF_HIGHPASS: i32 = 1;
pub const BASS_BFX_BQF_BANDPASS: i32 = 2;
pub const BASS_BFX_BQF_BANDPASS_Q: i32 = 3;
pub const BASS_BFX_BQF_NOTCH: i32 = 4;
pub const BASS_BFX_BQF_ALLPASS: i32 = 5;
pub const BASS_BFX_BQF_PEAKINGEQ: i32 = 6;
pub const BASS_BFX_BQF_LOWSHELF: i32 = 7;
pub const BASS_BFX_BQF_HIGHSHELF: i32 = 8;

pub const BASS_FX_TEMPO_ALGO_LINEAR: DWORD = 0x200;
pub const BASS_FX_TEMPO_ALGO_CUBIC: DWORD = 0x400;
pub const BASS_FX_TEMPO_ALGO_SHANNON: DWORD = 0x800;

/// Output device information, as filled in by `BASS_GetInfo`.
#[derive(Clone, Copy, Debug, Default)]
pub struct BASS_INFO {
    pub flags: DWORD,
    pub reserved: [DWORD; 7],
    pub minbuf: DWORD,
    pub dsver: DWORD,
    pub latency: DWORD,
    pub initflags: DWORD,
    pub speakers: DWORD,
    pub freq: DWORD,
}

/// Parameters of the DirectX 8 gargle effect.
#[derive(Clone, Copy, Debug)]
pub struct BASS_DX8_GARGLE {
    pub dwRateHz: DWORD,
    pub dwWaveShape: DWORD,
}

} // verus!
