//! Effects: the BASS_FX effect types, the kinds of effect a channel can
//! carry, and the checks made before an effect is set or configured.

use crate::error::{BassError, Result};
use crate::raw;
use crate::text::{decimal_string, decimal_text};
use vstd::prelude::*;
use vstd::string::*;

verus! {

/// The effects of the BASS_FX library.
#[derive(Debug, Clone, Copy, PartialEq, Eq, Structural)]
pub enum BassFxEffect {
    Rotate,
    Echo,
    Flanger,
    Volume,
    PeakEq,
    Reverb,
    LowPassFilter,
    Mix,
    Damp,
    AutoWah,
    Echo2,
    Phaser,
    Echo3,
    Chorus,
    AllPassFilter,
    Compressor,
    Distortion,
    Compressor2,
    VolumeEnvelope,
    BiquadFilter,
    Echo4,
    PitchShift,
    Freeverb,
}

/// The position of an effect in the BASS_FX effect list.
pub open spec fn bass_fx_index(effect: BassFxEffect) -> u32 {
    match effect {
        BassFxEffect::Rotate => 0,
        BassFxEffect::Echo => 1,
        BassFxEffect::Flanger => 2,
        BassFxEffect::Volume => 3,
        BassFxEffect::PeakEq => 4,
        BassFxEffect::Reverb => 5,
        BassFxEffect::LowPassFilter => 6,
        BassFxEffect::Mix => 7,
        BassFxEffect::Damp => 8,
        BassFxEffect::AutoWah => 9,
        BassFxEffect::Echo2 => 10,
        BassFxEffect::Phaser => 11,
        BassFxEffect::Echo3 => 12,
        BassFxEffect::Chorus => 13,
        BassFxEffect::AllPassFilter => 14,
        BassFxEffect::Compressor => 15,
        BassFxEffect::Distortion => 16,
        BassFxEffect::Compressor2 => 17,
        BassFxEffect::VolumeEnvelope => 18,
        BassFxEffect::BiquadFilter => 19,
        BassFxEffect::Echo4 => 20,
        BassFxEffect::PitchShift => 21,
        BassFxEffect::Freeverb => 22,
    }
}

/// The `BASS_FX_BFX_*` value of an effect: the BASS_FX base value plus the
/// position of the effect in the list.
pub open spec fn bass_fx_value(effect: BassFxEffect) -> u32 {
    (raw::BASS_FX_BFX_ROTATE + bass_fx_index(effect)) as u32
}

/// The name of an effect, as its `Debug` form writes it.
pub open spec fn bass_fx_name(effect: BassFxEffect) -> Seq<char> {
    match effect {
        BassFxEffect::Rotate => "Rotate"@,
        BassFxEffect::Echo => "Echo"@,
        BassFxEffect::Flanger => "Flanger"@,
        BassFxEffect::Volume => "Volume"@,
        BassFxEffect::PeakEq => "PeakEq"@,
        BassFxEffect::Reverb => "Reverb"@,
        BassFxEffect::LowPassFilter => "LowPassFilter"@,
        BassFxEffect::Mix => "Mix"@,
        BassFxEffect::Damp => "Damp"@,
        BassFxEffect::AutoWah => "AutoWah"@,
        BassFxEffect::Echo2 => "Echo2"@,
        BassFxEffect::Phaser => "Phaser"@,
        BassFxEffect::Echo3 => "Echo3"@,
        BassFxEffect::Chorus => "Chorus"@,
        BassFxEffect::AllPassFilter => "AllPassFilter"@,
        BassFxEffect::Compressor => "Compressor"@,
        BassFxEffect::Distortion => "Distortion"@,
        BassFxEffect::Compressor2 => "Compressor2"@,
        BassFxEffect::VolumeEnvelope => "VolumeEnvelope"@,
        BassFxEffect::BiquadFilter => "BiquadFilter"@,
        BassFxEffect::Echo4 => "Echo4"@,
        BassFxEffect::PitchShift => "PitchShift"@,
        BassFxEffect::Freeverb => "Freeverb"@,
    }
}

impl BassFxEffect {
    /// The `BASS_FX_BFX_*` value of this effect.
    pub fn raw(self) -> (value: u32)
        ensures
            value == bass_fx_value(self),
    {
        match self {
            BassFxEffect::Rotate => raw::BASS_FX_BFX_ROTATE,
            BassFxEffect::Echo => raw::BASS_FX_BFX_ECHO,
            BassFxEffect::Flanger => raw::BASS_FX_BFX_FLANGER,
            BassFxEffect::Volume => raw::BASS_FX_BFX_VOLUME,
            BassFxEffect::PeakEq => raw::BASS_FX_BFX_PEAKEQ,
            BassFxEffect::Reverb => raw::BASS_FX_BFX_REVERB,
            BassFxEffect::LowPassFilter => raw::BASS_FX_BFX_LPF,
            BassFxEffect::Mix => raw::BASS_FX_BFX_MIX,
            BassFxEffect::Damp => raw::BASS_FX_BFX_DAMP,
            BassFxEffect::AutoWah => raw::BASS_FX_BFX_AUTOWAH,
            BassFxEffect::Echo2 => raw::BASS_FX_BFX_ECHO2,
            BassFxEffect::Phaser => raw::BASS_FX_BFX_PHASER,
            BassFxEffect::Echo3 => raw::BASS_FX_BFX_ECHO3,
            BassFxEffect::Chorus => raw::BASS_FX_BFX_CHORUS,
            BassFxEffect::AllPassFilter => raw::BASS_FX_BFX_APF,
            BassFxEffect::Compressor => raw::BASS_FX_BFX_COMPRESSOR,
            BassFxEffect::Distortion => raw::BASS_FX_BFX_DISTORTION,
            BassFxEffect::Compressor2 => raw::BASS_FX_BFX_COMPRESSOR2,
            BassFxEffect::VolumeEnvelope => raw::BASS_FX_BFX_VOLUME_ENV,
            BassFxEffect::BiquadFilter => raw::BASS_FX_BFX_BQF,
            BassFxEffect::Echo4 => raw::BASS_FX_BFX_ECHO4,
            BassFxEffect::PitchShift => raw::BASS_FX_BFX_PITCHSHIFT,
            BassFxEffect::Freeverb => raw::BASS_FX_BFX_FREEVERB,
        }
    }

    /// The name of this effect, as its `Debug` form writes it.
    pub fn name(self) -> (name: &'static str)
        ensures
            name@ == bass_fx_name(self),
    {
        match self {
            BassFxEffect::Rotate => "Rotate",
            BassFxEffect::Echo => "Echo",
            BassFxEffect::Flanger => "Flanger",
            BassFxEffect::Volume => "Volume",
            BassFxEffect::PeakEq => "PeakEq",
            BassFxEffect::Reverb => "Reverb",
            BassFxEffect::LowPassFilter => "LowPassFilter",
            BassFxEffect::Mix => "Mix",
            BassFxEffect::Damp => "Damp",
            BassFxEffect::AutoWah => "AutoWah",
            BassFxEffect::Echo2 => "Echo2",
            BassFxEffect::Phaser => "Phaser",
            BassFxEffect::Echo3 => "Echo3",
            BassFxEffect::Chorus => "Chorus",
            BassFxEffect::AllPassFilter => "AllPassFilter",
            BassFxEffect::Compressor => "Compressor",
            BassFxEffect::Distortion => "Distortion",
            BassFxEffect::Compressor2 => "Compressor2",
            BassFxEffect::VolumeEnvelope => "VolumeEnvelope",
            BassFxEffect::BiquadFilter => "BiquadFilter",
            BassFxEffect::Echo4 => "Echo4",
            BassFxEffect::PitchShift => "PitchShift",
            BassFxEffect::Freeverb => "Freeverb",
        }
    }
}

/// Every BASS_FX effect has its own value, within the BASS_FX range
/// `0x10000..=0x10016`.
pub proof fn lemma_bass_fx_values(a: BassFxEffect, b: BassFxEffect)
    ensures
        0x10000 <= bass_fx_value(a) <= 0x10016,
        bass_fx_value(a) == bass_fx_value(b) ==> a == b,
{
}

/// The BASS_FX effect that a `BASS_FX_BFX_*` value names in the BASS_FX
/// header, if any.
pub open spec fn bass_fx_named(value: u32) -> Option<BassFxEffect> {
    if value == raw::BASS_FX_BFX_ROTATE {
        Some(BassFxEffect::Rotate)
    } else if value == raw::BASS_FX_BFX_ECHO {
        Some(BassFxEffect::Echo)
    } else if value == raw::BASS_FX_BFX_FLANGER {
        Some(BassFxEffect::Flanger)
    } else if value == raw::BASS_FX_BFX_VOLUME {
        Some(BassFxEffect::Volume)
    } else if value == raw::BASS_FX_BFX_PEAKEQ {
        Some(BassFxEffect::PeakEq)
    } else if value == raw::BASS_FX_BFX_REVERB {
        Some(BassFxEffect::Reverb)
    } else if value == raw::BASS_FX_BFX_LPF {
        Some(BassFxEffect::LowPassFilter)
    } else if value == raw::BASS_FX_BFX_MIX {
        Some(BassFxEffect::Mix)
    } else if value == raw::BASS_FX_BFX_DAMP {
        Some(BassFxEffect::Damp)
    } else if value == raw::BASS_FX_BFX_AUTOWAH {
        Some(BassFxEffect::AutoWah)
    } else if value == raw::BASS_FX_BFX_ECHO2 {
        Some(BassFxEffect::Echo2)
    } else if value == raw::BASS_FX_BFX_PHASER {
        Some(BassFxEffect::Phaser)
    } else if value == raw::BASS_FX_BFX_ECHO3 {
        Some(BassFxEffect::Echo3)
    } else if value == raw::BASS_FX_BFX_CHORUS {
        Some(BassFxEffect::Chorus)
    } else if value == raw::BASS_FX_BFX_APF {
        Some(BassFxEffect::AllPassFilter)
    } else if value == raw::BASS_FX_BFX_COMPRESSOR {
        Some(BassFxEffect::Compressor)
    } else if value == raw::BASS_FX_BFX_DISTORTION {
        Some(BassFxEffect::Distortion)
    } else if value == raw::BASS_FX_BFX_COMPRESSOR2 {
        Some(BassFxEffect::Compressor2)
    } else if value == raw::BASS_FX_BFX_VOLUME_ENV {
        Some(BassFxEffect::VolumeEnvelope)
    } else if value == raw::BASS_FX_BFX_BQF {
        Some(BassFxEffect::BiquadFilter)
    } else if value == raw::BASS_FX_BFX_ECHO4 {
        Some(BassFxEffect::Echo4)
    } else if value == raw::BASS_FX_BFX_PITCHSHIFT {
        Some(BassFxEffect::PitchShift)
    } else if value == raw::BASS_FX_BFX_FREEVERB {
        Some(BassFxEffect::Freeverb)
    } else {
        None
    }
}

/// Each BASS_FX effect is installed under the value that the BASS_FX header
/// names after it (ECHO for `Echo`, FLANGER for `Flanger`, ...), and every
/// value the header names belongs to exactly that effect.
pub proof fn lemma_bass_fx_value_named(effect: BassFxEffect, value: u32)
    ensures
        bass_fx_named(bass_fx_value(effect)) == Some(effect),
        bass_fx_named(value) == Some(effect) ==> bass_fx_value(effect) == value,
{
}

/// The kind of an effect set on a channel.
#[derive(Debug, Clone, Copy, PartialEq, Eq, Structural)]
pub enum EffectKind {
    Dx8(u32),
    BassFx(BassFxEffect),
    Volume,
}

/// The effect type handed to `BASS_ChannelSetFX` for a kind of effect.
pub open spec fn effect_kind_value(kind: EffectKind) -> u32 {
    match kind {
        EffectKind::Dx8(value) => value,
        EffectKind::BassFx(effect) => bass_fx_value(effect),
        EffectKind::Volume => raw::BASS_FX_VOLUME,
    }
}

impl EffectKind {
    /// The effect type handed to `BASS_ChannelSetFX`.
    pub fn raw(self) -> (value: u32)
        ensures
            value == effect_kind_value(self),
    {
        match self {
            EffectKind::Dx8(value) => value,
            EffectKind::BassFx(effect) => effect.raw(),
            EffectKind::Volume => raw::BASS_FX_VOLUME,
        }
    }

    /// Whether this effect comes from the BASS_FX library.
    pub fn needs_fx(self) -> (needs: bool)
        ensures
            needs == (self is BassFx),
    {
        match self {
            EffectKind::BassFx(_) => true,
            _ => false,
        }
    }
}

/// The text of a kind of effect, as its `Debug` form writes it.
pub open spec fn effect_kind_text(kind: EffectKind) -> Seq<char> {
    match kind {
        EffectKind::Dx8(value) => "Dx8("@ + decimal_text(value as nat) + ")"@,
        EffectKind::BassFx(effect) => "BassFx("@ + bass_fx_name(effect) + ")"@,
        EffectKind::Volume => "Volume"@,
    }
}

impl EffectKind {
    /// The text of this kind of effect, as its `Debug` form writes it.
    pub fn describe(self) -> (text: String)
        ensures
            text@ == effect_kind_text(self),
    {
        match self {
            EffectKind::Dx8(value) => {
                let text = String::from_str("Dx8(");
                let text = text.concat(decimal_string(value).as_str());
                text.concat(")")
            },
            EffectKind::BassFx(effect) => {
                let text = String::from_str("BassFx(");
                let text = text.concat(effect.name());
                text.concat(")")
            },
            EffectKind::Volume => String::from_str("Volume"),
        }
    }
}

/// The message of a parameter structure given to an effect of another kind.
pub open spec fn parameter_mismatch_message(parameters: EffectKind, effect: EffectKind) -> Seq<char> {
    "parameters are for "@ + effect_kind_text(parameters) + ", effect is "@ + effect_kind_text(effect)
}

/// Parameters can be set on, or read from, an effect only when they are
/// made for its kind; otherwise an invalid-input error names both kinds.
pub fn check_parameter_kind(parameters: EffectKind, effect: EffectKind) -> (result: Result<()>)
    ensures
        parameters == effect ==> result == Ok::<(), BassError>(()),
        parameters != effect ==> (result matches Err(BassError::InvalidInput { kind, message })
            && kind@ == "effect parameters"@ && message@ == parameter_mismatch_message(
            parameters,
            effect,
        )),
{
    if parameters == effect {
        Ok(())
    } else {
        let message = String::from_str("parameters are for ");
        let message = message.concat(parameters.describe().as_str());
        let message = message.concat(", effect is ");
        let message = message.concat(effect.describe().as_str());
        Err(BassError::InvalidInput { kind: "effect parameters", message })
    }
}

/// An operation that needs BASS_FX fails for want of it exactly when the
/// library is not loaded.
pub fn require_fx_loaded(fx_loaded: bool) -> (result: Result<()>)
    ensures
        fx_loaded ==> result == Ok::<(), BassError>(()),
        !fx_loaded ==> result == Err::<(), BassError>(BassError::FxUnavailable),
{
    if fx_loaded {
        Ok(())
    } else {
        Err(BassError::FxUnavailable)
    }
}

/// Setting an effect fails for want of BASS_FX exactly when the effect comes
/// from BASS_FX and the library is not loaded.
pub fn check_effect_available(kind: EffectKind, fx_loaded: bool) -> (result: Result<()>)
    ensures
        kind is BassFx && !fx_loaded ==> result == Err::<(), BassError>(BassError::FxUnavailable),
        !(kind is BassFx && !fx_loaded) ==> result == Ok::<(), BassError>(()),
{
    if kind.needs_fx() && !fx_loaded {
        Err(BassError::FxUnavailable)
    } else {
        Ok(())
    }
}

/// The flags of a tempo or reverse channel: those given, with the source
/// channel freed together with the new one.
pub fn derived_channel_flags(flags: u32) -> (result: u32)
    ensures
        result == flags | raw::BASS_FX_FREESOURCE,
{
    flags | raw::BASS_FX_FREESOURCE
}

/// A type marker for one of the official BASS/BASS_FX parameter structures:
/// the kind of effect that the parameters configure.
pub trait EffectParameters: Copy + 'static {
    fn effect_kind() -> EffectKind;
}

impl EffectParameters for raw::BASS_DX8_GARGLE {
    fn effect_kind() -> (kind: EffectKind)
        ensures
            kind == EffectKind::Dx8(raw::BASS_FX_DX8_GARGLE),
    {
        EffectKind::Dx8(raw::BASS_FX_DX8_GARGLE)
    }
}

/// Information about a block of DSP data.
#[derive(Debug, Clone, Copy)]
pub struct DspInfo {
    pub dsp_handle: u32,
    pub channel: u32,
    pub byte_length: usize,
}

} // verus!
