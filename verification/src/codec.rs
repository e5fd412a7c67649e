//! Codec adapter configuration.
//!
//! Codec selection and the codec-specific configuration blob arrive from
//! the external format-negotiation collaborator at session start.  This
//! module validates them and derives everything the decode pipeline needs:
//! the out-of-band decoder extradata (decoded from its compact hex form),
//! the nominal per-frame sample count, and the ring-buffer watermarks that
//! scale with the codec's latency characteristics.  The decoder itself is
//! an external capability; it is built by the caller from the returned
//! configuration.

use crate::rate::DRIFT_MARGIN_HZ;
use crate::rate::RateControl;
use vstd::prelude::*;

verus! {

/// Audio codec negotiated for a session.  The engine decodes through an
/// external codec capability; ALAC is the lossless kind, the AAC variants
/// are lossy, and each implies a different nominal frame duration.
#[derive(Clone, Copy, Debug, PartialEq, Eq, Structural)]
pub enum CodecKind {
    Alac,
    AacEld,
    AacLc,
    Pcm,
    Opus,
}

#[derive(Clone, Copy, Debug, PartialEq, Eq, Structural)]
pub enum ConfigError {
    /// The negotiated codec has no decoder in this pipeline.
    UnsupportedCodec,
    /// Malformed configuration blob, or sample rate / channel count out of
    /// the supported range.
    InvalidConfig,
}

/// Highest sample rate the pipeline accepts, in Hz.
pub const MAX_SAMPLE_RATE: u32 = 384000;

/// Highest channel count the pipeline accepts.
pub const MAX_CHANNELS: u32 = 8;

pub open spec fn codec_supported(kind: CodecKind) -> bool {
    kind != CodecKind::Pcm && kind != CodecKind::Opus
}

pub open spec fn params_valid(rate: u32, channels: u32) -> bool {
    &&& 1 <= rate <= MAX_SAMPLE_RATE
    &&& 1 <= channels <= MAX_CHANNELS
}

pub open spec fn is_hex_digit(c: char) -> bool {
    ||| '0' as u32 <= c as u32 <= '9' as u32
    ||| 'a' as u32 <= c as u32 <= 'f' as u32
    ||| 'A' as u32 <= c as u32 <= 'F' as u32
}

pub open spec fn hex_val(c: char) -> int {
    if '0' as u32 <= c as u32 <= '9' as u32 {
        c as u32 - '0' as u32
    } else if 'a' as u32 <= c as u32 <= 'f' as u32 {
        c as u32 - 'a' as u32 + 10
    } else {
        c as u32 - 'A' as u32 + 10
    }
}

/// The bytes a hex text encodes, two digits per byte; a trailing unpaired
/// digit is ignored.
pub open spec fn hex_bytes(s: Seq<char>) -> Seq<u8> {
    Seq::new((s.len() / 2) as nat, |i: int| (16 * hex_val(s[2 * i]) + hex_val(s[2 * i + 1])) as u8)
}

/// A well-formed configuration blob: non-empty, an even count of digits,
/// all of them hexadecimal.
pub open spec fn blob_valid(s: Seq<char>) -> bool {
    &&& s.len() > 0
    &&& s.len() % 2 == 0
    &&& forall|i: int| 0 <= i < s.len() ==> is_hex_digit(#[trigger] s[i])
}

/// Value of one hexadecimal digit.
pub fn hex_digit_value(c: char) -> (r: u8)
    requires
        is_hex_digit(c),
    ensures
        r == hex_val(c),
        r < 16,
{
    let u = c as u32;
    if 48 <= u && u <= 57 {
        (u - 48) as u8
    } else if 97 <= u {
        (u - 87) as u8
    } else {
        (u - 55) as u8
    }
}

/// Decodes hex text into the bytes it spells, pairing digits from the
/// front and ignoring a trailing unpaired digit.
#[verifier::loop_isolation(false)]
pub fn hex_to_buf(hex: &str) -> (r: Vec<u8>)
    requires
        forall|i: int| 0 <= i < 2 * (hex@.len() / 2) ==> is_hex_digit(#[trigger] hex@[i]),
    ensures
        r@ =~= hex_bytes(hex@),
{
    let n = hex.unicode_len();
    let count = n / 2;
    let mut r: Vec<u8> = Vec::new();
    let mut i: usize = 0;
    while i < count
        invariant
            i <= count,
            r@.len() == i,
            forall|j: int| 0 <= j < i ==> r@[j] == hex_bytes(hex@)[j],
        decreases count - i,
    {
        let hi = hex_digit_value(hex.get_char(2 * i));
        let lo = hex_digit_value(hex.get_char(2 * i + 1));
        r.push(16 * hi + lo);
        i = i + 1;
    }
    r
}

/// Checks that a configuration blob is well-formed hex text.
#[verifier::loop_isolation(false)]
pub fn is_hex_blob(s: &str) -> (r: bool)
    ensures
        r == blob_valid(s@),
{
    let n = s.unicode_len();
    if n == 0 || n % 2 != 0 {
        return false;
    }
    let mut i: usize = 0;
    while i < n
        invariant
            i <= n,
            forall|j: int| 0 <= j < i ==> is_hex_digit(#[trigger] s@[j]),
        decreases n - i,
    {
        let u = s.get_char(i) as u32;
        let ok = (48 <= u && u <= 57) || (97 <= u && u <= 102) || (65 <= u && u <= 70);
        if !ok {
            return false;
        }
        i = i + 1;
    }
    true
}

/// The compact hex form of each supported codec's out-of-band decoder
/// configuration.
pub open spec fn spec_default_blob(kind: CodecKind) -> Seq<char> {
    match kind {
        CodecKind::Alac => "00000024616c616300000000000001600010280a0e0200ff00000000000000000000ac44"@,
        CodecKind::AacEld => "f8e85000"@,
        _ => "1210"@,
    }
}

/// Out-of-band decoder configuration for each supported codec, in compact
/// hex form, as the format negotiation hands it over.
pub fn default_config_hex(kind: CodecKind) -> (r: &'static str)
    requires
        codec_supported(kind),
    ensures
        blob_valid(r@),
        r@ == spec_default_blob(kind),
{
    match kind {
        // ALAC magic cookie for 44100 Hz / 16 bit / 2 channels.
        CodecKind::Alac => {
            let s = "00000024616c616300000000000001600010280a0e0200ff00000000000000000000ac44";
            proof {
                reveal_strlit(
                    "00000024616c616300000000000001600010280a0e0200ff00000000000000000000ac44",
                );
                assert(blob_valid(s@));
            }
            s
        },
        // AAC-ELD audio-specific config for 44100 Hz / 2 channels.
        CodecKind::AacEld => {
            let s = "f8e85000";
            proof {
                reveal_strlit("f8e85000");
                assert(blob_valid(s@));
            }
            s
        },
        // AAC-LC audio-specific config for 44100 Hz / 2 channels.
        _ => {
            let s = "1210";
            proof {
                reveal_strlit("1210");
                assert(blob_valid(s@));
            }
            s
        },
    }
}

/// A negotiated audio stream format, as the format-negotiation
/// collaborator announces it: compression kind, nominal sample rate and
/// channel count.
#[derive(Clone, Copy, Debug, PartialEq, Eq, Structural)]
pub enum AudioFormat {
    Alac44100_16_2,
    AacEld44100_2,
    AacLc44100_2,
    Pcm44100_16_2,
    Opus48000_2,
}

impl AudioFormat {
    pub open spec fn spec_codec_kind(&self) -> CodecKind {
        match self {
            AudioFormat::Alac44100_16_2 => CodecKind::Alac,
            AudioFormat::AacEld44100_2 => CodecKind::AacEld,
            AudioFormat::AacLc44100_2 => CodecKind::AacLc,
            AudioFormat::Pcm44100_16_2 => CodecKind::Pcm,
            AudioFormat::Opus48000_2 => CodecKind::Opus,
        }
    }

    pub open spec fn spec_rate(&self) -> u32 {
        match self {
            AudioFormat::Opus48000_2 => 48000,
            _ => 44100,
        }
    }

    pub open spec fn spec_channels(&self) -> u32 {
        2
    }

    pub fn codec_kind(&self) -> (r: CodecKind)
        ensures
            r == self.spec_codec_kind(),
    {
        match self {
            AudioFormat::Alac44100_16_2 => CodecKind::Alac,
            AudioFormat::AacEld44100_2 => CodecKind::AacEld,
            AudioFormat::AacLc44100_2 => CodecKind::AacLc,
            AudioFormat::Pcm44100_16_2 => CodecKind::Pcm,
            AudioFormat::Opus48000_2 => CodecKind::Opus,
        }
    }

    /// Nominal sample rate and channel count of the format.
    pub fn rate_channel(&self) -> (r: (u32, u32))
        ensures
            r.0 == self.spec_rate(),
            r.1 == self.spec_channels(),
    {
        match self {
            AudioFormat::Opus48000_2 => (48000, 2),
            _ => (44100, 2),
        }
    }
}

/// Nominal samples per compressed frame for each supported codec.
pub open spec fn spec_samples_per_frame(kind: CodecKind) -> int {
    match kind {
        CodecKind::Alac => 352,
        CodecKind::AacEld => 480,
        _ => 1024,
    }
}

pub fn samples_per_frame(kind: CodecKind) -> (r: u32)
    ensures
        r == spec_samples_per_frame(kind),
{
    match kind {
        CodecKind::Alac => 352,
        CodecKind::AacEld => 480,
        _ => 1024,
    }
}

/// Occupancy above which the rate controller speeds up: the lower-latency
/// lossy codecs get a tighter band than lossless ALAC.
pub open spec fn spec_high_watermark(kind: CodecKind, rate: u32) -> int {
    if kind == CodecKind::Alac {
        rate as int / 3
    } else {
        rate as int / 6
    }
}

/// Comfortable occupancy: half of the high watermark band.
pub open spec fn spec_low_watermark(kind: CodecKind, rate: u32) -> int {
    if kind == CodecKind::Alac {
        rate as int / 6
    } else {
        rate as int / 12
    }
}

/// Everything the caller needs to build the external decoder and this
/// crate's pipeline state for one session.
#[derive(Debug)]
pub struct DecoderConfig {
    pub kind: CodecKind,
    /// Codec-specific out-of-band header bytes.
    pub extradata: Vec<u8>,
    /// Nominal sample rate negotiated for the stream, in Hz.
    pub sample_rate: u32,
    pub channels: u32,
    pub samples_per_frame: u32,
    pub high_watermark: usize,
    pub low_watermark: usize,
}

impl DecoderConfig {
    pub open spec fn wf(&self) -> bool {
        &&& codec_supported(self.kind)
        &&& params_valid(self.sample_rate, self.channels)
        &&& self.samples_per_frame == spec_samples_per_frame(self.kind)
        &&& self.high_watermark == spec_high_watermark(self.kind, self.sample_rate)
        &&& self.low_watermark == spec_low_watermark(self.kind, self.sample_rate)
    }

    /// Rate controller for this session: nominal rate from the format,
    /// the fixed drift margin, and one channel-count of Hz per step.
    pub fn rate_control(&self) -> (r: RateControl)
        requires
            self.wf(),
        ensures
            r.wf(),
            r.spec_nominal() == self.sample_rate,
            r.spec_max() == self.sample_rate + DRIFT_MARGIN_HZ,
            r.spec_step() == self.channels,
            r.spec_high() == self.high_watermark,
            r.spec_low() == self.low_watermark,
            r.spec_rate() == self.sample_rate,
    {
        RateControl::new(
            self.sample_rate,
            DRIFT_MARGIN_HZ,
            self.channels,
            self.high_watermark,
            self.low_watermark,
        )
    }
}

/// Validates a negotiated audio format and derives the session decoder
/// configuration.  Rejects codecs with no decoder here and malformed
/// parameters; accepts everything the format negotiation can deliver for
/// the supported codecs.
pub fn configure(kind: CodecKind, config_blob: &str, nominal_rate: u32, channel_count: u32) -> (r:
    Result<DecoderConfig, ConfigError>)
    ensures
        !codec_supported(kind) ==> r == Err::<DecoderConfig, ConfigError>(
            ConfigError::UnsupportedCodec,
        ),
        codec_supported(kind) && !(blob_valid(config_blob@) && params_valid(
            nominal_rate,
            channel_count,
        )) ==> r == Err::<DecoderConfig, ConfigError>(ConfigError::InvalidConfig),
        codec_supported(kind) && blob_valid(config_blob@) && params_valid(
            nominal_rate,
            channel_count,
        ) ==> r is Ok && (r matches Ok(c) ==> {
            &&& c.wf()
            &&& c.kind == kind
            &&& c.extradata@ == hex_bytes(config_blob@)
            &&& c.sample_rate == nominal_rate
            &&& c.channels == channel_count
        }),
{
    match kind {
        CodecKind::Pcm => {
            return Err(ConfigError::UnsupportedCodec);
        },
        CodecKind::Opus => {
            return Err(ConfigError::UnsupportedCodec);
        },
        _ => {},
    }
    if !(1 <= nominal_rate && nominal_rate <= MAX_SAMPLE_RATE) {
        return Err(ConfigError::InvalidConfig);
    }
    if !(1 <= channel_count && channel_count <= MAX_CHANNELS) {
        return Err(ConfigError::InvalidConfig);
    }
    if !is_hex_blob(config_blob) {
        return Err(ConfigError::InvalidConfig);
    }
    let extradata = hex_to_buf(config_blob);
    let high = if matches!(kind, CodecKind::Alac) {
        (nominal_rate / 3) as usize
    } else {
        (nominal_rate / 6) as usize
    };
    let low = if matches!(kind, CodecKind::Alac) {
        (nominal_rate / 6) as usize
    } else {
        (nominal_rate / 12) as usize
    };
    Ok(
        DecoderConfig {
            kind,
            extradata,
            sample_rate: nominal_rate,
            channels: channel_count,
            samples_per_frame: samples_per_frame(kind),
            high_watermark: high,
            low_watermark: low,
        },
    )
}

} // verus!
