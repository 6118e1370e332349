//! Device formats, and the formats that the encoder takes.

use vstd::prelude::*;

verus! {

/// How a device delivers its samples.
#[derive(Debug, PartialEq, Eq)]
pub enum SampleFormat {
    I8,
    I16,
    I32,
    I64,
    U8,
    U16,
    U32,
    U64,
    F32,
    F64,
    /// A format that the service has no conversion for, by its name.
    Other(String),
}

/// A sample format that the service can convert from.
#[derive(Clone, Copy, Debug, PartialEq, Eq, Structural)]
pub enum SampleKind {
    I8,
    I16,
    I32,
    I64,
    U8,
    U16,
    U32,
    U64,
    F32,
    F64,
}

/// What a device offers by default.
#[derive(Debug, PartialEq, Eq)]
pub struct SupportedStreamConfig {
    pub sample_rate: u32,
    pub channels: u16,
    pub sample_format: SampleFormat,
}

/// How much a device delivers at once.
#[derive(Clone, Copy, Debug, PartialEq, Eq, Structural)]
pub enum BufferSize {
    /// As much as the device does by itself.
    Default,
    /// A number of samples for each channel.
    Fixed(u32),
}

/// What a capture stream is opened with.
#[derive(Clone, Copy, Debug, PartialEq, Eq, Structural)]
pub struct StreamConfig {
    pub channels: u16,
    pub sample_rate: u32,
    pub buffer_size: BufferSize,
}

/// Channel layouts that the encoder takes.
#[derive(Clone, Copy, Debug, PartialEq, Eq, Structural)]
pub enum Channels {
    Mono,
    Stereo,
}

/// A device delivers its samples in a format that cannot be converted.
#[derive(Debug, PartialEq, Eq)]
pub struct UnsupportedFormat {
    pub name: String,
}

impl UnsupportedFormat {
    /// The error in words.
    pub fn message(&self) -> (text: String)
        ensures
            text@ == "unsupported audio format: "@ + self.name@,
    {
        let mut text: String = "unsupported audio format: ".to_owned();
        text.append(self.name.as_str());
        text
    }
}

/// The conversion for a format. The one error names the format, and comes exactly
/// for the formats without a conversion.
pub open spec fn sample_kind(format: SampleFormat) -> Result<SampleKind, UnsupportedFormat> {
    match format {
        SampleFormat::I8 => Ok(SampleKind::I8),
        SampleFormat::I16 => Ok(SampleKind::I16),
        SampleFormat::I32 => Ok(SampleKind::I32),
        SampleFormat::I64 => Ok(SampleKind::I64),
        SampleFormat::U8 => Ok(SampleKind::U8),
        SampleFormat::U16 => Ok(SampleKind::U16),
        SampleFormat::U32 => Ok(SampleKind::U32),
        SampleFormat::U64 => Ok(SampleKind::U64),
        SampleFormat::F32 => Ok(SampleKind::F32),
        SampleFormat::F64 => Ok(SampleKind::F64),
        SampleFormat::Other(name) => Err(UnsupportedFormat { name }),
    }
}

/// Finds the conversion for a format.
pub fn select_sample_kind(format: SampleFormat) -> (kind: Result<SampleKind, UnsupportedFormat>)
    ensures
        kind == sample_kind(format),
{
    match format {
        SampleFormat::I8 => Ok(SampleKind::I8),
        SampleFormat::I16 => Ok(SampleKind::I16),
        SampleFormat::I32 => Ok(SampleKind::I32),
        SampleFormat::I64 => Ok(SampleKind::I64),
        SampleFormat::U8 => Ok(SampleKind::U8),
        SampleFormat::U16 => Ok(SampleKind::U16),
        SampleFormat::U32 => Ok(SampleKind::U32),
        SampleFormat::U64 => Ok(SampleKind::U64),
        SampleFormat::F32 => Ok(SampleKind::F32),
        SampleFormat::F64 => Ok(SampleKind::F64),
        SampleFormat::Other(name) => Err(UnsupportedFormat { name }),
    }
}

/// The stream configuration for what a device offers.
pub open spec fn stream_config_of(config: SupportedStreamConfig) -> StreamConfig {
    StreamConfig {
        channels: config.channels,
        sample_rate: config.sample_rate,
        buffer_size: BufferSize::Default,
    }
}

/// Opens a stream with the channels and the rate that the device offers, and with
/// the device's own buffer size.
pub fn stream_config(config: &SupportedStreamConfig) -> (stream: StreamConfig)
    ensures
        stream == stream_config_of(*config),
{
    StreamConfig {
        channels: config.channels,
        sample_rate: config.sample_rate,
        buffer_size: BufferSize::Default,
    }
}

/// The rates that the encoder takes.
pub open spec fn is_encoder_rate(rate: u32) -> bool {
    rate == 8000 || rate == 12000 || rate == 16000 || rate == 24000 || rate == 48000
}

/// The rate to encode at for a device's rate: the highest encoder rate that is
/// not above it, and the lowest encoder rate where all are above it.
pub open spec fn encode_rate(device_rate: u32) -> u32 {
    if device_rate < 12000 {
        8000
    } else if device_rate < 16000 {
        12000
    } else if device_rate < 24000 {
        16000
    } else if device_rate < 48000 {
        24000
    } else {
        48000
    }
}

/// Picks the rate to encode at.
pub fn select_encode_rate(device_rate: u32) -> (rate: u32)
    ensures
        rate == encode_rate(device_rate),
        is_encoder_rate(rate),
{
    if device_rate < 12000 {
        8000
    } else if device_rate < 16000 {
        12000
    } else if device_rate < 24000 {
        16000
    } else if device_rate < 48000 {
        24000
    } else {
        48000
    }
}

/// The rate to encode at is one that the encoder takes.
pub proof fn lemma_encode_rate_is_encoder_rate(device_rate: u32)
    ensures
        is_encoder_rate(encode_rate(device_rate)),
{
}

/// The rate to encode at is the highest encoder rate not above the device's, and
/// only a device below every encoder rate is encoded at a higher rate than it
/// delivers.
pub proof fn lemma_encode_rate_is_highest(device_rate: u32)
    ensures
        forall|rate: u32|
            #[trigger] is_encoder_rate(rate) && rate <= device_rate ==> rate <= encode_rate(
                device_rate,
            ),
        device_rate >= 8000 ==> encode_rate(device_rate) <= device_rate,
        device_rate < 8000 ==> forall|rate: u32| #[trigger]
            is_encoder_rate(rate) ==> encode_rate(device_rate) <= rate,
{
}

/// A device that delivers at an encoder rate is encoded at that rate.
pub proof fn lemma_encoder_rate_is_kept(rate: u32)
    requires
        is_encoder_rate(rate),
    ensures
        encode_rate(rate) == rate,
{
}

/// A faster device is never encoded at a lower rate.
pub proof fn lemma_encode_rate_monotone(slow: u32, fast: u32)
    requires
        slow <= fast,
    ensures
        encode_rate(slow) <= encode_rate(fast),
{
}

/// The layout to encode with: anything beyond one channel is encoded as stereo.
pub open spec fn encode_channels(device_channels: u16) -> Channels {
    if device_channels > 1 {
        Channels::Stereo
    } else {
        Channels::Mono
    }
}

/// Picks the layout to encode with.
pub fn select_encode_channels(device_channels: u16) -> (channels: Channels)
    ensures
        channels == encode_channels(device_channels),
{
    if device_channels > 1 {
        Channels::Stereo
    } else {
        Channels::Mono
    }
}

impl Channels {
    /// Number of channels of the layout.
    pub open spec fn channel_count(self) -> u16 {
        match self {
            Channels::Mono => 1,
            Channels::Stereo => 2,
        }
    }

    /// Number of channels of the layout.
    pub fn count(self) -> (n: u16)
        ensures
            n == self.channel_count(),
    {
        match self {
            Channels::Mono => 1,
            Channels::Stereo => 2,
        }
    }
}

/// Every format but the ones without a conversion has the conversion of its own type,
/// and the error of the others names them.
pub proof fn lemma_formats_keep_their_type(format: SampleFormat)
    ensures
        match sample_kind(format) {
            Ok(kind) => {
                &&& format is I8 <==> kind is I8
                &&& format is I16 <==> kind is I16
                &&& format is I32 <==> kind is I32
                &&& format is I64 <==> kind is I64
                &&& format is U8 <==> kind is U8
                &&& format is U16 <==> kind is U16
                &&& format is U32 <==> kind is U32
                &&& format is U64 <==> kind is U64
                &&& format is F32 <==> kind is F32
                &&& format is F64 <==> kind is F64
                &&& !(format is Other)
            },
            Err(e) => format is Other && e.name == format->Other_0,
        },
{
}

/// A stream is opened with the very rate and channels that a device offers, and with
/// the device's own buffer size.
pub proof fn lemma_stream_keeps_device_format(config: SupportedStreamConfig)
    ensures
        stream_config_of(config).sample_rate == config.sample_rate,
        stream_config_of(config).channels == config.channels,
        stream_config_of(config).buffer_size is Default,
{
}

/// Of 8000, 12000, 16000, 24000 and 48000 the rate to encode at is the highest that is
/// not above the device's, and 8000 where all are above it.
pub proof fn lemma_encode_rate_in_numbers(device_rate: u32)
    ensures
        ({
            let rate = encode_rate(device_rate);
            &&& rate == 8000 || rate == 12000 || rate == 16000 || rate == 24000 || rate == 48000
            &&& rate <= device_rate || (rate == 8000 && device_rate < 8000)
            &&& device_rate >= 12000 ==> rate >= 12000
            &&& device_rate >= 16000 ==> rate >= 16000
            &&& device_rate >= 24000 ==> rate >= 24000
            &&& device_rate >= 48000 ==> rate >= 48000
        }),
{
}

/// The rates that the encoder takes are the five.
pub proof fn lemma_encoder_rates(rate: u32)
    ensures
        is_encoder_rate(rate) <==> seq![8000u32, 12000, 16000, 24000, 48000].contains(rate),
{
    let rates = seq![8000u32, 12000, 16000, 24000, 48000];
    assert(rates[0] == 8000 && rates[1] == 12000 && rates[2] == 16000 && rates[3] == 24000
        && rates[4] == 48000);
}

/// As many channels are encoded as the device has, but at least one and at most two.
pub proof fn lemma_encode_channels_are_clamped(device_channels: u16)
    ensures
        1 <= encode_channels(device_channels).channel_count() <= 2,
        1 <= device_channels <= 2 ==> encode_channels(device_channels).channel_count()
            == device_channels,
        device_channels == 0 ==> encode_channels(device_channels).channel_count() == 1,
        device_channels > 2 ==> encode_channels(device_channels).channel_count() == 2,
        Channels::Mono.channel_count() == 1,
        Channels::Stereo.channel_count() == 2,
{
}

} // verus!
