//! Setting up capture: from the choice of devices to running streams.
//!
//! Finding devices, opening streams and starting them is work for the operating
//! system. Each result decides what is done next. Everywhere but on Windows there
//! is one stream. On Windows there are two, which are merged into one.

use vstd::prelude::*;

use crate::device::{Device, DeviceRequest, SearchError};
use crate::format::{
    encode_channels, encode_rate, sample_kind, select_encode_channels, select_encode_rate,
    select_sample_kind, stream_config, stream_config_of, SampleKind, SupportedStreamConfig,
    UnsupportedFormat,
};
use crate::merge::{
    channel, interleaved, lemma_channels_of_interleaved, merge_streams, shorter, AudioFormat,
    AudioPacket,
};
use crate::message::{create_format_misc, format_misc, Misc};
use crate::stream::StreamParams;
use crate::target::CpalTarget;

verus! {

/// Which of the streams is meant.
#[derive(Clone, Copy, Debug, PartialEq, Eq, Structural)]
pub enum Source {
    /// The input device, the microphone on Windows.
    Input,
    /// What is played on the system.
    Loopback,
}

/// What is done next.
#[derive(Debug, PartialEq, Eq)]
pub enum PlayAction<E> {
    FindDevice(DeviceRequest),
    /// Open a stream on a device whose samples are converted from a given kind.
    OpenStream { source: Source, device: Device, kind: SampleKind, params: StreamParams },
    StartStream(Source),
    /// One stream runs. Its subscribers are told this.
    Playing(Misc),
    /// Two streams run. They are merged into a stereo stream of this format, with
    /// one of them on each channel.
    Merged { format: AudioFormat, left: Source, right: Source },
    Fail(PlayError<E>),
}

/// Why capture could not be set up.
#[derive(Debug, PartialEq, Eq)]
pub enum PlayError<E> {
    Search(SearchError<E>),
    Unsupported(UnsupportedFormat),
    /// A stream could not be opened or started.
    Stream(E),
}

/// What came of the last action.
#[derive(Debug, PartialEq, Eq)]
pub enum PlayEvent<E> {
    Device(Result<(Device, SupportedStreamConfig), SearchError<E>>),
    Opened(Result<(), E>),
    Started(Result<(), E>),
}

/// Where the setting up stands: the action that was asked for last.
#[derive(Debug, PartialEq, Eq)]
pub enum PlayStage {
    /// Finding the device of the only stream.
    Device,
    /// Opening the only stream.
    Opening(StreamParams),
    /// Starting the only stream.
    Starting(StreamParams),
    /// Finding the microphone.
    MicDevice,
    /// Finding the device whose output is captured.
    LoopbackDevice { mic: Device, mic_config: SupportedStreamConfig },
    /// Opening the microphone's stream.
    OpeningMic { loopback: Device, loopback_config: SupportedStreamConfig },
    OpeningLoopback,
    StartingMic,
    StartingLoopback,
    Done,
}

/// The stream for what a device offers.
pub open spec fn params_of(config: SupportedStreamConfig) -> StreamParams {
    StreamParams {
        device: stream_config_of(config),
        encode_rate: encode_rate(config.sample_rate),
        encode_channels: encode_channels(config.channels),
    }
}

/// Lays out the stream for what a device offers.
pub fn stream_params(config: &SupportedStreamConfig) -> (params: StreamParams)
    ensures
        params == params_of(*config),
{
    StreamParams {
        device: stream_config(config),
        encode_rate: select_encode_rate(config.sample_rate),
        encode_channels: select_encode_channels(config.channels),
    }
}

/// What subscribers are told of a stream: the rate and the number of channels that
/// its encoder works at.
pub open spec fn announced(params: StreamParams) -> Misc {
    format_misc(params.encode_rate, params.encode_channels.channel_count())
}

/// The format of the merged stream.
pub open spec fn merged_format() -> AudioFormat {
    AudioFormat { sample_rate: 48000, channels: 2, bits_per_sample: 16 }
}

/// The packet of one of two streams.
pub open spec fn packet_of(source: Source, input: AudioPacket, loopback: AudioPacket) -> AudioPacket {
    match source {
        Source::Input => input,
        Source::Loopback => loopback,
    }
}

/// Merges a packet of each stream into a stereo packet, with the given streams on
/// the left and the right channel.
pub fn merge_captured(
    left: Source,
    right: Source,
    input: &AudioPacket,
    loopback: &AudioPacket,
) -> (merged: AudioPacket)
    ensures
        merged.data@ == interleaved(
            packet_of(left, *input, *loopback).data@,
            packet_of(right, *input, *loopback).data@,
        ),
        merged.sample_rate == packet_of(left, *input, *loopback).sample_rate,
        merged.channels == 2,
{
    let on_left: &AudioPacket = match left {
        Source::Input => input,
        Source::Loopback => loopback,
    };
    let on_right: &AudioPacket = match right {
        Source::Input => input,
        Source::Loopback => loopback,
    };
    merge_streams(on_left, on_right)
}

/// What subscribers are told of a merged stream.
pub fn announce_merged(format: &AudioFormat) -> (misc: Misc)
    ensures
        misc == format_misc(format.sample_rate, format.channels),
{
    create_format_misc(format.sample_rate, format.channels)
}

/// The first action on a target.
pub open spec fn play_first<E>(target: CpalTarget) -> (PlayStage, PlayAction<E>) {
    match target {
        CpalTarget::Windows => (
            PlayStage::MicDevice,
            PlayAction::FindDevice(DeviceRequest::Mic),
        ),
        _ => (PlayStage::Device, PlayAction::FindDevice(DeviceRequest::Capture(target))),
    }
}

/// Opens a stream if its samples can be converted, and fails if they cannot.
pub open spec fn open_stream<E>(
    stage: PlayStage,
    source: Source,
    device: Device,
    config: SupportedStreamConfig,
) -> (PlayStage, PlayAction<E>) {
    match sample_kind(config.sample_format) {
        Ok(kind) => (
            stage,
            PlayAction::OpenStream { source, device, kind, params: params_of(config) },
        ),
        Err(e) => (PlayStage::Done, PlayAction::Fail(PlayError::Unsupported(e))),
    }
}

/// The result is one of the action that was asked for.
pub open spec fn results<E>(stage: PlayStage, event: PlayEvent<E>) -> bool {
    match stage {
        PlayStage::Device | PlayStage::MicDevice | PlayStage::LoopbackDevice { .. } =>
        event is Device,
        PlayStage::Opening(_) | PlayStage::OpeningMic { .. } | PlayStage::OpeningLoopback =>
        event is Opened,
        PlayStage::Starting(_) | PlayStage::StartingMic | PlayStage::StartingLoopback =>
        event is Started,
        PlayStage::Done => false,
    }
}

/// What a result leads to. Each stream is opened on its own device, with what that
/// device offers. Of two streams, what is played on the system is merged as the left
/// channel and the microphone as the right one.
pub open spec fn play_next<E>(stage: PlayStage, event: PlayEvent<E>) -> (
    PlayStage,
    PlayAction<E>,
) {
    match (stage, event) {
        (_, PlayEvent::Device(Err(e))) => (
            PlayStage::Done,
            PlayAction::Fail(PlayError::Search(e)),
        ),
        (_, PlayEvent::Opened(Err(e))) => (
            PlayStage::Done,
            PlayAction::Fail(PlayError::Stream(e)),
        ),
        (_, PlayEvent::Started(Err(e))) => (
            PlayStage::Done,
            PlayAction::Fail(PlayError::Stream(e)),
        ),
        (PlayStage::Device, PlayEvent::Device(Ok((device, config)))) => open_stream(
            PlayStage::Opening(params_of(config)),
            Source::Input,
            device,
            config,
        ),
        (PlayStage::Opening(params), PlayEvent::Opened(Ok(_))) => (
            PlayStage::Starting(params),
            PlayAction::StartStream(Source::Input),
        ),
        (PlayStage::Starting(params), PlayEvent::Started(Ok(_))) => (
            PlayStage::Done,
            PlayAction::Playing(announced(params)),
        ),
        (PlayStage::MicDevice, PlayEvent::Device(Ok((mic, mic_config)))) => (
            PlayStage::LoopbackDevice { mic, mic_config },
            PlayAction::FindDevice(DeviceRequest::Loopback),
        ),
        (
            PlayStage::LoopbackDevice { mic, mic_config },
            PlayEvent::Device(Ok((loopback, loopback_config))),
        ) => open_stream(
            PlayStage::OpeningMic { loopback, loopback_config },
            Source::Input,
            mic,
            mic_config,
        ),
        (
            PlayStage::OpeningMic { loopback, loopback_config },
            PlayEvent::Opened(Ok(_)),
        ) => open_stream(
            PlayStage::OpeningLoopback,
            Source::Loopback,
            loopback,
            loopback_config,
        ),
        (PlayStage::OpeningLoopback, PlayEvent::Opened(Ok(_))) => (
            PlayStage::StartingMic,
            PlayAction::StartStream(Source::Input),
        ),
        (PlayStage::StartingMic, PlayEvent::Started(Ok(_))) => (
            PlayStage::StartingLoopback,
            PlayAction::StartStream(Source::Loopback),
        ),
        (PlayStage::StartingLoopback, PlayEvent::Started(Ok(_))) => (
            PlayStage::Done,
            PlayAction::Merged {
                format: merged_format(),
                left: Source::Loopback,
                right: Source::Input,
            },
        ),
        _ => arbitrary(),
    }
}

/// Starts setting up capture on a target.
pub fn play<E>(target: CpalTarget) -> (first: (PlayStage, PlayAction<E>))
    ensures
        first == play_first::<E>(target),
{
    match target {
        CpalTarget::Windows => (
            PlayStage::MicDevice,
            PlayAction::FindDevice(DeviceRequest::Mic),
        ),
        _ => (PlayStage::Device, PlayAction::FindDevice(DeviceRequest::Capture(target))),
    }
}

fn start_open_stream<E>(
    stage: PlayStage,
    source: Source,
    device: Device,
    config: SupportedStreamConfig,
) -> (next: (PlayStage, PlayAction<E>))
    ensures
        next == open_stream::<E>(stage, source, device, config),
{
    let params: StreamParams = stream_params(&config);
    match select_sample_kind(config.sample_format) {
        Ok(kind) => (stage, PlayAction::OpenStream { source, device, kind, params }),
        Err(e) => (PlayStage::Done, PlayAction::Fail(PlayError::Unsupported(e))),
    }
}

/// Goes on with setting up capture: takes the result of the last action, and gives
/// the next one or the outcome.
pub fn on_result<E>(stage: PlayStage, event: PlayEvent<E>) -> (next: (PlayStage, PlayAction<E>))
    requires
        results(stage, event),
    ensures
        next == play_next(stage, event),
{
    match (stage, event) {
        (_, PlayEvent::Device(Err(e))) => (
            PlayStage::Done,
            PlayAction::Fail(PlayError::Search(e)),
        ),
        (_, PlayEvent::Opened(Err(e))) => (
            PlayStage::Done,
            PlayAction::Fail(PlayError::Stream(e)),
        ),
        (_, PlayEvent::Started(Err(e))) => (
            PlayStage::Done,
            PlayAction::Fail(PlayError::Stream(e)),
        ),
        (PlayStage::Device, PlayEvent::Device(Ok((device, config)))) => {
            let stage: PlayStage = PlayStage::Opening(stream_params(&config));
            start_open_stream(stage, Source::Input, device, config)
        },
        (PlayStage::Opening(params), PlayEvent::Opened(Ok(_))) => (
            PlayStage::Starting(params),
            PlayAction::StartStream(Source::Input),
        ),
        (PlayStage::Starting(params), PlayEvent::Started(Ok(_))) => {
            let misc: Misc = create_format_misc(
                params.encode_rate,
                params.encode_channels.count(),
            );
            (PlayStage::Done, PlayAction::Playing(misc))
        },
        (PlayStage::MicDevice, PlayEvent::Device(Ok((mic, mic_config)))) => (
            PlayStage::LoopbackDevice { mic, mic_config },
            PlayAction::FindDevice(DeviceRequest::Loopback),
        ),
        (
            PlayStage::LoopbackDevice { mic, mic_config },
            PlayEvent::Device(Ok((loopback, loopback_config))),
        ) => start_open_stream(
            PlayStage::OpeningMic { loopback, loopback_config },
            Source::Input,
            mic,
            mic_config,
        ),
        (
            PlayStage::OpeningMic { loopback, loopback_config },
            PlayEvent::Opened(Ok(_)),
        ) => start_open_stream(
            PlayStage::OpeningLoopback,
            Source::Loopback,
            loopback,
            loopback_config,
        ),
        (PlayStage::OpeningLoopback, PlayEvent::Opened(Ok(_))) => (
            PlayStage::StartingMic,
            PlayAction::StartStream(Source::Input),
        ),
        (PlayStage::StartingMic, PlayEvent::Started(Ok(_))) => (
            PlayStage::StartingLoopback,
            PlayAction::StartStream(Source::Loopback),
        ),
        (PlayStage::StartingLoopback, PlayEvent::Started(Ok(_))) => (
            PlayStage::Done,
            PlayAction::Merged {
                format: AudioFormat { sample_rate: 48000, channels: 2, bits_per_sample: 16 },
                left: Source::Loopback,
                right: Source::Input,
            },
        ),
        _ => vstd::pervasive::unreached(),
    }
}

/// How many actions can still be asked for.
pub open spec fn actions_left(stage: PlayStage) -> nat {
    match stage {
        PlayStage::Device => 3,
        PlayStage::Opening(_) => 2,
        PlayStage::Starting(_) => 1,
        PlayStage::MicDevice => 6,
        PlayStage::LoopbackDevice { .. } => 5,
        PlayStage::OpeningMic { .. } => 4,
        PlayStage::OpeningLoopback => 3,
        PlayStage::StartingMic => 2,
        PlayStage::StartingLoopback => 1,
        PlayStage::Done => 0,
    }
}

/// Every result brings the setting up nearer to its end.
pub proof fn lemma_play_ends<E>(stage: PlayStage, event: PlayEvent<E>)
    requires
        results(stage, event),
    ensures
        actions_left(play_next(stage, event).0) < actions_left(stage),
        play_next(stage, event).0 is Done <==> (play_next(stage, event).1 is Playing || play_next(
            stage,
            event,
        ).1 is Merged || play_next(stage, event).1 is Fail),
{
}

/// Where nothing goes wrong, the only stream is opened on the device that was
/// found, with what that device offers, and its subscribers are told the very rate
/// and number of channels that its encoder is asked for.
pub proof fn lemma_announced_format_is_encoded<E>(
    target: CpalTarget,
    device: Device,
    config: SupportedStreamConfig,
    kind: SampleKind,
)
    requires
        !(target is Windows),
        sample_kind(config.sample_format) == Ok::<SampleKind, UnsupportedFormat>(kind),
    ensures
        ({
            let (s0, _a0) = play_first::<E>(target);
            let (s1, opened) = play_next(s0, PlayEvent::<E>::Device(Ok((device, config))));
            let (s2, _a2) = play_next(s1, PlayEvent::<E>::Opened(Ok(())));
            let (_s3, playing) = play_next(s2, PlayEvent::<E>::Started(Ok(())));
            &&& opened == (PlayAction::<E>::OpenStream {
                source: Source::Input,
                device,
                kind,
                params: params_of(config),
            })
            &&& playing == PlayAction::<E>::Playing(announced(params_of(config)))
        }),
{
}

/// Where nothing goes wrong on Windows, a stream is opened on the microphone and
/// another on the loopback device, each with what its device offers, both are
/// started, and they are merged into a stream of a fixed format, with the loopback
/// device on the left channel and the microphone on the right one.
pub proof fn lemma_windows_merges_two_streams<E>(
    mic: Device,
    mic_config: SupportedStreamConfig,
    mic_kind: SampleKind,
    loopback: Device,
    loopback_config: SupportedStreamConfig,
    loopback_kind: SampleKind,
)
    requires
        sample_kind(mic_config.sample_format) == Ok::<SampleKind, UnsupportedFormat>(mic_kind),
        sample_kind(loopback_config.sample_format) == Ok::<SampleKind, UnsupportedFormat>(
            loopback_kind,
        ),
    ensures
        ({
            let (s0, a0) = play_first::<E>(CpalTarget::Windows);
            let (s1, a1) = play_next(s0, PlayEvent::<E>::Device(Ok((mic, mic_config))));
            let (s2, a2) = play_next(s1, PlayEvent::<E>::Device(Ok((loopback, loopback_config))));
            let (s3, a3) = play_next(s2, PlayEvent::<E>::Opened(Ok(())));
            let (s4, a4) = play_next(s3, PlayEvent::<E>::Opened(Ok(())));
            let (s5, a5) = play_next(s4, PlayEvent::<E>::Started(Ok(())));
            let (_s6, a6) = play_next(s5, PlayEvent::<E>::Started(Ok(())));
            &&& a0 == PlayAction::<E>::FindDevice(DeviceRequest::Mic)
            &&& a1 == PlayAction::<E>::FindDevice(DeviceRequest::Loopback)
            &&& a2 == (PlayAction::<E>::OpenStream {
                source: Source::Input,
                device: mic,
                kind: mic_kind,
                params: params_of(mic_config),
            })
            &&& a3 == (PlayAction::<E>::OpenStream {
                source: Source::Loopback,
                device: loopback,
                kind: loopback_kind,
                params: params_of(loopback_config),
            })
            &&& a4 == PlayAction::<E>::StartStream(Source::Input)
            &&& a5 == PlayAction::<E>::StartStream(Source::Loopback)
            &&& a6 == (PlayAction::<E>::Merged {
                format: merged_format(),
                left: Source::Loopback,
                right: Source::Input,
            })
        }),
{
}

/// Every merged stream has what is played on the system on its left channel and the
/// microphone on its right one, both as far as the shorter packet reaches.
pub proof fn lemma_system_is_left_and_microphone_right<E>(
    stage: PlayStage,
    event: PlayEvent<E>,
    input: AudioPacket,
    loopback: AudioPacket,
)
    requires
        results(stage, event),
        play_next(stage, event).1 is Merged,
    ensures
        ({
            let action = play_next(stage, event).1;
            let data = interleaved(
                packet_of(action->left, input, loopback).data@,
                packet_of(action->right, input, loopback).data@,
            );
            let n = shorter(loopback.data@.len(), input.data@.len());
            &&& channel(data, 0) == loopback.data@.take(n as int)
            &&& channel(data, 1) == input.data@.take(n as int)
        }),
{
    lemma_channels_of_interleaved(loopback.data@, input.data@);
}

/// A device whose samples cannot be converted is never opened.
pub proof fn lemma_unsupported_is_not_opened<E>(device: Device, config: SupportedStreamConfig)
    requires
        config.sample_format is Other,
    ensures
        play_next(PlayStage::Device, PlayEvent::<E>::Device(Ok((device, config)))) == (
            PlayStage::Done,
            PlayAction::<E>::Fail(
                PlayError::Unsupported(
                    UnsupportedFormat { name: config.sample_format->Other_0 },
                ),
            ),
        ),
{
}

/// A stream takes all that a device offers, is encoded as that allows, and is announced
/// with the very rate and number of channels that it is encoded with: one for mono, two
/// for stereo.
pub proof fn lemma_stream_of_device(config: SupportedStreamConfig)
    ensures
        ({
            let params = params_of(config);
            &&& params.device.sample_rate == config.sample_rate
            &&& params.device.channels == config.channels
            &&& params.device.buffer_size is Default
            &&& params.encode_rate == encode_rate(config.sample_rate)
            &&& params.encode_channels is Stereo <==> config.channels >= 2
        }),
{
}

/// A stream is announced with the rate it is encoded at and with one channel where it
/// is encoded as mono and two where it is encoded as stereo.
pub proof fn lemma_announced_channels(params: StreamParams)
    ensures
        announced(params) matches Misc::AudioFormat(format) && {
            &&& format.sample_rate == params.encode_rate
            &&& params.encode_channels is Mono ==> format.channels == 1
            &&& params.encode_channels is Stereo ==> format.channels == 2
        },
{
}

/// The merged stream has two channels of 16 bits at 48000 samples a second.
pub proof fn lemma_merged_format()
    ensures
        merged_format().sample_rate == 48000,
        merged_format().channels == 2,
        merged_format().bits_per_sample == 16,
{
}

/// The packet of a stream is that stream's own.
pub proof fn lemma_packet_of(input: AudioPacket, loopback: AudioPacket)
    ensures
        packet_of(Source::Input, input, loopback) == input,
        packet_of(Source::Loopback, input, loopback) == loopback,
{
}

/// Setting up one stream, whatever comes of its actions: a search that fails ends it
/// with the search's error; a format without a conversion ends it with an error that
/// names the format; else a stream is opened on the device that was found, for the type
/// that the device delivers; where it cannot be opened or started that error is given;
/// else it plays.
pub proof fn lemma_one_stream_outcomes<E>(
    target: CpalTarget,
    found: Result<(Device, SupportedStreamConfig), SearchError<E>>,
    opened: Result<(), E>,
    started: Result<(), E>,
)
    requires
        !(target is Windows),
    ensures
        ({
            let (s0, a0) = play_first::<E>(target);
            let e1 = PlayEvent::<E>::Device(found);
            let (s1, a1) = play_next(s0, e1);
            let e2 = PlayEvent::<E>::Opened(opened);
            let (s2, a2) = play_next(s1, e2);
            let e3 = PlayEvent::<E>::Started(started);
            let (s3, a3) = play_next(s2, e3);
            &&& a0 == PlayAction::<E>::FindDevice(DeviceRequest::Capture(target))
            &&& results(s0, e1)
            &&& match found {
                Err(e) => s1 is Done && a1 == PlayAction::<E>::Fail(PlayError::Search(e)),
                Ok((device, config)) => match sample_kind(config.sample_format) {
                    Err(e) => s1 is Done && a1 == PlayAction::<E>::Fail(PlayError::Unsupported(e)),
                    Ok(kind) => {
                        &&& a1 == (PlayAction::<E>::OpenStream {
                            source: Source::Input,
                            device,
                            kind,
                            params: params_of(config),
                        })
                        &&& results(s1, e2)
                        &&& match opened {
                            Err(e) => s2 is Done && a2 == PlayAction::<E>::Fail(
                                PlayError::Stream(e),
                            ),
                            Ok(_) => {
                                &&& a2 == PlayAction::<E>::StartStream(Source::Input)
                                &&& results(s2, e3)
                                &&& s3 is Done
                                &&& a3 == match started {
                                    Err(e) => PlayAction::<E>::Fail(PlayError::Stream(e)),
                                    Ok(_) => PlayAction::<E>::Playing(
                                        announced(params_of(config)),
                                    ),
                                }
                            },
                        }
                    },
                },
            }
        }),
{
}

/// Finding the two devices on Windows, whatever comes of it: the microphone is looked
/// for first, then the loopback device; a search that fails ends with its error; and the
/// microphone's stream is opened on the microphone unless its format has no conversion.
pub proof fn lemma_two_devices_outcomes<E>(
    mic_found: Result<(Device, SupportedStreamConfig), SearchError<E>>,
    loopback_found: Result<(Device, SupportedStreamConfig), SearchError<E>>,
)
    ensures
        ({
            let (s0, a0) = play_first::<E>(CpalTarget::Windows);
            let e1 = PlayEvent::<E>::Device(mic_found);
            let (s1, a1) = play_next(s0, e1);
            let e2 = PlayEvent::<E>::Device(loopback_found);
            let (s2, a2) = play_next(s1, e2);
            &&& a0 == PlayAction::<E>::FindDevice(DeviceRequest::Mic)
            &&& results(s0, e1)
            &&& match mic_found {
                Err(e) => s1 is Done && a1 == PlayAction::<E>::Fail(PlayError::Search(e)),
                Ok((mic, mic_config)) => {
                    &&& a1 == PlayAction::<E>::FindDevice(DeviceRequest::Loopback)
                    &&& results(s1, e2)
                    &&& match loopback_found {
                        Err(e) => s2 is Done && a2 == PlayAction::<E>::Fail(PlayError::Search(e)),
                        Ok((loopback, loopback_config)) => match sample_kind(
                            mic_config.sample_format,
                        ) {
                            Err(e) => s2 is Done && a2 == PlayAction::<E>::Fail(
                                PlayError::Unsupported(e),
                            ),
                            Ok(kind) => {
                                &&& s2 == (PlayStage::OpeningMic { loopback, loopback_config })
                                &&& a2 == (PlayAction::<E>::OpenStream {
                                    source: Source::Input,
                                    device: mic,
                                    kind,
                                    params: params_of(mic_config),
                                })
                            },
                        },
                    }
                },
            }
        }),
{
}

/// Opening the two streams on Windows, whatever comes of it: once the microphone's is
/// open, the loopback stream is opened on the loopback device unless its format has no
/// conversion; a stream that cannot be opened or started ends with that error; else both
/// are started and merged, with system audio on the left.
pub proof fn lemma_two_streams_outcomes<E>(
    loopback: Device,
    loopback_config: SupportedStreamConfig,
    mic_opened: Result<(), E>,
    loopback_opened: Result<(), E>,
    mic_started: Result<(), E>,
    loopback_started: Result<(), E>,
)
    ensures
        ({
            let s0 = PlayStage::OpeningMic { loopback, loopback_config };
            let e1 = PlayEvent::<E>::Opened(mic_opened);
            let (s1, a1) = play_next(s0, e1);
            let e2 = PlayEvent::<E>::Opened(loopback_opened);
            let (s2, a2) = play_next(s1, e2);
            let e3 = PlayEvent::<E>::Started(mic_started);
            let (s3, a3) = play_next(s2, e3);
            let e4 = PlayEvent::<E>::Started(loopback_started);
            let (s4, a4) = play_next(s3, e4);
            &&& results(s0, e1)
            &&& match (mic_opened, sample_kind(loopback_config.sample_format)) {
                (Err(e), _) => s1 is Done && a1 == PlayAction::<E>::Fail(PlayError::Stream(e)),
                (Ok(_), Err(e)) => s1 is Done && a1 == PlayAction::<E>::Fail(
                    PlayError::Unsupported(e),
                ),
                (Ok(_), Ok(kind)) => {
                    &&& a1 == (PlayAction::<E>::OpenStream {
                        source: Source::Loopback,
                        device: loopback,
                        kind,
                        params: params_of(loopback_config),
                    })
                    &&& results(s1, e2)
                    &&& match loopback_opened {
                        Err(e) => s2 is Done && a2 == PlayAction::<E>::Fail(PlayError::Stream(e)),
                        Ok(_) => {
                            &&& a2 == PlayAction::<E>::StartStream(Source::Input)
                            &&& results(s2, e3)
                            &&& match mic_started {
                                Err(e) => s3 is Done && a3 == PlayAction::<E>::Fail(
                                    PlayError::Stream(e),
                                ),
                                Ok(_) => {
                                    &&& a3 == PlayAction::<E>::StartStream(Source::Loopback)
                                    &&& results(s3, e4)
                                    &&& s4 is Done
                                    &&& a4 == match loopback_started {
                                        Err(e) => PlayAction::<E>::Fail(PlayError::Stream(e)),
                                        Ok(_) => PlayAction::<E>::Merged {
                                            format: merged_format(),
                                            left: Source::Loopback,
                                            right: Source::Input,
                                        },
                                    }
                                },
                            }
                        },
                    }
                },
            }
        }),
{
}

} // verus!
