//! A capture stream: from what the device delivers to frames for the encoder.

use vstd::prelude::*;

use crate::buffer::{frames, frames_view, remainder};
use crate::convert::DeviceSamples;
use crate::encode::{calls_view, send_f32, sent_calls, EncodeCall};
use crate::format::{BufferSize, Channels, StreamConfig};
use crate::gate::gate_count;
use crate::sample::{all_silent, Sample};
use crate::state::AudioState;
use crate::target::{CpalTarget, Target};

verus! {

/// A stream from a device to the encoder.
#[derive(Clone, Copy, Debug, PartialEq, Eq, Structural)]
pub struct StreamParams {
    /// What the device delivers.
    pub device: StreamConfig,
    /// Rate that is encoded at.
    pub encode_rate: u32,
    /// Layout that is encoded with.
    pub encode_channels: Channels,
}

/// What an encoder is tuned for.
#[derive(Clone, Copy, Debug, PartialEq, Eq, Structural)]
pub enum Application {
    /// Speech.
    Voip,
    /// Closeness to the input.
    Audio,
    /// The lowest delay.
    LowDelay,
}

/// What an encoder is created with.
#[derive(Clone, Copy, Debug, PartialEq, Eq, Structural)]
pub struct EncoderRequest {
    pub sample_rate: u32,
    pub channels: Channels,
    pub application: Application,
}

/// What a capture stream is opened with once its encoder exists.
#[derive(Clone, Copy, Debug, PartialEq, Eq, Structural)]
pub struct OpenStream {
    pub config: StreamConfig,
    /// Milliseconds to wait for the device, where there is a limit.
    pub timeout_ms: Option<u64>,
    /// Number of device samples that make up one frame.
    pub frame_len: usize,
}

/// Number of sample times in ten milliseconds.
pub open spec fn frame_size(sample_rate: u32) -> nat {
    sample_rate as nat / 100
}

impl StreamParams {
    /// Number of samples of an encoded frame at the device's rate.
    pub open spec fn encode_len(self) -> nat {
        frame_size(self.device.sample_rate) * (self.encode_channels.channel_count() as nat)
    }

    /// Number of device samples that make up one frame.
    pub open spec fn rechannel_len(self) -> nat {
        self.encode_len() * (self.device.channels as nat) / (
        self.encode_channels.channel_count() as nat)
    }

    /// The lengths can be computed in a machine word.
    pub open spec fn lengths_fit(self) -> bool {
        self.encode_len() * (self.device.channels as nat) <= usize::MAX
    }

    /// Whether the lengths can be computed in a machine word.
    pub fn fits(&self) -> (fit: bool)
        ensures
            fit == self.lengths_fit(),
    {
        let size: u64 = (self.device.sample_rate / 100) as u64;
        let channels: u64 = self.encode_channels.count() as u64;
        let device_channels: u64 = self.device.channels as u64;
        assert(size * channels <= 0x1_0000_0000) by (nonlinear_arith)
            requires
                size <= 0x8000_0000,
                channels <= 2,
        ;
        let encode_len: u64 = size * channels;
        assert(encode_len * device_channels <= 0x1_0000_0000 * 0x1_0000) by (nonlinear_arith)
            requires
                encode_len <= 0x1_0000_0000,
                device_channels <= 0x1_0000,
        ;
        encode_len * device_channels <= usize::MAX as u64
    }

    /// Number of device samples that make up one frame.
    pub fn frame_len(&self) -> (len: usize)
        requires
            self.lengths_fit(),
        ensures
            len == self.rechannel_len(),
    {
        let size: usize = self.device.sample_rate as usize / 100;
        let channels: usize = self.encode_channels.count() as usize;
        let encode_len: usize = size * channels;
        encode_len * self.device.channels as usize / channels
    }
}

/// A frame is ten milliseconds of what the device delivers: as many samples for
/// each of the device's channels as its rate has in that time.
pub proof fn lemma_frame_is_ten_milliseconds(params: StreamParams)
    ensures
        params.rechannel_len() == frame_size(params.device.sample_rate) * (
        params.device.channels as nat),
{
    let size = frame_size(params.device.sample_rate) as int;
    let k = params.encode_channels.channel_count() as int;
    let d = params.device.channels as int;
    assert((size * k) * d / k == size * d) by (nonlinear_arith)
        requires
            k == 1 || k == 2,
    ;
}

/// Starts building a stream: the noise gate is reset, and an encoder is asked for.
pub fn build_input_stream(state: &mut AudioState, params: &StreamParams) -> (request:
    EncoderRequest)
    ensures
        request.sample_rate == params.encode_rate,
        request.channels == params.encode_channels,
        request.application == Application::LowDelay,
        final(state).gate@ == 0,
        *final(state) == (AudioState { gate: final(state).gate, ..*old(state) }),
{
    state.gate.reset();
    EncoderRequest {
        sample_rate: params.encode_rate,
        channels: params.encode_channels,
        application: Application::LowDelay,
    }
}

/// Goes on once the encoder was created: drops what an earlier stream left in the
/// capture buffer, and tells what to open the stream with, which is the device's own
/// buffer size and no time limit. Where no encoder could be created the stream is
/// not opened, and the buffer stays as it is.
pub fn input_stream_with_encoder<E>(
    state: &mut AudioState,
    params: &StreamParams,
    encoder: Result<(), E>,
) -> (stream: Result<OpenStream, E>)
    requires
        encoder is Ok ==> params.lengths_fit(),
    ensures
        match encoder {
            Ok(_) => {
                &&& stream matches Ok(open)
                &&& open.config == (StreamConfig {
                    buffer_size: BufferSize::Default,
                    ..params.device
                })
                &&& open.timeout_ms is None
                &&& open.frame_len == params.rechannel_len()
                &&& final(state).input_buffer@ == Seq::<Sample>::empty()
                &&& *final(state) == (AudioState {
                    input_buffer: final(state).input_buffer,
                    ..*old(state)
                })
            },
            Err(e) => stream == Err::<OpenStream, E>(e) && *final(state) == *old(state),
        },
{
    match encoder {
        Ok(_) => {
            let frame_len: usize = params.frame_len();
            state.input_buffer.clear();
            let config: StreamConfig = StreamConfig {
                channels: params.device.channels,
                sample_rate: params.device.sample_rate,
                buffer_size: BufferSize::Default,
            };
            Ok(OpenStream { config, timeout_ms: None, frame_len })
        },
        Err(e) => Err(e),
    }
}

/// Takes in what the device delivered, and gives all frames that are now complete.
/// A frame of no samples would never be complete.
pub fn on_input(state: &mut AudioState, frame_len: usize, raw: &DeviceSamples) -> (ready: Vec<
    Vec<Sample>,
>)
    requires
        frame_len > 0,
    ensures
        frames_view(ready@) == frames(
            old(state).input_buffer@ + raw.singles(),
            frame_len as nat,
        ),
        final(state).input_buffer@ == remainder(
            old(state).input_buffer@ + raw.singles(),
            frame_len as nat,
        ),
        *final(state) == (AudioState { input_buffer: final(state).input_buffer, ..*old(state) }),
{
    let samples: Vec<Sample> = raw.to_samples();
    state.input_buffer.extend(samples.as_slice());
    state.input_buffer.take_frames(frame_len)
}

/// How far a captured frame has come on its way to the encoder.
#[derive(Clone, Copy, Debug, PartialEq, Eq, Structural)]
pub enum SendStage {
    Captured,
    Resampled,
    Rechanneled,
}

/// What is done next with a captured frame.
#[derive(Debug, PartialEq, Eq)]
pub enum SendAction {
    /// Change its rate.
    Resample { data: Vec<Sample>, from_rate: u32, to_rate: u32, channels: u16 },
    /// Change its number of channels.
    Rechannel {
        data: Vec<Sample>,
        from_rate: u32,
        to_rate: u32,
        from_channels: u16,
        to_channels: u16,
    },
    /// Make these calls to the encoder.
    Encode(Vec<EncodeCall>),
}

/// The frame has still to be brought to the encoder's rate.
pub open spec fn needs_resample(params: StreamParams, stage: SendStage) -> bool {
    stage is Captured && params.device.sample_rate != params.encode_rate
}

/// The frame has still to be brought to the encoder's layout, and has its rate.
pub open spec fn needs_rechannel(params: StreamParams, stage: SendStage) -> bool {
    &&& !needs_resample(params, stage)
    &&& !(stage is Rechanneled)
    &&& params.device.channels != params.encode_channels.channel_count()
}

/// Decides what is done next with a captured frame. The rate is changed first,
/// then the number of channels, each only where it differs from the encoder's;
/// then the frame passes the noise gate and is encoded.
pub fn send(
    state: &mut AudioState,
    params: &StreamParams,
    stage: SendStage,
    data: Vec<Sample>,
) -> (action: SendAction)
    requires
        !needs_resample(*params, stage) && !needs_rechannel(*params, stage) ==> data@.len() * 6
            <= usize::MAX,
    ensures
        if needs_resample(*params, stage) {
            &&& action == (SendAction::Resample {
                data,
                from_rate: params.device.sample_rate,
                to_rate: params.encode_rate,
                channels: params.device.channels,
            })
            &&& *final(state) == *old(state)
        } else if needs_rechannel(*params, stage) {
            &&& action == (SendAction::Rechannel {
                data,
                from_rate: params.encode_rate,
                to_rate: params.encode_rate,
                from_channels: params.device.channels,
                to_channels: params.encode_channels.channel_count(),
            })
            &&& *final(state) == *old(state)
        } else {
            &&& action matches SendAction::Encode(calls)
            &&& calls_view(calls@) == sent_calls(
                Target::Cpal(CpalTarget::Other),
                old(state).gate@,
                data@,
            )
            &&& final(state).gate@ == gate_count(old(state).gate@, all_silent(data@))
            &&& *final(state) == (AudioState { gate: final(state).gate, ..*old(state) })
        },
        action is Encode ==> {
            &&& stage is Captured ==> params.device.sample_rate == params.encode_rate
            &&& !(stage is Rechanneled) ==> params.device.channels
                == params.encode_channels.channel_count()
        },
        action is Resample ==> params.device.sample_rate != params.encode_rate,
        action is Rechannel ==> params.device.channels != params.encode_channels.channel_count(),
{
    let encode_channel: u16 = params.encode_channels.count();
    if matches!(stage, SendStage::Captured) && params.device.sample_rate != params.encode_rate {
        return SendAction::Resample {
            data,
            from_rate: params.device.sample_rate,
            to_rate: params.encode_rate,
            channels: params.device.channels,
        };
    }
    if !matches!(stage, SendStage::Rechanneled) && params.device.channels != encode_channel {
        return SendAction::Rechannel {
            data,
            from_rate: params.encode_rate,
            to_rate: params.encode_rate,
            from_channels: params.device.channels,
            to_channels: encode_channel,
        };
    }
    SendAction::Encode(
        send_f32(Target::Cpal(CpalTarget::Other), &mut state.gate, data.as_slice()),
    )
}

/// A frame that already has the encoder's rate and layout is not converted.
pub proof fn lemma_matching_frame_is_not_converted(params: StreamParams, stage: SendStage)
    requires
        params.device.sample_rate == params.encode_rate,
        params.device.channels == params.encode_channels.channel_count(),
    ensures
        !needs_resample(params, stage),
        !needs_rechannel(params, stage),
{
}

/// A frame is converted at most once each way, the rate before the channels, and
/// is then ready to be encoded.
pub proof fn lemma_conversions_end(params: StreamParams)
    ensures
        needs_resample(params, SendStage::Captured) <==> params.device.sample_rate
            != params.encode_rate,
        !needs_resample(params, SendStage::Resampled),
        needs_rechannel(params, SendStage::Resampled) <==> params.device.channels
            != params.encode_channels.channel_count(),
        !needs_resample(params, SendStage::Rechanneled),
        !needs_rechannel(params, SendStage::Rechanneled),
{
}

/// A frame is ten milliseconds: a hundred of them are the device's rate, but for what
/// does not make up a whole sample time.
pub proof fn lemma_hundred_frames_are_a_second(sample_rate: u32)
    ensures
        100 * frame_size(sample_rate) <= sample_rate < 100 * frame_size(sample_rate) + 100,
{
}

/// A hundred frames hold all that the device delivers in a second on all its channels,
/// and exactly that where its rate is a multiple of a hundred.
pub proof fn lemma_frames_fill_a_second(params: StreamParams)
    ensures
        100 * params.rechannel_len() <= params.device.sample_rate * params.device.channels,
        params.device.sample_rate * params.device.channels <= 100 * params.rechannel_len() + 99
            * params.device.channels,
        params.device.sample_rate % 100 == 0 ==> 100 * params.rechannel_len()
            == params.device.sample_rate * params.device.channels,
{
    lemma_frame_is_ten_milliseconds(params);
    lemma_hundred_frames_are_a_second(params.device.sample_rate);
    let f = frame_size(params.device.sample_rate) as int;
    let r = params.device.sample_rate as int;
    let d = params.device.channels as int;
    assert(100 * (f * d) <= r * d && r * d <= 100 * (f * d) + 99 * d) by (nonlinear_arith)
        requires
            100 * f <= r < 100 * f + 100,
            0 <= d,
    ;
    if params.device.sample_rate % 100 == 0 {
        assert(r == 100 * f);
        assert(100 * (f * d) == r * d) by (nonlinear_arith)
            requires
                r == 100 * f,
        ;
    }
}

/// The lengths fit where the longest product does: ten milliseconds of the device's
/// rate, for each encoded channel, for each device channel.
pub proof fn lemma_lengths_fit(params: StreamParams)
    ensures
        params.encode_len() == match params.encode_channels {
            Channels::Mono => params.device.sample_rate as int / 100,
            Channels::Stereo => 2 * (params.device.sample_rate as int / 100),
        },
        params.lengths_fit() <==> params.encode_len() * params.device.channels <= usize::MAX,
{
}

/// A frame is converted exactly as long as it does not have what the encoder takes. It
/// has the device's rate until it is resampled and the device's channels until it is
/// rechanneled; the rate is changed before the channels; and what is encoded has the
/// encoder's rate and number of channels.
pub proof fn lemma_encoded_frames_have_encoder_format(params: StreamParams, stage: SendStage)
    ensures
        ({
            let wanted: int = match params.encode_channels {
                Channels::Mono => 1,
                Channels::Stereo => 2,
            };
            let rate = match stage {
                SendStage::Captured => params.device.sample_rate,
                SendStage::Resampled => params.encode_rate,
                SendStage::Rechanneled => params.encode_rate,
            };
            let channels: int = match stage {
                SendStage::Captured => params.device.channels as int,
                SendStage::Resampled => params.device.channels as int,
                SendStage::Rechanneled => wanted,
            };
            &&& needs_resample(params, stage) <==> rate != params.encode_rate
            &&& needs_rechannel(params, stage) <==> rate == params.encode_rate && channels != wanted
        }),
{
}

} // verus!
