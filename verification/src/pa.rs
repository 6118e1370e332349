//! The service where audio comes from the system's audio service as raw packets.
//!
//! Connecting, reading packets, encoding and sending is outside work. Each result
//! decides what is done next.

use vstd::prelude::*;

use crate::encode::{calls_view, send_f32, sent_calls, EncodeCall};
use crate::format::Channels;
use crate::gate::gate_count;
use crate::message::{create_format_msg, format_msg, Message, Misc};
use crate::sample::{
    all_silent, decoded, samples_from_bytes, zero_frame, zeros, ByteOrder, Sample, SAMPLE_SIZE_U8,
};
use crate::state::{audio_input, get_audio_input, AudioState};
use crate::stream::{Application, EncoderRequest};
use crate::target::{PaTarget, Target};

verus! {

/// Number of bytes of a packet: ten milliseconds of stereo at 48000 samples a
/// second.
pub const AUDIO_DATA_SIZE_U8: usize = 960 * 4;

/// Milliseconds to wait for the audio service, at first and when it has nothing.
pub const PAUSE_MS: u64 = 100;

/// Milliseconds in which a connection has to be made.
pub const CONNECT_TIMEOUT_MS: u64 = 1000;

/// Name of the connection to the audio service.
pub const CONNECTION: &'static str = "_pa";

/// Name of the option that holds the configured input device.
pub const INPUT_OPTION: &'static str = "audio-input";

/// What the service runs with.
#[derive(Clone, Copy, Debug, PartialEq, Eq, Structural)]
pub struct PaSetup {
    pub target: PaTarget,
    /// Rate at which the audio service delivers.
    pub sample_rate: u32,
    /// Byte order of the machine.
    pub byte_order: ByteOrder,
}

/// What is done next.
#[derive(Debug, PartialEq, Eq)]
pub enum PaAction<E> {
    Sleep { millis: u64 },
    Connect { timeout_ms: u64, name: &'static str },
    CreateEncoder(EncoderRequest),
    ReadOption { key: &'static str },
    /// Tell the audio service an option. Whether that succeeds makes no difference.
    SendOption { key: &'static str, value: String },
    /// Ask whether the service may go on.
    CheckService,
    /// Take a snapshot of the subscribers, and send the new ones a message.
    Snapshot(Message),
    /// Wait for a packet from the connection.
    NextPacket,
    /// Look for audio without waiting.
    PollAudio,
    /// Make these calls to the encoder.
    Encode(Vec<EncodeCall>),
    /// The service ends.
    Finish(Result<(), E>),
}

/// What came of the last action.
#[derive(Debug, PartialEq, Eq)]
pub enum PaEvent<E> {
    Slept,
    Connected(Result<(), E>),
    EncoderCreated(Result<(), E>),
    OptionRead(String),
    OptionSent,
    Service(bool),
    SnapshotTaken(Result<(), E>),
    Packet(Result<Vec<u8>, E>),
    Audio(Option<Vec<u8>>),
    Encoded,
}

/// Where the service stands: the action that was asked for last.
#[derive(Clone, Copy, Debug, PartialEq, Eq, Structural)]
pub enum PaStage {
    Waiting,
    Connecting,
    Creating,
    ReadingOption,
    SendingOption,
    Checking,
    Announcing,
    Reading,
    Encoding,
    Pausing,
    Done,
}

/// The result is one of the action that was asked for.
pub open spec fn pa_follows<E>(target: PaTarget, stage: PaStage, event: PaEvent<E>) -> bool {
    match stage {
        PaStage::Waiting | PaStage::Pausing => event is Slept,
        PaStage::Connecting => event is Connected,
        PaStage::Creating => event is EncoderCreated,
        PaStage::ReadingOption => event is OptionRead,
        PaStage::SendingOption => event is OptionSent,
        PaStage::Checking => event is Service,
        PaStage::Announcing => event is SnapshotTaken,
        PaStage::Reading => match target {
            PaTarget::Linux => event is Packet,
            PaTarget::Android => event is Audio,
        },
        PaStage::Encoding => event is Encoded,
        PaStage::Done => false,
    }
}

/// The samples that a packet stands for. An empty packet stands for a whole packet
/// of silence. A packet of any other length than a whole one is dropped.
pub open spec fn packet_samples(data: Seq<u8>, order: ByteOrder) -> Option<Seq<Sample>> {
    if data.len() == 0 {
        Some(zeros((AUDIO_DATA_SIZE_U8 / SAMPLE_SIZE_U8) as nat))
    } else if data.len() == AUDIO_DATA_SIZE_U8 {
        Some(decoded(data, order))
    } else {
        None
    }
}

/// The samples that were read, if any are to be sent.
pub open spec fn read_samples<E>(order: ByteOrder, event: PaEvent<E>) -> Option<Seq<Sample>> {
    match event {
        PaEvent::Packet(Ok(data)) => packet_samples(data@, order),
        PaEvent::Audio(Some(data)) => Some(decoded(data@, order)),
        _ => None,
    }
}

/// Asks for the encoder: a stereo one of low delay at the rate of the audio service.
pub open spec fn create_encoder<E>(setup: PaSetup) -> (PaStage, PaAction<E>) {
    (
        PaStage::Creating,
        PaAction::CreateEncoder(
            EncoderRequest {
                sample_rate: setup.sample_rate,
                channels: Channels::Stereo,
                application: Application::LowDelay,
            },
        ),
    )
}

/// Asks whether the service may go on.
pub open spec fn check_service<E>() -> (PaStage, PaAction<E>) {
    (PaStage::Checking, PaAction::CheckService)
}

/// Ends the service.
pub open spec fn finish<E>(result: Result<(), E>) -> (PaStage, PaAction<E>) {
    (PaStage::Done, PaAction::Finish(result))
}

/// What a result leads to where it neither brings samples to send nor the
/// configured input device.
pub open spec fn pa_next<E>(
    setup: PaSetup,
    restarting: bool,
    stage: PaStage,
    event: PaEvent<E>,
) -> (PaStage, PaAction<E>) {
    match (stage, event) {
        (PaStage::Waiting, _) => match setup.target {
            PaTarget::Linux => (
                PaStage::Connecting,
                PaAction::Connect { timeout_ms: CONNECT_TIMEOUT_MS, name: CONNECTION },
            ),
            PaTarget::Android => create_encoder(setup),
        },
        (_, PaEvent::Connected(Ok(_))) => create_encoder(setup),
        (_, PaEvent::Connected(Err(e))) => finish(Err(e)),
        (_, PaEvent::EncoderCreated(Ok(_))) => match setup.target {
            PaTarget::Linux => (
                PaStage::ReadingOption,
                PaAction::ReadOption { key: INPUT_OPTION },
            ),
            PaTarget::Android => check_service(),
        },
        (_, PaEvent::EncoderCreated(Err(e))) => finish(Err(e)),
        (_, PaEvent::Service(ok)) => if ok && !restarting {
            (PaStage::Announcing, PaAction::Snapshot(format_msg(setup.sample_rate, 2)))
        } else {
            finish(Ok(()))
        },
        (_, PaEvent::SnapshotTaken(Ok(_))) => (
            PaStage::Reading,
            match setup.target {
                PaTarget::Linux => PaAction::NextPacket,
                PaTarget::Android => PaAction::PollAudio,
            },
        ),
        (_, PaEvent::SnapshotTaken(Err(e))) => finish(Err(e)),
        (_, PaEvent::Audio(None)) => (PaStage::Pausing, PaAction::Sleep { millis: PAUSE_MS }),
        _ => check_service(),
    }
}

/// Starts the service, which gives the audio service a moment to come up.
pub fn run<E>() -> (first: (PaStage, PaAction<E>))
    ensures
        first == (PaStage::Waiting, PaAction::<E>::Sleep { millis: PAUSE_MS }),
{
    (PaStage::Waiting, PaAction::Sleep { millis: PAUSE_MS })
}

fn start_create_encoder<E>(state: &mut AudioState, setup: &PaSetup) -> (next: (
    PaStage,
    PaAction<E>,
))
    ensures
        next == create_encoder::<E>(*setup),
        final(state).gate@ == 0,
        *final(state) == (AudioState { gate: final(state).gate, ..*old(state) }),
{
    state.gate.reset();
    (
        PaStage::Creating,
        PaAction::CreateEncoder(
            EncoderRequest {
                sample_rate: setup.sample_rate,
                channels: Channels::Stereo,
                application: Application::LowDelay,
            },
        ),
    )
}

fn start_encode<E>(state: &mut AudioState, setup: &PaSetup, data: &[Sample]) -> (next: (
    PaStage,
    PaAction<E>,
))
    requires
        setup.target is Android || data@.len() <= AUDIO_DATA_SIZE_U8,
    ensures
        next.0 is Encoding,
        next.1 matches PaAction::Encode(calls) && calls_view(calls@) == sent_calls(
            Target::Pa(setup.target),
            old(state).gate@,
            data@,
        ),
        final(state).gate@ == gate_count(old(state).gate@, all_silent(data@)),
        *final(state) == (AudioState { gate: final(state).gate, ..*old(state) }),
{
    let calls: Vec<EncodeCall> = send_f32(Target::Pa(setup.target), &mut state.gate, data);
    (PaStage::Encoding, PaAction::Encode(calls))
}

/// Goes on with the service: takes the result of the last action, and gives the
/// next one.
///
/// The request to restart is cleared once the first wait is over, and ends the
/// service when it is asked whether it may go on. The noise gate is reset when the
/// encoder is asked for.
pub fn run_step<E>(
    state: &mut AudioState,
    setup: &PaSetup,
    stage: PaStage,
    event: PaEvent<E>,
) -> (next: (PaStage, PaAction<E>))
    requires
        pa_follows(setup.target, stage, event),
    ensures
        match (event, read_samples(setup.byte_order, event)) {
            (_, Some(samples)) => {
                &&& next.0 is Encoding
                &&& next.1 matches PaAction::Encode(calls)
                &&& calls_view(calls@) == sent_calls(
                    Target::Pa(setup.target),
                    old(state).gate@,
                    samples,
                )
                &&& final(state).gate@ == gate_count(old(state).gate@, all_silent(samples))
            },
            (PaEvent::OptionRead(configured), None) => {
                &&& next.0 is SendingOption
                &&& next.1 matches PaAction::SendOption { key, value }
                &&& key == INPUT_OPTION
                &&& value@ == audio_input(old(state).voice_call_device(), configured@)
                &&& final(state).gate@ == old(state).gate@
            },
            (_, None) => {
                &&& next == pa_next(*setup, old(state).restarting, stage, event)
                &&& final(state).gate@ == if next.1 is CreateEncoder {
                    0
                } else {
                    old(state).gate@
                }
            },
        },
        final(state).restarting == (old(state).restarting && !(stage is Waiting)),
        *final(state) == (AudioState {
            restarting: final(state).restarting,
            gate: final(state).gate,
            ..*old(state)
        }),
{
    match (stage, event) {
        (PaStage::Waiting, _) => {
            state.restarting = false;
            match setup.target {
                PaTarget::Linux => (
                    PaStage::Connecting,
                    PaAction::Connect { timeout_ms: CONNECT_TIMEOUT_MS, name: CONNECTION },
                ),
                PaTarget::Android => start_create_encoder(state, setup),
            }
        },
        (_, PaEvent::Connected(Ok(_))) => start_create_encoder(state, setup),
        (_, PaEvent::Connected(Err(e))) => (PaStage::Done, PaAction::Finish(Err(e))),
        (_, PaEvent::EncoderCreated(Ok(_))) => match setup.target {
            PaTarget::Linux => (
                PaStage::ReadingOption,
                PaAction::ReadOption { key: INPUT_OPTION },
            ),
            PaTarget::Android => (PaStage::Checking, PaAction::CheckService),
        },
        (_, PaEvent::EncoderCreated(Err(e))) => (PaStage::Done, PaAction::Finish(Err(e))),
        (_, PaEvent::OptionRead(configured)) => {
            let value: String = get_audio_input(state, configured);
            (PaStage::SendingOption, PaAction::SendOption { key: INPUT_OPTION, value })
        },
        (_, PaEvent::Service(ok)) => {
            if ok && !state.restarting {
                (PaStage::Announcing, PaAction::Snapshot(create_format_msg(setup.sample_rate, 2)))
            } else {
                (PaStage::Done, PaAction::Finish(Ok(())))
            }
        },
        (_, PaEvent::SnapshotTaken(Ok(_))) => match setup.target {
            PaTarget::Linux => (PaStage::Reading, PaAction::NextPacket),
            PaTarget::Android => (PaStage::Reading, PaAction::PollAudio),
        },
        (_, PaEvent::SnapshotTaken(Err(e))) => (PaStage::Done, PaAction::Finish(Err(e))),
        (_, PaEvent::Packet(Ok(data))) => {
            if data.len() == 0 {
                let frame: Vec<Sample> = zero_frame(AUDIO_DATA_SIZE_U8 / SAMPLE_SIZE_U8);
                start_encode(state, setup, frame.as_slice())
            } else if data.len() != AUDIO_DATA_SIZE_U8 {
                (PaStage::Checking, PaAction::CheckService)
            } else {
                let samples: Vec<Sample> = samples_from_bytes(data.as_slice(), setup.byte_order);
                start_encode(state, setup, samples.as_slice())
            }
        },
        (_, PaEvent::Audio(Some(data))) => {
            let samples: Vec<Sample> = samples_from_bytes(data.as_slice(), setup.byte_order);
            start_encode(state, setup, samples.as_slice())
        },
        (_, PaEvent::Audio(None)) => (PaStage::Pausing, PaAction::Sleep { millis: PAUSE_MS }),
        _ => (PaStage::Checking, PaAction::CheckService),
    }
}

/// A request to restart ends the service at the next check, even if the service
/// might go on.
pub proof fn lemma_restart_ends_service<E>(setup: PaSetup, ok: bool)
    ensures
        pa_next(setup, true, PaStage::Checking, PaEvent::<E>::Service(ok)) == finish::<E>(Ok(())),
{
}

/// An empty packet is silence: it is counted by the noise gate as a packet of zero
/// bytes is.
pub proof fn lemma_empty_packet_is_silence(order: ByteOrder)
    ensures
        packet_samples(Seq::empty(), order) matches Some(samples) && all_silent(samples)
            && samples.len() == AUDIO_DATA_SIZE_U8 / SAMPLE_SIZE_U8,
{
}

/// Every packet that is not dropped gives a frame of the same length.
pub proof fn lemma_packet_frame_length(data: Seq<u8>, order: ByteOrder)
    ensures
        packet_samples(data, order) is Some <==> data.len() == 0 || data.len()
            == AUDIO_DATA_SIZE_U8,
        packet_samples(data, order) matches Some(samples) ==> samples.len() == AUDIO_DATA_SIZE_U8
            / SAMPLE_SIZE_U8,
{
}

/// Subscribers are told the very rate and number of channels that the encoder is
/// asked for.
pub proof fn lemma_pa_announced_format_is_encoded<E>(setup: PaSetup)
    ensures
        create_encoder::<E>(setup).1 matches PaAction::CreateEncoder(request) && pa_next(
            setup,
            false,
            PaStage::Checking,
            PaEvent::<E>::Service(true),
        ).1 == PaAction::<E>::Snapshot(
            format_msg(request.sample_rate, request.channels.channel_count()),
        ),
{
}

/// The service ends only with an error of the outside work, or because it may not
/// go on, or because a restart is asked for. A packet, read or not, never ends it.
pub proof fn lemma_service_goes_on<E>(
    setup: PaSetup,
    restarting: bool,
    stage: PaStage,
    event: PaEvent<E>,
)
    requires
        pa_follows(setup.target, stage, event),
        pa_next(setup, restarting, stage, event).1 is Finish,
    ensures
        match event {
            PaEvent::Connected(Err(_)) => true,
            PaEvent::EncoderCreated(Err(_)) => true,
            PaEvent::SnapshotTaken(Err(_)) => true,
            PaEvent::Service(ok) => !ok || restarting,
            _ => false,
        },
{
}

/// What a packet stands for, over every packet: an empty one for 960 samples of zero,
/// one of 3840 bytes for its samples, any other for nothing.
pub proof fn lemma_packet_meaning(data: Seq<u8>, order: ByteOrder)
    ensures
        match packet_samples(data, order) {
            None => data.len() != 0 && data.len() != 3840,
            Some(samples) => {
                &&& samples.len() == 960
                &&& data.len() == 0 || data.len() == 3840
                &&& data.len() == 0 ==> forall|i: int|
                    0 <= i < 960 ==> (#[trigger] samples[i]).bits == 0
                &&& data.len() == 3840 ==> samples == decoded(data, order)
            },
        },
{
}

/// What was read is sent exactly where it stands for samples: packets as above, all
/// audio that was found, and nothing else.
pub proof fn lemma_read_meaning<E>(order: ByteOrder, event: PaEvent<E>)
    ensures
        match event {
            PaEvent::Packet(Ok(data)) => read_samples(order, event) == packet_samples(data@, order),
            PaEvent::Audio(Some(data)) => read_samples(order, event) == Some(decoded(data@, order)),
            _ => read_samples(order, event) is None,
        },
{
}

/// Starting up on Linux, whatever comes of it: a connection is made, then a stereo
/// encoder of low delay at the audio service's rate is asked for, then the configured
/// input device is read; an error on the way ends the service with it.
pub proof fn lemma_linux_start<E>(
    setup: PaSetup,
    restarting: bool,
    connected: Result<(), E>,
    created: Result<(), E>,
)
    requires
        setup.target is Linux,
    ensures
        ({
            let e0 = PaEvent::<E>::Slept;
            let (s1, a1) = pa_next(setup, restarting, PaStage::Waiting, e0);
            let e1 = PaEvent::<E>::Connected(connected);
            let (s2, a2) = pa_next(setup, restarting, s1, e1);
            let e2 = PaEvent::<E>::EncoderCreated(created);
            let (s3, a3) = pa_next(setup, restarting, s2, e2);
            &&& pa_follows(setup.target, PaStage::Waiting, e0)
            &&& a1 == (PaAction::<E>::Connect { timeout_ms: 1000, name: CONNECTION })
            &&& pa_follows(setup.target, s1, e1)
            &&& match connected {
                Err(e) => s2 is Done && a2 == PaAction::<E>::Finish(Err(e)),
                Ok(_) => {
                    &&& a2 matches PaAction::CreateEncoder(request)
                    &&& request.sample_rate == setup.sample_rate
                    &&& request.channels is Stereo
                    &&& request.application is LowDelay
                    &&& pa_follows(setup.target, s2, e2)
                    &&& match created {
                        Err(e) => s3 is Done && a3 == PaAction::<E>::Finish(Err(e)),
                        Ok(_) => {
                            &&& s3 is ReadingOption
                            &&& a3 == (PaAction::<E>::ReadOption { key: INPUT_OPTION })
                        },
                    }
                },
            }
        }),
{
}

/// Starting up on Android: no connection is made and no option is read; the encoder is
/// asked for at once, and then whether the service may go on.
pub proof fn lemma_android_start<E>(setup: PaSetup, restarting: bool, created: Result<(), E>)
    requires
        setup.target is Android,
    ensures
        ({
            let e0 = PaEvent::<E>::Slept;
            let (s1, a1) = pa_next(setup, restarting, PaStage::Waiting, e0);
            let e1 = PaEvent::<E>::EncoderCreated(created);
            let (s2, a2) = pa_next(setup, restarting, s1, e1);
            &&& pa_follows(setup.target, PaStage::Waiting, e0)
            &&& a1 matches PaAction::CreateEncoder(request)
            &&& request.sample_rate == setup.sample_rate
            &&& request.channels is Stereo
            &&& request.application is LowDelay
            &&& pa_follows(setup.target, s1, e1)
            &&& match created {
                Err(e) => s2 is Done && a2 == PaAction::<E>::Finish(Err(e)),
                Ok(_) => s2 is Checking && a2 is CheckService,
            }
        }),
{
}

/// Going on, whatever comes of it: where the service may go on and no restart is asked
/// for, new subscribers are told the audio service's rate and two channels, and then
/// audio is read, by waiting for a packet on Linux and by looking for it on Android. Else
/// the service ends.
pub proof fn lemma_round_outcomes<E>(
    setup: PaSetup,
    restarting: bool,
    ok: bool,
    taken: Result<(), E>,
)
    ensures
        ({
            let e0 = PaEvent::<E>::Service(ok);
            let (s1, a1) = pa_next(setup, restarting, PaStage::Checking, e0);
            let e1 = PaEvent::<E>::SnapshotTaken(taken);
            let (s2, a2) = pa_next(setup, restarting, s1, e1);
            &&& pa_follows(setup.target, PaStage::Checking, e0)
            &&& if ok && !restarting {
                &&& a1 matches PaAction::Snapshot(Message::Misc(Misc::AudioFormat(format)))
                &&& format.sample_rate == setup.sample_rate
                &&& format.channels == 2
                &&& pa_follows(setup.target, s1, e1)
                &&& match taken {
                    Err(e) => s2 is Done && a2 == PaAction::<E>::Finish(Err(e)),
                    Ok(_) => {
                        &&& s2 is Reading
                        &&& setup.target is Linux ==> a2 is NextPacket
                        &&& setup.target is Android ==> a2 is PollAudio
                    },
                }
            } else {
                s1 is Done && a1 == PaAction::<E>::Finish(Ok(()))
            }
        }),
{
}

/// After a packet that is dropped or lost, after audio was encoded, after a pause and
/// after the option was sent, it is asked whether the service may go on. Where no audio
/// was found there is a pause of 100 milliseconds first.
pub proof fn lemma_back_to_the_check<E>(setup: PaSetup, restarting: bool, lost: E, data: Vec<u8>)
    ensures
        pa_next(setup, restarting, PaStage::Encoding, PaEvent::<E>::Encoded) == (
            PaStage::Checking,
            PaAction::<E>::CheckService,
        ),
        pa_next(setup, restarting, PaStage::Pausing, PaEvent::<E>::Slept) == (
            PaStage::Checking,
            PaAction::<E>::CheckService,
        ),
        pa_next(setup, restarting, PaStage::SendingOption, PaEvent::<E>::OptionSent) == (
            PaStage::Checking,
            PaAction::<E>::CheckService,
        ),
        pa_next(setup, restarting, PaStage::Reading, PaEvent::<E>::Packet(Err(lost))) == (
            PaStage::Checking,
            PaAction::<E>::CheckService,
        ),
        pa_next(setup, restarting, PaStage::Reading, PaEvent::<E>::Packet(Ok(data))) == (
            PaStage::Checking,
            PaAction::<E>::CheckService,
        ),
        pa_next(setup, restarting, PaStage::Reading, PaEvent::<E>::Audio(None)) == (
            PaStage::Pausing,
            PaAction::<E>::Sleep { millis: 100 },
        ),
{
}

/// Every result of an action can come while that action is awaited.
pub proof fn lemma_results_are_taken<E>(
    target: PaTarget,
    option: String,
    packet: Result<Vec<u8>, E>,
    audio: Option<Vec<u8>>,
)
    ensures
        pa_follows(target, PaStage::Pausing, PaEvent::<E>::Slept),
        pa_follows(target, PaStage::ReadingOption, PaEvent::<E>::OptionRead(option)),
        pa_follows(target, PaStage::SendingOption, PaEvent::<E>::OptionSent),
        pa_follows(target, PaStage::Encoding, PaEvent::<E>::Encoded),
        target is Linux ==> pa_follows(target, PaStage::Reading, PaEvent::<E>::Packet(packet)),
        target is Android ==> pa_follows(target, PaStage::Reading, PaEvent::<E>::Audio(audio)),
{
}

} // verus!
