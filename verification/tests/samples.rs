use audio_service::buffer::InputBuffer;
use audio_service::convert::DeviceSamples;
use audio_service::encode::{send_f32, EncodeCall, BATCH_SIZE};
use audio_service::gate::{ZeroGate, MAX_AUDIO_ZERO_COUNT};
use audio_service::merge::{merge_streams, AudioPacket};
use audio_service::mix::{
    build_input_stream_with_buffer, mix_step, on_buffered_input, start_mixing_thread,
    BufferedStream, MixStep,
};
use audio_service::format::{
    BufferSize, Channels, SampleFormat, SampleKind, StreamConfig, SupportedStreamConfig, UnsupportedFormat,
};
use audio_service::sample::{is_all_zero, samples_from_bytes, zero_frame, ByteOrder, Sample};
use audio_service::stream::{Application, EncoderRequest};
use audio_service::target::{CpalTarget, PaTarget, Target};

fn sample(value: f32) -> Sample {
    Sample { bits: value.to_bits() }
}

fn samples(values: &[f32]) -> Vec<Sample> {
    values.iter().map(|v| sample(*v)).collect()
}

fn ramp(n: u32) -> Vec<Sample> {
    (1..n + 1).map(|i| sample(i as f32)).collect()
}

#[test]
fn zero_is_told_from_everything_else() {
    assert!(sample(0.0).is_zero());
    assert!(sample(-0.0).is_zero());
    assert!(!sample(1.0e-45).is_zero());
    assert!(!sample(f32::NAN).is_zero());
    assert!(!sample(f32::NEG_INFINITY).is_zero());
    assert!(is_all_zero(&[]));
    assert!(is_all_zero(&samples(&[0.0, -0.0])));
    assert!(!is_all_zero(&samples(&[0.0, 0.0, 0.1])));
    assert_eq!(zero_frame(3), samples(&[0.0, 0.0, 0.0]));
}

#[test]
fn bytes_are_read_in_either_order() {
    let values = [1.5f32, -0.25, 3.0e8];
    let mut little: Vec<u8> = Vec::new();
    let mut big: Vec<u8> = Vec::new();
    for v in values {
        little.extend(v.to_le_bytes());
        big.extend(v.to_be_bytes());
    }
    assert_eq!(samples_from_bytes(&little, ByteOrder::Little), samples(&values));
    assert_eq!(samples_from_bytes(&big, ByteOrder::Big), samples(&values));
    little.push(7);
    assert_eq!(samples_from_bytes(&little, ByteOrder::Little), samples(&values));
    assert_eq!(samples_from_bytes(&[1, 2, 3], ByteOrder::Little), vec![]);
}

#[test]
fn zero_bytes_are_silence() {
    assert!(is_all_zero(&samples_from_bytes(&[0; 64], ByteOrder::Little)));
    assert!(is_all_zero(&samples_from_bytes(&[0; 64], ByteOrder::Big)));
}

#[test]
fn signed_samples_are_converted() {
    let raw = DeviceSamples::I8(vec![0, 1, -128, 127]);
    assert_eq!(raw.to_samples(), samples(&[0.0, 1.0 / 128.0, -1.0, 127.0 / 128.0]));
    let raw = DeviceSamples::I16(vec![0, 16384, -32768, 3]);
    assert_eq!(raw.to_samples(), samples(&[0.0, 0.5, -1.0, 3.0 / 32768.0]));
    let raw = DeviceSamples::I32(vec![0, i32::MIN, i32::MAX, 1, -(1 << 30)]);
    assert_eq!(raw.to_samples(), samples(&[0.0, -1.0, 1.0, 1.0 / 2147483648.0, -0.5]));
    let raw = DeviceSamples::I64(vec![0, i64::MIN, i64::MAX, 1 << 62]);
    assert_eq!(raw.to_samples(), samples(&[0.0, -1.0, 1.0, 0.5]));
}

#[test]
fn unsigned_samples_are_centred() {
    let raw = DeviceSamples::U8(vec![128, 0, 255]);
    assert_eq!(raw.to_samples(), samples(&[0.0, -1.0, 127.0 / 128.0]));
    let raw = DeviceSamples::U16(vec![32768, 0, 49152]);
    assert_eq!(raw.to_samples(), samples(&[0.0, -1.0, 0.5]));
    let raw = DeviceSamples::U32(vec![1 << 31, 0, 3 << 30]);
    assert_eq!(raw.to_samples(), samples(&[0.0, -1.0, 0.5]));
    let raw = DeviceSamples::U64(vec![1 << 63, 0, 3 << 62]);
    assert_eq!(raw.to_samples(), samples(&[0.0, -1.0, 0.5]));
    let raw = DeviceSamples::Single(samples(&[0.3, -0.0]));
    assert_eq!(raw.to_samples(), samples(&[0.3, -0.0]));
}

#[test]
fn wide_samples_are_rounded_to_even() {
    // 2^24 + 1 lies between two single-precision numbers, as 2^24 + 3 does.
    let raw = DeviceSamples::I32(vec![16777217, 16777219, -16777217, 16777216, 16777215]);
    let scale = 2147483648.0f32;
    assert_eq!(
        raw.to_samples(),
        samples(&[
            16777216.0 / scale,
            16777220.0 / scale,
            -16777216.0 / scale,
            16777216.0 / scale,
            16777215.0 / scale,
        ])
    );
}

#[test]
fn only_the_middle_is_silence() {
    for value in 0..=255u8 {
        let raw = DeviceSamples::U8(vec![value]);
        assert_eq!(is_all_zero(&raw.to_samples()), value == 128);
    }
    for value in [1i64, -1, i64::MAX, i64::MIN] {
        assert!(!is_all_zero(&DeviceSamples::I64(vec![value]).to_samples()));
    }
}

#[test]
fn silence_closes_the_gate_and_sound_opens_it() {
    let silence = zero_frame(4);
    let sound = samples(&[0.0, 0.5]);
    let mut gate = ZeroGate::new();
    for i in 0..MAX_AUDIO_ZERO_COUNT + 1 {
        assert!(gate.pass(&silence));
        assert_eq!(gate.count(), i + 1);
    }
    assert!(!gate.pass(&silence));
    assert_eq!(gate.count(), 802);
    assert!(!gate.pass(&silence));
    assert_eq!(gate.count(), 802);
    assert!(gate.pass(&sound));
    assert_eq!(gate.count(), 0);
    assert!(gate.pass(&silence));
    assert_eq!(gate.count(), 1);
    gate.reset();
    assert_eq!(gate.count(), 0);
}

#[test]
fn frames_are_encoded_in_one_call() {
    let data = ramp(480);
    let mut gate = ZeroGate::new();
    for target in [Target::Pa(PaTarget::Linux), Target::Cpal(CpalTarget::Windows)] {
        let calls = send_f32(target, &mut gate, &data);
        assert_eq!(calls, vec![EncodeCall { data: ramp(480), max_size: 2880 }]);
    }
    let calls = send_f32(Target::Cpal(CpalTarget::Other), &mut gate, &[]);
    assert_eq!(calls, vec![EncodeCall { data: vec![], max_size: 0 }]);
    assert_eq!(gate.count(), 1);
}

#[test]
fn android_frames_are_encoded_in_batches() {
    let target = Target::Pa(PaTarget::Android);
    let mut gate = ZeroGate::new();
    let data = ramp(2880);
    let calls = send_f32(target, &mut gate, &data);
    assert_eq!(calls.len(), 3);
    for (i, call) in calls.iter().enumerate() {
        assert_eq!(call.max_size, 960);
        assert_eq!(call.data[..], data[i * BATCH_SIZE..(i + 1) * BATCH_SIZE]);
    }
    assert_eq!(send_f32(target, &mut gate, &ramp(960)), vec![]);
    assert_eq!(send_f32(target, &mut gate, &ramp(1000)), vec![]);
    assert_eq!(send_f32(target, &mut gate, &[]), vec![]);
}

#[test]
fn held_back_frames_are_not_encoded() {
    let silence = zero_frame(480);
    let mut gate = ZeroGate::new();
    let mut encoded = 0;
    for _ in 0..1000 {
        encoded += send_f32(Target::Pa(PaTarget::Linux), &mut gate, &silence).len();
    }
    assert_eq!(encoded, 801);
}

#[test]
fn buffered_frames_do_not_depend_on_the_pieces() {
    let data = ramp(25);
    let mut whole = InputBuffer::new();
    whole.extend(&data);
    let frames = whole.take_frames(10);
    assert_eq!(frames, vec![data[0..10].to_vec(), data[10..20].to_vec()]);
    assert_eq!(whole.len(), 5);

    let mut pieces = InputBuffer::new();
    let mut out: Vec<Vec<Sample>> = Vec::new();
    for piece in data.chunks(7) {
        pieces.extend(piece);
        out.extend(pieces.take_frames(10));
    }
    assert_eq!(out, frames);
    assert_eq!(pieces.take_frame(5), data[20..25].to_vec());

    whole.clear();
    assert_eq!(whole.len(), 0);
    assert!(whole.take_frames(1).is_empty());
}

#[test]
fn a_frame_is_taken_only_whole() {
    let mut buffer = InputBuffer::new();
    buffer.extend(&ramp(3));
    assert_eq!(buffer.take_frame(4), vec![]);
    assert_eq!(buffer.len(), 3);
    assert_eq!(buffer.take_frame(2), ramp(2));
    assert_eq!(buffer.len(), 1);
}

#[test]
fn streams_are_merged_side_by_side() {
    let system = AudioPacket { data: samples(&[1.0, 2.0, 3.0]), sample_rate: 44100, channels: 1 };
    let mic = AudioPacket { data: samples(&[10.0, 20.0]), sample_rate: 16000, channels: 1 };
    let merged = merge_streams(&system, &mic);
    assert_eq!(merged.data, samples(&[1.0, 10.0, 2.0, 20.0]));
    assert_eq!(merged.sample_rate, 44100);
    assert_eq!(merged.channels, 2);
}

#[test]
fn the_mixer_pairs_or_waits() {
    let mut mic = InputBuffer::new();
    let mut loopback = InputBuffer::new();
    mic.extend(&ramp(3));
    assert_eq!(mix_step(&mut mic, &mut loopback, 4), MixStep::Wait { millis: 10 });
    assert_eq!(mix_step(&mut mic, &mut loopback, 0), MixStep::Wait { millis: 10 });
    loopback.extend(&samples(&[5.0, 6.0]));
    let step = mix_step(&mut mic, &mut loopback, 2);
    assert_eq!(
        step,
        MixStep::Mix(vec![(sample(1.0), sample(5.0)), (sample(2.0), sample(6.0))])
    );
    assert_eq!(mic.len(), 1);
    assert_eq!(loopback.len(), 0);
    // Only the microphone has a frame: it is taken, with nothing to average.
    assert_eq!(mix_step(&mut mic, &mut loopback, 1), MixStep::Mix(vec![]));
    assert_eq!(mic.len(), 0);
}

#[test]
fn mixing_starts_with_an_encoder() {
    let start = start_mixing_thread(44100, Channels::Stereo);
    assert_eq!(
        start.encoder,
        EncoderRequest {
            sample_rate: 44100,
            channels: Channels::Stereo,
            application: Application::LowDelay,
        }
    );
    assert_eq!(start.frame_size, 441);
}

#[test]
fn a_buffered_stream_is_filled() {
    let config = SupportedStreamConfig {
        sample_rate: 44100,
        channels: 2,
        sample_format: SampleFormat::I16,
    };
    assert_eq!(
        build_input_stream_with_buffer(config),
        Ok(BufferedStream {
            kind: SampleKind::I16,
            config: StreamConfig {
                channels: 2,
                sample_rate: 44100,
                buffer_size: BufferSize::Default,
            },
            timeout_ms: None,
        })
    );
    let config = SupportedStreamConfig {
        sample_rate: 44100,
        channels: 2,
        sample_format: SampleFormat::Other("I24".to_string()),
    };
    assert_eq!(
        build_input_stream_with_buffer(config),
        Err(UnsupportedFormat { name: "I24".to_string() })
    );
    let mut buffer = InputBuffer::new();
    on_buffered_input(&mut buffer, &DeviceSamples::I16(vec![16384, -16384]));
    on_buffered_input(&mut buffer, &DeviceSamples::U8(vec![0]));
    assert_eq!(buffer.take_frame(3), samples(&[0.5, -0.5, -1.0]));
}
