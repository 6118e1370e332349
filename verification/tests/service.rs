use audio_service::capture::{run, run_restart, run_serv_snapshot, run_step, RunAction, RunEvent, RunStage, State};
use audio_service::encode::EncodeCall;
use audio_service::convert::DeviceSamples;
use audio_service::device::{
    find_device, get_device, is_screen_capture_kit_available, on_answer, Device, DeviceRequest,
    Direction, Failure, Host, HostId, SearchAction, SearchError, SearchEvent, SearchStage,
};
use audio_service::format::{
    select_encode_channels, select_encode_rate, select_sample_kind, BufferSize, Channels, SampleFormat,
    SampleKind, StreamConfig, SupportedStreamConfig, UnsupportedFormat,
};
use audio_service::merge::{AudioFormat, AudioPacket};
use audio_service::message::{
    create_format_msg, encoded_frame_msg, Message, Misc, WireFormat,
};
use audio_service::pa;
use audio_service::pa::{PaAction, PaEvent, PaSetup, PaStage, AUDIO_DATA_SIZE_U8};
use audio_service::play::{
    announce_merged, merge_captured, on_result, play, stream_params, PlayAction, PlayError, PlayEvent, PlayStage,
    Source,
};
use audio_service::sample::{zero_frame, ByteOrder, Sample};
use audio_service::state::{
    get_audio_input, get_voice_call_input_device, new, restart, set_voice_call_input_device,
    AudioState, Schedule, NAME,
};
use audio_service::stream::{
    build_input_stream, input_stream_with_encoder, on_input, send, Application, EncoderRequest,
    SendAction,
    SendStage, StreamParams,
};
use audio_service::target::{CpalTarget, PaTarget, Target};

fn some(name: &str) -> Option<String> {
    Some(name.to_string())
}

fn misc(sample_rate: u32, channels: u32) -> Misc {
    Misc::AudioFormat(WireFormat { sample_rate, channels })
}

fn config(sample_rate: u32, channels: u16, sample_format: SampleFormat) -> SupportedStreamConfig {
    SupportedStreamConfig { sample_rate, channels, sample_format }
}

fn params(device_rate: u32, device_channels: u16) -> StreamParams {
    stream_params(&config(device_rate, device_channels, SampleFormat::F32))
}

fn ones(n: usize) -> Vec<Sample> {
    vec![Sample { bits: 1.0f32.to_bits() }; n]
}

#[test]
fn the_service_is_described() {
    let service = new(Target::Pa(PaTarget::Linux));
    assert_eq!(service.name, "audio");
    assert_eq!(NAME, "audio");
    assert!(service.need_snapshot);
    assert_eq!(service.schedule, Schedule::Run);
    assert_eq!(new(Target::Pa(PaTarget::Android)).schedule, Schedule::Run);
    let service = new(Target::Cpal(CpalTarget::Windows));
    assert_eq!(service.schedule, Schedule::Repeat { interval_ms: 33 });
}

#[test]
fn a_voice_call_device_is_chosen() {
    let mut state = AudioState::new();
    assert_eq!(get_voice_call_input_device(&state), None);
    assert_eq!(get_audio_input(&state, "usb".to_string()), "usb");

    set_voice_call_input_device(&mut state, some("mic"), false);
    assert_eq!(get_voice_call_input_device(&state), some("mic"));
    assert_eq!(get_audio_input(&state, "usb".to_string()), "mic");
    assert!(state.restarting);

    state.restarting = false;
    set_voice_call_input_device(&mut state, some("other"), false);
    assert_eq!(get_voice_call_input_device(&state), some("mic"));
    set_voice_call_input_device(&mut state, some("mic"), true);
    assert!(!state.restarting);

    set_voice_call_input_device(&mut state, some("other"), true);
    assert_eq!(get_voice_call_input_device(&state), some("other"));
    assert!(state.restarting);

    state.restarting = false;
    set_voice_call_input_device(&mut state, None, false);
    assert_eq!(get_voice_call_input_device(&state), some("other"));
    set_voice_call_input_device(&mut state, None, true);
    assert_eq!(get_voice_call_input_device(&state), None);
    assert!(state.restarting);
    assert_eq!(get_audio_input(&state, "usb".to_string()), "usb");
}

#[test]
fn a_restart_is_asked_for_once() {
    let mut state = AudioState::new();
    assert!(!state.restarting);
    restart(&mut state);
    assert!(state.restarting);
    restart(&mut state);
    assert!(state.restarting);
}

#[test]
fn rates_are_matched_to_the_encoder() {
    let expected = [
        (0, 8000),
        (8000, 8000),
        (11999, 8000),
        (12000, 12000),
        (15999, 12000),
        (16000, 16000),
        (23999, 16000),
        (24000, 24000),
        (44100, 24000),
        (47999, 24000),
        (48000, 48000),
        (192000, 48000),
    ];
    for (device, encode) in expected {
        assert_eq!(select_encode_rate(device), encode);
    }
    assert_eq!(select_encode_channels(0), Channels::Mono);
    assert_eq!(select_encode_channels(1), Channels::Mono);
    assert_eq!(select_encode_channels(2), Channels::Stereo);
    assert_eq!(select_encode_channels(6), Channels::Stereo);
    assert_eq!(Channels::Mono.count(), 1);
    assert_eq!(Channels::Stereo.count(), 2);
}

#[test]
fn formats_without_a_conversion_are_named() {
    assert_eq!(select_sample_kind(SampleFormat::I8), Ok(SampleKind::I8));
    assert_eq!(select_sample_kind(SampleFormat::U64), Ok(SampleKind::U64));
    assert_eq!(select_sample_kind(SampleFormat::F64), Ok(SampleKind::F64));
    let error = select_sample_kind(SampleFormat::Other("I24".to_string())).unwrap_err();
    assert_eq!(error.message(), "unsupported audio format: I24");
}

#[test]
fn messages_are_built() {
    assert_eq!(create_format_msg(48000, 2), Message::Misc(misc(48000, 2)));
    let encoded: Result<Vec<u8>, ()> = Ok(vec![1, 2, 3]);
    assert_eq!(encoded_frame_msg(encoded), Some(Message::AudioFrame(vec![1, 2, 3])));
    assert_eq!(encoded_frame_msg::<()>(Err(())), None);
    let format = AudioFormat { sample_rate: 48000, channels: 2, bits_per_sample: 16 };
    assert_eq!(announce_merged(&format), misc(48000, 2));
}

#[test]
fn a_stream_is_opened_with_a_fresh_gate_and_buffer() {
    let mut state = AudioState::new();
    let silence = zero_frame(8);
    assert!(state.gate.pass(&silence));
    state.input_buffer.extend(&silence);
    let p = params(44100, 2);
    let request = build_input_stream(&mut state, &p);
    assert_eq!(
        request,
        EncoderRequest {
            sample_rate: 24000,
            channels: Channels::Stereo,
            application: Application::LowDelay,
        }
    );
    assert_eq!(state.gate.count(), 0);
    assert_eq!(state.input_buffer.len(), 8);

    assert_eq!(input_stream_with_encoder(&mut state, &p, Err("no")), Err("no"));
    assert_eq!(state.input_buffer.len(), 8);

    assert!(p.fits());
    let open = input_stream_with_encoder::<()>(&mut state, &p, Ok(())).unwrap();
    let opened_with =
        StreamConfig { channels: 2, sample_rate: 44100, buffer_size: BufferSize::Default };
    assert_eq!(open.config, opened_with);
    assert_eq!(open.timeout_ms, None);
    assert_eq!(open.frame_len, 882);
    assert_eq!(state.input_buffer.len(), 0);
}

#[test]
fn a_frame_is_ten_milliseconds_of_the_device() {
    assert_eq!(params(48000, 2).frame_len(), 960);
    assert_eq!(params(48000, 1).frame_len(), 480);
    assert_eq!(params(48000, 6).frame_len(), 2880);
    assert_eq!(params(44100, 3).frame_len(), 1323);
    assert_eq!(params(99, 2).frame_len(), 0);
}

#[test]
fn captured_samples_become_frames() {
    let mut state = AudioState::new();
    let raw = DeviceSamples::I16(vec![16384, 0, -16384]);
    assert_eq!(on_input(&mut state, 2, &raw).len(), 1);
    let ready = on_input(&mut state, 2, &DeviceSamples::I16(vec![8192]));
    let expected: Vec<Sample> =
        [-0.5f32, 0.25].iter().map(|v| Sample { bits: v.to_bits() }).collect();
    assert_eq!(ready, vec![expected]);
    assert_eq!(state.input_buffer.len(), 0);
}

#[test]
fn frames_are_converted_before_they_are_encoded() {
    let mut state = AudioState::new();
    let p = params(44100, 6);
    let action = send(&mut state, &p, SendStage::Captured, ones(6));
    assert_eq!(
        action,
        SendAction::Resample { data: ones(6), from_rate: 44100, to_rate: 24000, channels: 6 }
    );
    let action = send(&mut state, &p, SendStage::Resampled, ones(12));
    assert_eq!(
        action,
        SendAction::Rechannel {
            data: ones(12),
            from_rate: 24000,
            to_rate: 24000,
            from_channels: 6,
            to_channels: 2,
        }
    );
    let action = send(&mut state, &p, SendStage::Rechanneled, ones(4));
    assert_eq!(action, SendAction::Encode(vec![EncodeCall { data: ones(4), max_size: 24 }]));
}

#[test]
fn matching_frames_are_encoded_at_once() {
    let mut state = AudioState::new();
    let p = params(48000, 2);
    let action = send(&mut state, &p, SendStage::Captured, zero_frame(4));
    assert_eq!(
        action,
        SendAction::Encode(vec![EncodeCall { data: zero_frame(4), max_size: 24 }])
    );
    assert_eq!(state.gate.count(), 1);
    let p = params(48000, 3);
    let action = send(&mut state, &p, SendStage::Captured, ones(3));
    assert!(matches!(action, SendAction::Rechannel { from_channels: 3, to_channels: 2, .. }));
}

#[test]
fn devices_are_found_by_name() {
    let names = vec![None, some("a"), some("b"), some("b")];
    assert_eq!(find_device(&names, &"b".to_string()), Some(2));
    assert_eq!(find_device(&names, &"c".to_string()), None);
    assert_eq!(find_device(&names, &"".to_string()), Some(0));
    assert!(is_screen_capture_kit_available(&vec![HostId::Other, HostId::ScreenCaptureKit]));
    assert!(!is_screen_capture_kit_available(&vec![HostId::Other]));
    assert!(!is_screen_capture_kit_available(&vec![]));
}

#[test]
fn a_named_device_is_captured_from() {
    let input = "b".to_string();
    let request = DeviceRequest::Capture(CpalTarget::Other);
    let (stage, action) = get_device::<()>(request, &input);
    assert_eq!(action, SearchAction::ListDevices(Host::Default));
    let event = SearchEvent::Devices(Ok(vec![some("a"), some("b")]));
    let (stage, action) = on_answer::<()>(&input, stage, event);
    assert_eq!(action, SearchAction::DefaultInput(Host::Default));
    let device = Device::Listed { host: Host::Default, index: 1 };
    let (config_stage, action) = on_answer::<()>(&input, stage, SearchEvent::Default(true));
    assert_eq!(action, SearchAction::ReadConfig { device, direction: Direction::Input });
    let offered = config(48000, 2, SampleFormat::F32);
    let (_, action) = on_answer::<()>(&input, config_stage, SearchEvent::Config(Ok(offered)));
    let offered = config(48000, 2, SampleFormat::F32);
    assert_eq!(action, SearchAction::Found { device, config: offered });

    let (end, action) = on_answer::<()>(&input, stage, SearchEvent::Default(false));
    assert_eq!(end, SearchStage::Done);
    assert_eq!(
        action,
        SearchAction::Fail(SearchError::Context {
            failure: Failure::DefaultInputDevice,
            cause: None,
        })
    );
}

#[test]
fn an_unknown_name_falls_back_to_the_default() {
    let input = "z".to_string();
    let (stage, _) = get_device::<&str>(DeviceRequest::Capture(CpalTarget::Windows), &input);
    let (stage, _) = on_answer(&input, stage, SearchEvent::<&str>::Devices(Ok(vec![some("a")])));
    let (stage, action) = on_answer(&input, stage, SearchEvent::<&str>::Default(true));
    let device = Device::DefaultInput(Host::Default);
    assert_eq!(action, SearchAction::ReadConfig { device, direction: Direction::Input });
    let (_, action) = on_answer(&input, stage, SearchEvent::Config(Err("broken")));
    assert_eq!(
        action,
        SearchAction::Fail(SearchError::Context {
            failure: Failure::DefaultInputFormat,
            cause: Some("broken"),
        })
    );
}

#[test]
fn a_list_of_devices_may_fail() {
    let input = "z".to_string();
    let (stage, _) = get_device::<&str>(DeviceRequest::Capture(CpalTarget::Other), &input);
    let (_, action) = on_answer(&input, stage, SearchEvent::Devices(Err("busy")));
    assert_eq!(
        action,
        SearchAction::Fail(SearchError::Context {
            failure: Failure::AudioDevices,
            cause: Some("busy"),
        })
    );
}

#[test]
fn the_default_output_is_captured_on_windows() {
    let none = String::new();
    let (stage, action) = get_device::<&str>(DeviceRequest::Capture(CpalTarget::Windows), &none);
    assert_eq!(action, SearchAction::DefaultOutput);
    let (_, action) = on_answer(&none, stage, SearchEvent::<&str>::Default(false));
    assert_eq!(
        action,
        SearchAction::Fail(SearchError::Context {
            failure: Failure::DefaultOutputDevice,
            cause: None,
        })
    );
    let (stage, action) = on_answer(&none, stage, SearchEvent::<&str>::Default(true));
    assert_eq!(
        action,
        SearchAction::ReadConfig { device: Device::DefaultOutput, direction: Direction::Output }
    );
    let (_, action) = on_answer(&none, stage, SearchEvent::Config(Err("x")));
    assert_eq!(
        action,
        SearchAction::Fail(SearchError::Context {
            failure: Failure::DefaultOutputFormat,
            cause: Some("x"),
        })
    );
}

#[test]
fn screen_capture_devices_come_first() {
    let input = "b".to_string();
    let request = DeviceRequest::Capture(CpalTarget::ScreenCaptureKit);
    let (stage, action) = get_device::<&str>(request, &input);
    assert_eq!(action, SearchAction::ListHosts);
    let hosts = vec![HostId::Other, HostId::ScreenCaptureKit];
    let (stage, action) = on_answer(&input, stage, SearchEvent::<&str>::Hosts(hosts));
    assert_eq!(action, SearchAction::ListDevices(Host::ScreenCaptureKit));
    let (_, action) = on_answer(&input, stage, SearchEvent::HostUnavailable("gone"));
    assert_eq!(action, SearchAction::Fail(SearchError::Cause("gone")));
    let event = SearchEvent::<&str>::Devices(Ok(vec![some("a")]));
    let (missed, action) = on_answer(&input, stage, event);
    assert_eq!(missed, SearchStage::HostDevices);
    assert_eq!(action, SearchAction::ListDevices(Host::Default));
    let event = SearchEvent::<&str>::Devices(Ok(vec![some("b")]));
    let (found, _) = on_answer(&input, stage, event);
    let device = Device::Listed { host: Host::ScreenCaptureKit, index: 0 };
    assert_eq!(found, SearchStage::HostDefault { found: Some(device) });
}

#[test]
fn screen_capture_is_the_default_where_it_is_available() {
    let none = String::new();
    let request = DeviceRequest::Capture(CpalTarget::ScreenCaptureKit);
    let (stage, _) = get_device::<&str>(request, &none);
    let hosts = vec![HostId::ScreenCaptureKit];
    let (available, action) = on_answer(&none, stage, SearchEvent::<&str>::Hosts(hosts));
    assert_eq!(action, SearchAction::DefaultInput(Host::ScreenCaptureKit));
    let (stage_config, _) = on_answer(&none, available, SearchEvent::<&str>::Default(true));
    let (_, action) = on_answer(&none, stage_config, SearchEvent::Config(Err("x")));
    assert_eq!(
        action,
        SearchAction::Fail(SearchError::Context {
            failure: Failure::InputOutputFormat,
            cause: Some("x"),
        })
    );
    let (_, action) = on_answer(&none, stage, SearchEvent::<&str>::Hosts(vec![HostId::Other]));
    assert_eq!(action, SearchAction::DefaultInput(Host::Default));
}

#[test]
fn the_microphone_is_found_or_missed() {
    let input = "m".to_string();
    let (stage, action) = get_device::<&str>(DeviceRequest::Mic, &input);
    assert_eq!(action, SearchAction::ListDevices(Host::Default));
    let event = SearchEvent::<&str>::Devices(Ok(vec![some("m")]));
    let (_, action) = on_answer(&input, stage, event);
    let device = Device::Listed { host: Host::Default, index: 0 };
    assert_eq!(action, SearchAction::ReadConfig { device, direction: Direction::Input });
    let (_, action) = on_answer(&input, stage, SearchEvent::<&str>::Devices(Ok(vec![])));
    assert_eq!(
        action,
        SearchAction::Fail(SearchError::Context { failure: Failure::NamedMic, cause: None })
    );
    let (_, action) = on_answer(&input, stage, SearchEvent::Devices(Err("busy")));
    assert_eq!(action, SearchAction::Fail(SearchError::Cause("busy")));

    let none = String::new();
    let (stage, _) = get_device::<&str>(DeviceRequest::Mic, &none);
    let (_, action) = on_answer(&none, stage, SearchEvent::<&str>::Default(false));
    assert_eq!(
        action,
        SearchAction::Fail(SearchError::Context { failure: Failure::AnyMic, cause: None })
    );
}

#[test]
fn the_loopback_device_is_the_default_output() {
    let none = String::new();
    let (stage, action) = get_device::<&str>(DeviceRequest::Loopback, &none);
    assert_eq!(action, SearchAction::DefaultOutput);
    let (_, action) = on_answer(&none, stage, SearchEvent::<&str>::Default(false));
    assert_eq!(
        action,
        SearchAction::Fail(SearchError::Context {
            failure: Failure::LoopbackOutputDevice,
            cause: None,
        })
    );
    let (stage, _) = on_answer(&none, stage, SearchEvent::<&str>::Default(true));
    let (_, action) = on_answer(&none, stage, SearchEvent::Config(Err("raw")));
    assert_eq!(action, SearchAction::Fail(SearchError::Cause("raw")));
}

#[test]
fn failures_are_put_in_words() {
    let expected = [
        (Failure::AudioDevices, "Failed to get audio devices"),
        (Failure::DefaultInputDevice, "Failed to get default input device for loopback"),
        (Failure::DefaultOutputDevice, "Failed to get default output device for loopback"),
        (Failure::LoopbackOutputDevice, "No output device for loopback"),
        (Failure::NamedMic, "Specified mic device not found"),
        (Failure::AnyMic, "No mic device available"),
        (Failure::InputOutputFormat, "Failed to get input output format"),
        (Failure::DefaultInputFormat, "Failed to get default input format"),
        (Failure::DefaultOutputFormat, "Failed to get default output format"),
    ];
    for (failure, text) in expected {
        assert_eq!(failure.message(), text);
    }
}

#[test]
fn one_stream_is_played() {
    let device = Device::DefaultInput(Host::Default);
    let (stage, action) = play::<()>(CpalTarget::Other);
    assert_eq!(
        action,
        PlayAction::FindDevice(DeviceRequest::Capture(CpalTarget::Other))
    );
    let event = PlayEvent::Device(Ok((device, config(44100, 6, SampleFormat::U16))));
    let (stage, action) = on_result::<()>(stage, event);
    assert_eq!(
        action,
        PlayAction::OpenStream {
            source: Source::Input,
            device,
            kind: SampleKind::U16,
            params: params(44100, 6),
        }
    );
    let (stage, action) = on_result::<()>(stage, PlayEvent::Opened(Ok(())));
    assert_eq!(action, PlayAction::StartStream(Source::Input));
    let (stage, action) = on_result::<()>(stage, PlayEvent::Started(Ok(())));
    assert_eq!(stage, PlayStage::Done);
    assert_eq!(action, PlayAction::Playing(misc(24000, 2)));
}

#[test]
fn playing_may_fail_at_every_step() {
    let device = Device::DefaultOutput;
    let error = SearchError::Cause("search");
    let (_, action) = on_result(PlayStage::Device, PlayEvent::Device(Err(error)));
    assert_eq!(action, PlayAction::Fail(PlayError::Search(SearchError::Cause("search"))));
    let offered = config(48000, 2, SampleFormat::Other("I24".to_string()));
    let event = PlayEvent::<&str>::Device(Ok((device, offered)));
    let (_, action) = on_result(PlayStage::Device, event);
    let unsupported = UnsupportedFormat { name: "I24".to_string() };
    assert_eq!(action, PlayAction::Fail(PlayError::Unsupported(unsupported)));
    let p = params(48000, 2);
    let (_, action) = on_result(PlayStage::Opening(p), PlayEvent::Opened(Err("open")));
    assert_eq!(action, PlayAction::Fail(PlayError::Stream("open")));
    let (_, action) = on_result(PlayStage::Starting(p), PlayEvent::Started(Err("start")));
    assert_eq!(action, PlayAction::Fail(PlayError::Stream("start")));
}

#[test]
fn two_streams_are_merged_on_windows() {
    let mic = Device::Listed { host: Host::Default, index: 3 };
    let (stage, action) = play::<()>(CpalTarget::Windows);
    assert_eq!(action, PlayAction::FindDevice(DeviceRequest::Mic));
    let event = PlayEvent::Device(Ok((mic, config(16000, 1, SampleFormat::I16))));
    let (stage, action) = on_result::<()>(stage, event);
    assert_eq!(action, PlayAction::FindDevice(DeviceRequest::Loopback));
    let offered = config(48000, 2, SampleFormat::F32);
    let event = PlayEvent::Device(Ok((Device::DefaultOutput, offered)));
    let (stage, action) = on_result::<()>(stage, event);
    assert_eq!(
        action,
        PlayAction::OpenStream {
            source: Source::Input,
            device: mic,
            kind: SampleKind::I16,
            params: params(16000, 1),
        }
    );
    let (stage, action) = on_result::<()>(stage, PlayEvent::Opened(Ok(())));
    assert_eq!(
        action,
        PlayAction::OpenStream {
            source: Source::Loopback,
            device: Device::DefaultOutput,
            kind: SampleKind::F32,
            params: params(48000, 2),
        }
    );
    let (stage, action) = on_result::<()>(stage, PlayEvent::Opened(Ok(())));
    assert_eq!(action, PlayAction::StartStream(Source::Input));
    let (stage, action) = on_result::<()>(stage, PlayEvent::Started(Ok(())));
    assert_eq!(action, PlayAction::StartStream(Source::Loopback));
    let (_, action) = on_result::<()>(stage, PlayEvent::Started(Ok(())));
    let format = AudioFormat { sample_rate: 48000, channels: 2, bits_per_sample: 16 };
    assert_eq!(
        action,
        PlayAction::Merged { format, left: Source::Loopback, right: Source::Input }
    );
}

#[test]
fn system_audio_is_on_the_left_and_the_microphone_on_the_right() {
    let sample = |value: f32| Sample { bits: value.to_bits() };
    let mic = AudioPacket {
        data: vec![sample(1.0), sample(2.0)],
        sample_rate: 16000,
        channels: 1,
    };
    let system = AudioPacket {
        data: vec![sample(10.0), sample(20.0), sample(30.0)],
        sample_rate: 48000,
        channels: 1,
    };
    let (_, action) = on_result::<()>(PlayStage::StartingLoopback, PlayEvent::Started(Ok(())));
    let (left, right) = match action {
        PlayAction::Merged { format: _, left, right } => (left, right),
        _ => panic!("two streams are merged"),
    };
    let merged = merge_captured(left, right, &mic, &system);
    assert_eq!(merged.data, vec![sample(10.0), sample(1.0), sample(20.0), sample(2.0)]);
    assert_eq!(merged.sample_rate, 48000);
    assert_eq!(merged.channels, 2);
}

#[test]
fn a_failed_encoder_needs_no_lengths() {
    let mut state = AudioState::new();
    let p = params(u32::MAX, u16::MAX);
    assert_eq!(input_stream_with_encoder(&mut state, &p, Err("no")), Err("no"));
}

#[test]
fn new_subscribers_are_told_the_format() {
    let mut audio = AudioState::new();
    let mut state = State::default();
    let (stage, action) = run::<()>(&audio, &mut state);
    assert_eq!(action, RunAction::Snapshot);
    let (stage, action) = run_step::<()>(&mut audio, &mut state, stage, RunEvent::Entered);
    assert_eq!(action, RunAction::Play);
    let event = RunEvent::Played(Ok(misc(48000, 2)));
    let (stage, action) = run_serv_snapshot::<()>(&mut state, stage, event);
    assert_eq!(action, RunAction::SendToNew(Message::Misc(misc(48000, 2))));
    assert_eq!(state.stream, Some(misc(48000, 2)));
    let (stage, action) = run_step::<()>(&mut audio, &mut state, stage, RunEvent::Sent);
    assert_eq!(action, RunAction::LeaveSnapshot(Ok(())));
    let event = RunEvent::SnapshotTaken(Ok(()));
    let (stage, action) = run_step::<()>(&mut audio, &mut state, stage, event);
    assert_eq!(stage, RunStage::Done);
    assert_eq!(action, RunAction::Finish(Ok(())));

    let (stage, _) = run::<()>(&audio, &mut state);
    let (_, action) = run_step::<()>(&mut audio, &mut state, stage, RunEvent::Entered);
    assert_eq!(action, RunAction::SendToNew(Message::Misc(misc(48000, 2))));
}

#[test]
fn a_failed_stream_fails_the_snapshot() {
    let mut audio = AudioState::new();
    let mut state = State::default();
    let (stage, _) = run::<&str>(&audio, &mut state);
    let (stage, _) = run_step::<&str>(&mut audio, &mut state, stage, RunEvent::Entered);
    let event = RunEvent::Played(Err("no device"));
    let (stage, action) = run_step(&mut audio, &mut state, stage, event);
    assert_eq!(action, RunAction::LeaveSnapshot(Err("no device")));
    let event = RunEvent::SnapshotTaken(Err("no device"));
    let (_, action) = run_step(&mut audio, &mut state, stage, event);
    assert_eq!(action, RunAction::Finish(Err("no device")));
    assert_eq!(state.stream, None);
}

#[test]
fn a_restart_replaces_the_stream() {
    let mut audio = AudioState::new();
    restart(&mut audio);
    let mut state = State { stream: Some(misc(8000, 1)) };
    let (stage, action) = run::<&str>(&audio, &mut state);
    assert_eq!(action, RunAction::EmptySnapshot);
    assert_eq!(state.stream, None);
    let event = RunEvent::SnapshotTaken(Ok(()));
    let (play_stage, action) = run_step::<&str>(&mut audio, &mut state, stage, event);
    assert_eq!(action, RunAction::Play);

    let event = RunEvent::Played(Err("busy"));
    let (_, action) = run_step(&mut audio, &mut state, play_stage, event);
    assert_eq!(action, RunAction::Finish(Err("busy")));
    assert!(audio.restarting);

    let event = RunEvent::Played(Ok(misc(48000, 2)));
    let (stage, action) = run_restart::<&str>(&mut audio, &mut state, play_stage, event);
    assert_eq!(action, RunAction::SendToAll(Message::Misc(misc(48000, 2))));
    assert!(audio.restarting);
    let (_, action) = run_step::<&str>(&mut audio, &mut state, stage, RunEvent::Sent);
    assert_eq!(action, RunAction::Finish(Ok(())));
    assert!(!audio.restarting);
    assert_eq!(state.stream, Some(misc(48000, 2)));
}

fn linux() -> PaSetup {
    PaSetup { target: PaTarget::Linux, sample_rate: 48000, byte_order: ByteOrder::Little }
}

#[test]
fn packets_are_read_on_linux() {
    let setup = linux();
    let mut state = AudioState::new();
    restart(&mut state);
    let (stage, action) = pa::run::<&str>();
    assert_eq!(action, PaAction::Sleep { millis: 100 });
    let (stage, action) = pa::run_step::<&str>(&mut state, &setup, stage, PaEvent::Slept);
    assert_eq!(action, PaAction::Connect { timeout_ms: 1000, name: "_pa" });
    assert!(!state.restarting);
    assert!(state.gate.pass(&zero_frame(1)));
    let (stage, action) = pa::run_step::<&str>(&mut state, &setup, stage, PaEvent::Connected(Ok(())));
    let request = EncoderRequest {
        sample_rate: 48000,
        channels: Channels::Stereo,
        application: Application::LowDelay,
    };
    assert_eq!(action, PaAction::CreateEncoder(request));
    assert_eq!(state.gate.count(), 0);
    let event = PaEvent::EncoderCreated(Ok(()));
    let (stage, action) = pa::run_step::<&str>(&mut state, &setup, stage, event);
    assert_eq!(action, PaAction::ReadOption { key: "audio-input" });
    let event = PaEvent::OptionRead("usb".to_string());
    let (stage, action) = pa::run_step::<&str>(&mut state, &setup, stage, event);
    assert_eq!(action, PaAction::SendOption { key: "audio-input", value: "usb".to_string() });
    let (stage, action) = pa::run_step::<&str>(&mut state, &setup, stage, PaEvent::OptionSent);
    assert_eq!(action, PaAction::CheckService);
    let (stage, action) = pa::run_step::<&str>(&mut state, &setup, stage, PaEvent::Service(true));
    assert_eq!(action, PaAction::Snapshot(Message::Misc(misc(48000, 2))));
    let event = PaEvent::SnapshotTaken(Ok(()));
    let (stage, action) = pa::run_step::<&str>(&mut state, &setup, stage, event);
    assert_eq!(action, PaAction::NextPacket);

    let mut packet: Vec<u8> = Vec::new();
    for _ in 0..960 {
        packet.extend(1.0f32.to_le_bytes());
    }
    assert_eq!(packet.len(), AUDIO_DATA_SIZE_U8);
    let (encoding, action) =
        pa::run_step::<&str>(&mut state, &setup, stage, PaEvent::Packet(Ok(packet)));
    let call = EncodeCall { data: ones(960), max_size: 5760 };
    assert_eq!(action, PaAction::Encode(vec![call]));
    let (checking, action) =
        pa::run_step::<&str>(&mut state, &setup, encoding, PaEvent::Encoded);
    assert_eq!(action, PaAction::CheckService);

    let (_, action) =
        pa::run_step::<&str>(&mut state, &setup, stage, PaEvent::Packet(Ok(vec![])));
    let call = EncodeCall { data: zero_frame(960), max_size: 5760 };
    assert_eq!(action, PaAction::Encode(vec![call]));
    assert_eq!(state.gate.count(), 1);
    let event = PaEvent::Packet(Ok(vec![0; 100]));
    let (_, action) = pa::run_step::<&str>(&mut state, &setup, stage, event);
    assert_eq!(action, PaAction::CheckService);
    let (_, action) = pa::run_step(&mut state, &setup, stage, PaEvent::Packet(Err("lost")));
    assert_eq!(action, PaAction::CheckService);

    restart(&mut state);
    let (_, action) = pa::run_step::<&str>(&mut state, &setup, checking, PaEvent::Service(true));
    assert_eq!(action, PaAction::Finish(Ok(())));
    assert!(state.restarting);
}

#[test]
fn a_voice_call_device_is_told_to_the_audio_service() {
    let mut state = AudioState::new();
    set_voice_call_input_device(&mut state, some("call"), true);
    let event = PaEvent::OptionRead("usb".to_string());
    let (_, action) = pa::run_step::<()>(&mut state, &linux(), PaStage::ReadingOption, event);
    assert_eq!(action, PaAction::SendOption { key: "audio-input", value: "call".to_string() });
}

#[test]
fn the_packet_service_ends_with_outside_errors() {
    let mut state = AudioState::new();
    let setup = linux();
    let event = PaEvent::Connected(Err("c"));
    let (_, action) = pa::run_step(&mut state, &setup, PaStage::Connecting, event);
    assert_eq!(action, PaAction::Finish(Err("c")));
    let event = PaEvent::EncoderCreated(Err("e"));
    let (_, action) = pa::run_step(&mut state, &setup, PaStage::Creating, event);
    assert_eq!(action, PaAction::Finish(Err("e")));
    let event = PaEvent::SnapshotTaken(Err("s"));
    let (_, action) = pa::run_step(&mut state, &setup, PaStage::Announcing, event);
    assert_eq!(action, PaAction::Finish(Err("s")));
    let event = PaEvent::<&str>::Service(false);
    let (_, action) = pa::run_step(&mut state, &setup, PaStage::Checking, event);
    assert_eq!(action, PaAction::Finish(Ok(())));
}

#[test]
fn audio_is_polled_on_android() {
    let setup =
        PaSetup { target: PaTarget::Android, sample_rate: 48000, byte_order: ByteOrder::Big };
    let mut state = AudioState::new();
    let (stage, action) = pa::run_step::<()>(&mut state, &setup, PaStage::Waiting, PaEvent::Slept);
    assert!(matches!(action, PaAction::CreateEncoder(_)));
    let event = PaEvent::EncoderCreated(Ok(()));
    let (_, action) = pa::run_step::<()>(&mut state, &setup, stage, event);
    assert_eq!(action, PaAction::CheckService);
    let event = PaEvent::SnapshotTaken(Ok(()));
    let (stage, action) = pa::run_step::<()>(&mut state, &setup, PaStage::Announcing, event);
    assert_eq!(action, PaAction::PollAudio);
    let (pausing, action) = pa::run_step::<()>(&mut state, &setup, stage, PaEvent::Audio(None));
    assert_eq!(action, PaAction::Sleep { millis: 100 });
    let (_, action) = pa::run_step::<()>(&mut state, &setup, pausing, PaEvent::Slept);
    assert_eq!(action, PaAction::CheckService);
    let mut audio: Vec<u8> = Vec::new();
    for _ in 0..1920 {
        audio.extend(1.0f32.to_be_bytes());
    }
    let event = PaEvent::Audio(Some(audio));
    let (_, action) = pa::run_step::<()>(&mut state, &setup, stage, event);
    let batch = || EncodeCall { data: ones(960), max_size: 960 };
    assert_eq!(action, PaAction::Encode(vec![batch(), batch()]));
}
