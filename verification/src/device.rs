//! Finding the device to capture from.
//!
//! Listing devices and asking for defaults is work for the operating system. The
//! search is a sequence of such questions: each answer decides the next one,
//! until a device is found or the search fails.

use vstd::prelude::*;

use crate::format::SupportedStreamConfig;
use crate::target::CpalTarget;

verus! {

/// A way to reach devices that the system offers.
#[derive(Clone, Copy, Debug, PartialEq, Eq, Structural)]
pub enum HostId {
    ScreenCaptureKit,
    Other,
}

/// A way to reach devices that the search uses.
#[derive(Clone, Copy, Debug, PartialEq, Eq, Structural)]
pub enum Host {
    /// The system's default.
    Default,
    ScreenCaptureKit,
}

/// What is searched for.
#[derive(Clone, Copy, Debug, PartialEq, Eq, Structural)]
pub enum DeviceRequest {
    /// The device to capture from on a target.
    Capture(CpalTarget),
    /// The microphone.
    Mic,
    /// The device whose output is captured.
    Loopback,
}

/// A device.
#[derive(Clone, Copy, Debug, PartialEq, Eq, Structural)]
pub enum Device {
    /// A device by its place in the list of a host.
    Listed { host: Host, index: usize },
    /// The default input device of a host.
    DefaultInput(Host),
    /// The default output device of the default host.
    DefaultOutput,
}

/// Which of a device's default configurations is meant.
#[derive(Clone, Copy, Debug, PartialEq, Eq, Structural)]
pub enum Direction {
    Input,
    Output,
}

/// What could not be had.
#[derive(Clone, Copy, Debug, PartialEq, Eq, Structural)]
pub enum Failure {
    AudioDevices,
    DefaultInputDevice,
    DefaultOutputDevice,
    LoopbackOutputDevice,
    NamedMic,
    AnyMic,
    InputOutputFormat,
    DefaultInputFormat,
    DefaultOutputFormat,
}

/// Why a search failed.
#[derive(Debug, PartialEq, Eq)]
pub enum SearchError<E> {
    /// The system's own error.
    Cause(E),
    /// What could not be had, and the system's error where there was one.
    Context { failure: Failure, cause: Option<E> },
}

/// Where a search stands: the question that was asked last.
#[derive(Clone, Copy, Debug, PartialEq, Eq, Structural)]
pub enum SearchStage {
    /// Which hosts there are.
    Hosts,
    /// Which devices the screen capture host has.
    ScreenCaptureDevices,
    /// Which devices the default host has.
    HostDevices,
    /// Which devices the default host has, for a microphone of a given name.
    MicDevices,
    /// Whether the default host has a default input device, for any microphone.
    MicDefault,
    /// Whether the default host has a default input device. It is asked for even
    /// where a device was found by its name.
    HostDefault { found: Option<Device> },
    /// Whether the screen capture host has a default input device.
    ScreenCaptureDefault,
    /// Whether there is a default output device.
    OutputDefault { failure: Failure, format_failure: Option<Failure> },
    /// What the device offers by default.
    Config { device: Device, format_failure: Option<Failure> },
    /// Nothing more is asked.
    Done,
}

/// The next question to the system, or the outcome.
#[derive(Debug, PartialEq, Eq)]
pub enum SearchAction<E> {
    ListHosts,
    ListDevices(Host),
    DefaultInput(Host),
    DefaultOutput,
    ReadConfig { device: Device, direction: Direction },
    Found { device: Device, config: SupportedStreamConfig },
    Fail(SearchError<E>),
}

/// The system's answer to a question.
#[derive(Debug, PartialEq, Eq)]
pub enum SearchEvent<E> {
    Hosts(Vec<HostId>),
    /// The screen capture host cannot be used.
    HostUnavailable(E),
    /// The names of a host's devices, in order. A device whose name could not be
    /// read has none.
    Devices(Result<Vec<Option<String>>, E>),
    /// Whether there is such a device.
    Default(bool),
    Config(Result<SupportedStreamConfig, E>),
}

/// The failure in words.
pub open spec fn failure_text(failure: Failure) -> Seq<char> {
    match failure {
        Failure::AudioDevices => "Failed to get audio devices"@,
        Failure::DefaultInputDevice => "Failed to get default input device for loopback"@,
        Failure::DefaultOutputDevice => "Failed to get default output device for loopback"@,
        Failure::LoopbackOutputDevice => "No output device for loopback"@,
        Failure::NamedMic => "Specified mic device not found"@,
        Failure::AnyMic => "No mic device available"@,
        Failure::InputOutputFormat => "Failed to get input output format"@,
        Failure::DefaultInputFormat => "Failed to get default input format"@,
        Failure::DefaultOutputFormat => "Failed to get default output format"@,
    }
}

impl Failure {
    /// The failure in words.
    pub fn message(self) -> (text: &'static str)
        ensures
            text@ == failure_text(self),
    {
        match self {
            Failure::AudioDevices => "Failed to get audio devices",
            Failure::DefaultInputDevice => "Failed to get default input device for loopback",
            Failure::DefaultOutputDevice => "Failed to get default output device for loopback",
            Failure::LoopbackOutputDevice => "No output device for loopback",
            Failure::NamedMic => "Specified mic device not found",
            Failure::AnyMic => "No mic device available",
            Failure::InputOutputFormat => "Failed to get input output format",
            Failure::DefaultInputFormat => "Failed to get default input format",
            Failure::DefaultOutputFormat => "Failed to get default output format",
        }
    }
}

/// Whether the screen capture host is among the hosts.
pub fn is_screen_capture_kit_available(hosts: &Vec<HostId>) -> (available: bool)
    ensures
        available == hosts@.contains(HostId::ScreenCaptureKit),
{
    let mut i: usize = 0;
    while i < hosts.len()
        invariant
            i <= hosts@.len(),
            forall|j: int| 0 <= j < i ==> hosts@[j] != HostId::ScreenCaptureKit,
        decreases hosts@.len() - i,
    {
        if hosts[i] == HostId::ScreenCaptureKit {
            return true;
        }
        i += 1;
    }
    false
}

/// What a device is known by. A device without a name goes by the empty one.
pub open spec fn device_label(name: Option<String>) -> Seq<char> {
    match name {
        Some(s) => s@,
        None => Seq::empty(),
    }
}

/// The first device of a name.
pub open spec fn first_match(names: Seq<Option<String>>, wanted: Seq<char>) -> Option<nat>
    decreases names.len(),
{
    if names.len() == 0 {
        None
    } else {
        match first_match(names.drop_last(), wanted) {
            Some(i) => Some(i),
            None => if device_label(names.last()) == wanted {
                Some((names.len() - 1) as nat)
            } else {
                None
            },
        }
    }
}

fn has_label(name: &Option<String>, wanted: &String) -> (same: bool)
    ensures
        same == (device_label(*name) == wanted@),
{
    match name {
        Some(s) => *s == *wanted,
        None => String::new() == *wanted,
    }
}

/// Finds the first device of a name.
pub fn find_device(names: &Vec<Option<String>>, wanted: &String) -> (place: Option<usize>)
    ensures
        match place {
            Some(i) => first_match(names@, wanted@) == Some(i as nat),
            None => first_match(names@, wanted@) is None,
        },
{
    let mut i: usize = 0;
    let mut place: Option<usize> = None;
    while i < names.len()
        invariant
            i <= names@.len(),
            match place {
                Some(k) => first_match(names@.take(i as int), wanted@) == Some(k as nat),
                None => first_match(names@.take(i as int), wanted@) is None,
            },
        decreases names@.len() - i,
    {
        if place.is_none() && has_label(&names[i], wanted) {
            place = Some(i);
        }
        i += 1;
        assert(names@.take(i as int).drop_last() =~= names@.take(i - 1));
        assert(names@.take(i as int).last() == names@[i - 1]);
    }
    assert(names@.take(names@.len() as int) =~= names@);
    place
}

/// Asks for the device of a name on the default host, or for its default input
/// device where no name is given.
pub open spec fn named_search<E>(input: Seq<char>) -> (SearchStage, SearchAction<E>) {
    if input.len() > 0 {
        (SearchStage::HostDevices, SearchAction::ListDevices(Host::Default))
    } else {
        (SearchStage::HostDefault { found: None }, SearchAction::DefaultInput(Host::Default))
    }
}

/// The first question of a search. The input device is given by its name; an
/// empty name asks for the target's default.
pub open spec fn search_first<E>(request: DeviceRequest, input: Seq<char>) -> (
    SearchStage,
    SearchAction<E>,
) {
    match request {
        DeviceRequest::Capture(CpalTarget::ScreenCaptureKit) => (
            SearchStage::Hosts,
            SearchAction::ListHosts,
        ),
        DeviceRequest::Capture(CpalTarget::Windows) => if input.len() > 0 {
            named_search(input)
        } else {
            (
                SearchStage::OutputDefault {
                    failure: Failure::DefaultOutputDevice,
                    format_failure: Some(Failure::DefaultOutputFormat),
                },
                SearchAction::DefaultOutput,
            )
        },
        DeviceRequest::Capture(CpalTarget::Other) => named_search(input),
        DeviceRequest::Mic => if input.len() > 0 {
            (SearchStage::MicDevices, SearchAction::ListDevices(Host::Default))
        } else {
            (SearchStage::MicDefault, SearchAction::DefaultInput(Host::Default))
        },
        DeviceRequest::Loopback => (
            SearchStage::OutputDefault {
                failure: Failure::LoopbackOutputDevice,
                format_failure: None,
            },
            SearchAction::DefaultOutput,
        ),
    }
}

/// The answer fits the question.
pub open spec fn answers<E>(stage: SearchStage, event: SearchEvent<E>) -> bool {
    match (stage, event) {
        (SearchStage::Hosts, SearchEvent::Hosts(_)) => true,
        (SearchStage::ScreenCaptureDevices, SearchEvent::Devices(_)) => true,
        (SearchStage::ScreenCaptureDevices, SearchEvent::HostUnavailable(_)) => true,
        (SearchStage::HostDevices, SearchEvent::Devices(_)) => true,
        (SearchStage::MicDevices, SearchEvent::Devices(_)) => true,
        (SearchStage::MicDefault, SearchEvent::Default(_)) => true,
        (SearchStage::HostDefault { .. }, SearchEvent::Default(_)) => true,
        (SearchStage::ScreenCaptureDefault, SearchEvent::Default(_)) => true,
        (SearchStage::ScreenCaptureDefault, SearchEvent::HostUnavailable(_)) => true,
        (SearchStage::OutputDefault { .. }, SearchEvent::Default(_)) => true,
        (SearchStage::Config { .. }, SearchEvent::Config(_)) => true,
        _ => false,
    }
}

/// The end of a search that failed.
pub open spec fn failed<E>(failure: Failure, cause: Option<E>) -> (SearchStage, SearchAction<E>) {
    (SearchStage::Done, SearchAction::Fail(SearchError::Context { failure, cause }))
}

/// Asks what a device offers.
pub open spec fn read_config<E>(
    device: Device,
    direction: Direction,
    format_failure: Option<Failure>,
) -> (SearchStage, SearchAction<E>) {
    (
        SearchStage::Config { device, format_failure },
        SearchAction::ReadConfig { device, direction },
    )
}

/// Asks for the default input device of the default host.
pub open spec fn host_default<E>(found: Option<Device>) -> (SearchStage, SearchAction<E>) {
    (SearchStage::HostDefault { found }, SearchAction::DefaultInput(Host::Default))
}

/// What an answer leads to.
pub open spec fn search_next<E>(
    input: Seq<char>,
    stage: SearchStage,
    event: SearchEvent<E>,
) -> (SearchStage, SearchAction<E>) {
    match (stage, event) {
        (SearchStage::Hosts, SearchEvent::Hosts(hosts)) => if !hosts@.contains(
            HostId::ScreenCaptureKit,
        ) {
            named_search(input)
        } else if input.len() > 0 {
            (
                SearchStage::ScreenCaptureDevices,
                SearchAction::ListDevices(Host::ScreenCaptureKit),
            )
        } else {
            (
                SearchStage::ScreenCaptureDefault,
                SearchAction::DefaultInput(Host::ScreenCaptureKit),
            )
        },
        (SearchStage::ScreenCaptureDevices, SearchEvent::Devices(Ok(names))) => match first_match(
            names@,
            input,
        ) {
            Some(i) => host_default(
                Some(Device::Listed { host: Host::ScreenCaptureKit, index: i as usize }),
            ),
            None => named_search(input),
        },
        (SearchStage::HostDevices, SearchEvent::Devices(Ok(names))) => match first_match(
            names@,
            input,
        ) {
            Some(i) => host_default(
                Some(Device::Listed { host: Host::Default, index: i as usize }),
            ),
            None => host_default(None),
        },
        (SearchStage::MicDevices, SearchEvent::Devices(Ok(names))) => match first_match(
            names@,
            input,
        ) {
            Some(i) => read_config(
                Device::Listed { host: Host::Default, index: i as usize },
                Direction::Input,
                None,
            ),
            None => failed(Failure::NamedMic, None),
        },
        (SearchStage::MicDevices, SearchEvent::Devices(Err(e))) => (
            SearchStage::Done,
            SearchAction::Fail(SearchError::Cause(e)),
        ),
        (SearchStage::MicDefault, SearchEvent::Default(present)) => if present {
            read_config(Device::DefaultInput(Host::Default), Direction::Input, None)
        } else {
            failed(Failure::AnyMic, None)
        },
        (_, SearchEvent::Devices(Err(e))) => failed(Failure::AudioDevices, Some(e)),
        (_, SearchEvent::HostUnavailable(e)) => (
            SearchStage::Done,
            SearchAction::Fail(SearchError::Cause(e)),
        ),
        (SearchStage::HostDefault { found }, SearchEvent::Default(present)) => if present {
            read_config(
                match found {
                    Some(device) => device,
                    None => Device::DefaultInput(Host::Default),
                },
                Direction::Input,
                Some(Failure::DefaultInputFormat),
            )
        } else {
            failed(Failure::DefaultInputDevice, None)
        },
        (SearchStage::ScreenCaptureDefault, SearchEvent::Default(present)) => if present {
            read_config(
                Device::DefaultInput(Host::ScreenCaptureKit),
                Direction::Input,
                Some(Failure::InputOutputFormat),
            )
        } else {
            failed(Failure::DefaultInputDevice, None)
        },
        (
            SearchStage::OutputDefault { failure, format_failure },
            SearchEvent::Default(present),
        ) => if present {
            read_config(Device::DefaultOutput, Direction::Output, format_failure)
        } else {
            failed(failure, None)
        },
        (SearchStage::Config { device, format_failure }, SearchEvent::Config(Ok(config))) => (
            SearchStage::Done,
            SearchAction::Found { device, config },
        ),
        (SearchStage::Config { device, format_failure }, SearchEvent::Config(Err(e))) =>
        match format_failure {
            Some(failure) => failed(failure, Some(e)),
            None => (SearchStage::Done, SearchAction::Fail(SearchError::Cause(e))),
        },
        _ => arbitrary(),
    }
}

fn start_named_search<E>(input: &String) -> (first: (SearchStage, SearchAction<E>))
    ensures
        first == named_search::<E>(input@),
{
    if !is_empty_name(input) {
        (SearchStage::HostDevices, SearchAction::ListDevices(Host::Default))
    } else {
        (SearchStage::HostDefault { found: None }, SearchAction::DefaultInput(Host::Default))
    }
}

fn is_empty_name(name: &String) -> (empty: bool)
    ensures
        empty == (name@.len() == 0),
{
    let empty: bool = *name == String::new();
    assert(name@ == Seq::<char>::empty() <==> name@.len() == 0) by {
        if name@.len() == 0 {
            assert(name@ =~= Seq::empty());
        }
    }
    empty
}

/// Starts a search: gives the first question.
pub fn get_device<E>(request: DeviceRequest, input: &String) -> (first: (
    SearchStage,
    SearchAction<E>,
))
    ensures
        first == search_first::<E>(request, input@),
{
    match request {
        DeviceRequest::Capture(CpalTarget::ScreenCaptureKit) => (
            SearchStage::Hosts,
            SearchAction::ListHosts,
        ),
        DeviceRequest::Capture(CpalTarget::Windows) => {
            if !is_empty_name(input) {
                start_named_search(input)
            } else {
                (
                    SearchStage::OutputDefault {
                        failure: Failure::DefaultOutputDevice,
                        format_failure: Some(Failure::DefaultOutputFormat),
                    },
                    SearchAction::DefaultOutput,
                )
            }
        },
        DeviceRequest::Capture(CpalTarget::Other) => start_named_search(input),
        DeviceRequest::Mic => {
            if !is_empty_name(input) {
                (SearchStage::MicDevices, SearchAction::ListDevices(Host::Default))
            } else {
                (SearchStage::MicDefault, SearchAction::DefaultInput(Host::Default))
            }
        },
        DeviceRequest::Loopback => (
            SearchStage::OutputDefault {
                failure: Failure::LoopbackOutputDevice,
                format_failure: None,
            },
            SearchAction::DefaultOutput,
        ),
    }
}

fn start_read_config<E>(
    device: Device,
    direction: Direction,
    format_failure: Option<Failure>,
) -> (next: (SearchStage, SearchAction<E>))
    ensures
        next == read_config::<E>(device, direction, format_failure),
{
    (
        SearchStage::Config { device, format_failure },
        SearchAction::ReadConfig { device, direction },
    )
}

fn end_failed<E>(failure: Failure, cause: Option<E>) -> (end: (SearchStage, SearchAction<E>))
    ensures
        end == failed(failure, cause),
{
    (SearchStage::Done, SearchAction::Fail(SearchError::Context { failure, cause }))
}

fn ask_host_default<E>(found: Option<Device>) -> (next: (SearchStage, SearchAction<E>))
    ensures
        next == host_default::<E>(found),
{
    (SearchStage::HostDefault { found }, SearchAction::DefaultInput(Host::Default))
}

/// Goes on with a search: takes the answer to the last question, and gives the
/// next question or the outcome.
pub fn on_answer<E>(input: &String, stage: SearchStage, event: SearchEvent<E>) -> (next: (
    SearchStage,
    SearchAction<E>,
))
    requires
        answers(stage, event),
    ensures
        next == search_next(input@, stage, event),
{
    match (stage, event) {
        (SearchStage::Hosts, SearchEvent::Hosts(hosts)) => {
            if !is_screen_capture_kit_available(&hosts) {
                start_named_search(input)
            } else if !is_empty_name(input) {
                (
                    SearchStage::ScreenCaptureDevices,
                    SearchAction::ListDevices(Host::ScreenCaptureKit),
                )
            } else {
                (
                    SearchStage::ScreenCaptureDefault,
                    SearchAction::DefaultInput(Host::ScreenCaptureKit),
                )
            }
        },
        (SearchStage::ScreenCaptureDevices, SearchEvent::Devices(Ok(names))) => {
            match find_device(&names, input) {
                Some(index) => ask_host_default(
                    Some(Device::Listed { host: Host::ScreenCaptureKit, index }),
                ),
                None => start_named_search(input),
            }
        },
        (SearchStage::HostDevices, SearchEvent::Devices(Ok(names))) => {
            match find_device(&names, input) {
                Some(index) => ask_host_default(
                    Some(Device::Listed { host: Host::Default, index }),
                ),
                None => ask_host_default(None),
            }
        },
        (SearchStage::MicDevices, SearchEvent::Devices(Ok(names))) => {
            match find_device(&names, input) {
                Some(index) => start_read_config(
                    Device::Listed { host: Host::Default, index },
                    Direction::Input,
                    None,
                ),
                None => end_failed(Failure::NamedMic, None),
            }
        },
        (SearchStage::MicDevices, SearchEvent::Devices(Err(e))) => (
            SearchStage::Done,
            SearchAction::Fail(SearchError::Cause(e)),
        ),
        (SearchStage::MicDefault, SearchEvent::Default(present)) => {
            if !present {
                return end_failed(Failure::AnyMic, None);
            }
            start_read_config(Device::DefaultInput(Host::Default), Direction::Input, None)
        },
        (_, SearchEvent::Devices(Err(e))) => end_failed(Failure::AudioDevices, Some(e)),
        (_, SearchEvent::HostUnavailable(e)) => (
            SearchStage::Done,
            SearchAction::Fail(SearchError::Cause(e)),
        ),
        (SearchStage::HostDefault { found }, SearchEvent::Default(present)) => {
            if !present {
                return end_failed(Failure::DefaultInputDevice, None);
            }
            let device: Device = match found {
                Some(device) => device,
                None => Device::DefaultInput(Host::Default),
            };
            start_read_config(device, Direction::Input, Some(Failure::DefaultInputFormat))
        },
        (SearchStage::ScreenCaptureDefault, SearchEvent::Default(present)) => {
            if !present {
                return end_failed(Failure::DefaultInputDevice, None);
            }
            start_read_config(
                Device::DefaultInput(Host::ScreenCaptureKit),
                Direction::Input,
                Some(Failure::InputOutputFormat),
            )
        },
        (
            SearchStage::OutputDefault { failure, format_failure },
            SearchEvent::Default(present),
        ) => {
            if !present {
                return end_failed(failure, None);
            }
            start_read_config(Device::DefaultOutput, Direction::Output, format_failure)
        },
        (SearchStage::Config { device, format_failure: _ }, SearchEvent::Config(Ok(config))) => (
            SearchStage::Done,
            SearchAction::Found { device, config },
        ),
        (SearchStage::Config { device: _, format_failure }, SearchEvent::Config(Err(e))) => {
            match format_failure {
                Some(failure) => end_failed(failure, Some(e)),
                None => (SearchStage::Done, SearchAction::Fail(SearchError::Cause(e))),
            }
        },
        _ => vstd::pervasive::unreached(),
    }
}

/// A name is found at its first place, and only where some device has it.
pub proof fn lemma_first_match(names: Seq<Option<String>>, wanted: Seq<char>)
    ensures
        match first_match(names, wanted) {
            Some(i) => {
                &&& i < names.len()
                &&& device_label(names[i as int]) == wanted
                &&& forall|j: int| 0 <= j < i ==> device_label(#[trigger] names[j]) != wanted
            },
            None => forall|j: int|
                0 <= j < names.len() ==> device_label(#[trigger] names[j]) != wanted,
        },
    decreases names.len(),
{
    if names.len() > 0 {
        let fewer = names.drop_last();
        lemma_first_match(fewer, wanted);
        assert forall|j: int| 0 <= j < fewer.len() implies #[trigger] names[j] == fewer[j] by {}
    }
}

/// A device whose name cannot be read is never found by a name.
pub proof fn lemma_unnamed_is_not_found(names: Seq<Option<String>>, wanted: Seq<char>)
    requires
        wanted.len() > 0,
    ensures
        match first_match(names, wanted) {
            Some(i) => names[i as int] is Some,
            None => true,
        },
{
    lemma_first_match(names, wanted);
}

/// How many questions a search can still ask.
pub open spec fn questions_left(stage: SearchStage) -> nat {
    match stage {
        SearchStage::Hosts => 5,
        SearchStage::ScreenCaptureDevices => 4,
        SearchStage::HostDevices => 3,
        SearchStage::MicDevices => 2,
        SearchStage::MicDefault => 2,
        SearchStage::HostDefault { .. } => 2,
        SearchStage::ScreenCaptureDefault => 2,
        SearchStage::OutputDefault { .. } => 2,
        SearchStage::Config { .. } => 1,
        SearchStage::Done => 0,
    }
}

/// Every answer brings a search nearer to its end, and it ends with a device or
/// with an error.
pub proof fn lemma_search_ends<E>(input: Seq<char>, stage: SearchStage, event: SearchEvent<E>)
    requires
        answers(stage, event),
    ensures
        questions_left(search_next(input, stage, event).0) < questions_left(stage),
        search_next(input, stage, event).0 is Done <==> (search_next(input, stage, event).1 is Found
            || search_next(input, stage, event).1 is Fail),
{
}

/// The outcome of a search on the default host by a name, for given answers.
pub open spec fn named_outcome<E>(
    request: DeviceRequest,
    input: Seq<char>,
    names: Vec<Option<String>>,
    config: SupportedStreamConfig,
) -> SearchAction<E> {
    let (s0, _a0) = search_first::<E>(request, input);
    let (s1, _a1) = search_next(input, s0, SearchEvent::<E>::Devices(Ok(names)));
    let (s2, _a2) = search_next(input, s1, SearchEvent::<E>::Default(true));
    search_next(input, s2, SearchEvent::<E>::Config(Ok(config))).1
}

/// The device of the configured name is captured from, and the default input
/// device where no device has that name.
pub proof fn lemma_named_device_is_found<E>(
    target: CpalTarget,
    input: Seq<char>,
    names: Vec<Option<String>>,
    config: SupportedStreamConfig,
)
    requires
        target is Windows || target is Other,
        input.len() > 0,
    ensures
        named_outcome::<E>(DeviceRequest::Capture(target), input, names, config) == (
        SearchAction::<E>::Found {
            device: match first_match(names@, input) {
                Some(i) => Device::Listed { host: Host::Default, index: i as usize },
                None => Device::DefaultInput(Host::Default),
            },
            config,
        }),
{
}

/// With no name configured, the output of the default output device is captured
/// on Windows, and the default input device elsewhere.
pub proof fn lemma_default_device<E>(config: SupportedStreamConfig)
    ensures
        ({
            let input = Seq::<char>::empty();
            let (s0, a0) = search_first::<E>(DeviceRequest::Capture(CpalTarget::Windows), input);
            let (s1, a1) = search_next(input, s0, SearchEvent::<E>::Default(true));
            let (s2, a2) = search_next(input, s1, SearchEvent::<E>::Config(Ok(config)));
            a2 == (SearchAction::<E>::Found { device: Device::DefaultOutput, config })
        }),
        ({
            let input = Seq::<char>::empty();
            let (s0, a0) = search_first::<E>(DeviceRequest::Capture(CpalTarget::Other), input);
            let (s1, a1) = search_next(input, s0, SearchEvent::<E>::Default(true));
            let (s2, a2) = search_next(input, s1, SearchEvent::<E>::Config(Ok(config)));
            a2 == (SearchAction::<E>::Found {
                device: Device::DefaultInput(Host::Default),
                config,
            })
        }),
{
}

/// Where screen capture is available, a device of the configured name is taken
/// from its devices first, and from those of the default host only if none of its
/// own has that name.
pub proof fn lemma_screen_capture_comes_first<E>(
    input: Seq<char>,
    hosts: Vec<HostId>,
    names: Vec<Option<String>>,
)
    requires
        input.len() > 0,
        hosts@.contains(HostId::ScreenCaptureKit),
    ensures
        ({
            let (s0, _a0) = search_first::<E>(
                DeviceRequest::Capture(CpalTarget::ScreenCaptureKit),
                input,
            );
            let (s1, a1) = search_next(input, s0, SearchEvent::<E>::Hosts(hosts));
            let next = search_next(input, s1, SearchEvent::<E>::Devices(Ok(names)));
            &&& a1 == SearchAction::<E>::ListDevices(Host::ScreenCaptureKit)
            &&& match first_match(names@, input) {
                Some(i) => next == host_default::<E>(
                    Some(Device::Listed { host: Host::ScreenCaptureKit, index: i as usize }),
                ),
                None => next == named_search::<E>(input),
            }
        }),
{
}

/// A search by name fails where the default host has no default input device,
/// even if a device of that name was found.
pub proof fn lemma_default_input_is_needed<E>(input: Seq<char>, found: Option<Device>)
    ensures
        search_next(input, SearchStage::HostDefault { found }, SearchEvent::<E>::Default(false))
            == failed::<E>(Failure::DefaultInputDevice, None),
{
}

/// A device goes by its name, and by the empty one where it has none that can be read.
pub proof fn lemma_device_label(name: Option<String>)
    ensures
        name matches Some(s) ==> device_label(name) == s@,
        name is None ==> device_label(name).len() == 0,
{
}

/// The first device of a name is one of that name with none of that name before it, and
/// there is one exactly where some device has that name.
pub proof fn lemma_first_match_by_name(names: Seq<Option<String>>, wanted: Seq<char>)
    ensures
        match first_match(names, wanted) {
            Some(i) => {
                &&& i < names.len()
                &&& match names[i as int] {
                    Some(name) => name@ == wanted,
                    None => wanted.len() == 0,
                }
                &&& forall|j: int|
                    0 <= j < i ==> match #[trigger] names[j] {
                        Some(name) => name@ != wanted,
                        None => wanted.len() > 0,
                    }
            },
            None => forall|j: int|
                0 <= j < names.len() ==> match #[trigger] names[j] {
                    Some(name) => name@ != wanted,
                    None => wanted.len() > 0,
                },
        },
{
    lemma_first_match(names, wanted);
    assert forall|j: int| 0 <= j < names.len() implies ((device_label(#[trigger] names[j])
        == wanted) <==> match names[j] {
        Some(name) => name@ == wanted,
        None => wanted.len() == 0,
    }) by {
        if names[j] is None && wanted.len() == 0 {
            assert(wanted =~= Seq::empty());
        }
    }
}

/// A search by a configured name on the default host, whatever the answers: its devices
/// are listed, then its default input device is asked for, which has to be there; what
/// is read is the configuration of the first device of that name, and of the default
/// input device where none has it; and that device is found with its configuration.
pub proof fn lemma_named_search_outcomes<E>(
    target: CpalTarget,
    input: Seq<char>,
    names: Vec<Option<String>>,
    present: bool,
    config: Result<SupportedStreamConfig, E>,
)
    requires
        !(target is ScreenCaptureKit),
        input.len() > 0,
    ensures
        ({
            let (s0, a0) = search_first::<E>(DeviceRequest::Capture(target), input);
            let e1 = SearchEvent::<E>::Devices(Ok(names));
            let (s1, a1) = search_next(input, s0, e1);
            let e2 = SearchEvent::<E>::Default(present);
            let (s2, a2) = search_next(input, s1, e2);
            let e3 = SearchEvent::<E>::Config(config);
            let (s3, a3) = search_next(input, s2, e3);
            &&& s0 is HostDevices
            &&& a0 == SearchAction::<E>::ListDevices(Host::Default)
            &&& answers(s0, e1)
            &&& a1 == SearchAction::<E>::DefaultInput(Host::Default)
            &&& answers(s1, e2)
            &&& if present {
                &&& a2 matches SearchAction::ReadConfig { device, direction }
                &&& direction is Input
                &&& match device {
                    Device::Listed { host, index } => {
                        &&& host == Host::Default
                        &&& index < names@.len()
                        &&& match names@[index as int] {
                            Some(name) => name@ == input,
                            None => input.len() == 0,
                        }
                        &&& forall|j: int|
                            0 <= j < index ==> match #[trigger] names@[j] {
                                Some(name) => name@ != input,
                                None => input.len() > 0,
                            }
                    },
                    Device::DefaultInput(host) => {
                        &&& host == Host::Default
                        &&& forall|j: int|
                            0 <= j < names@.len() ==> match #[trigger] names@[j] {
                                Some(name) => name@ != input,
                                None => input.len() > 0,
                            }
                    },
                    Device::DefaultOutput => false,
                }
                &&& answers(s2, e3)
                &&& s3 is Done
                &&& a3 == match config {
                    Ok(c) => SearchAction::<E>::Found { device, config: c },
                    Err(e) => SearchAction::<E>::Fail(
                        SearchError::Context {
                            failure: Failure::DefaultInputFormat,
                            cause: Some(e),
                        },
                    ),
                }
            } else {
                &&& s2 is Done
                &&& a2 == SearchAction::<E>::Fail(
                    SearchError::Context { failure: Failure::DefaultInputDevice, cause: None },
                )
            }
        }),
{
    lemma_first_match_by_name(names@, input);
    assert(names@.len() == names.len());
}

/// Devices that cannot be listed end a search with that error: as a failure to get the
/// audio devices, and for the microphone as it is.
pub proof fn lemma_list_failure<E>(input: Seq<char>, e: E)
    ensures
        ({
            let event = SearchEvent::<E>::Devices(Err(e));
            let fail = SearchAction::<E>::Fail(
                SearchError::Context { failure: Failure::AudioDevices, cause: Some(e) },
            );
            &&& answers(SearchStage::HostDevices, event)
            &&& answers(SearchStage::ScreenCaptureDevices, event)
            &&& answers(SearchStage::MicDevices, event)
            &&& search_next(input, SearchStage::HostDevices, event) == (SearchStage::Done, fail)
            &&& search_next(input, SearchStage::ScreenCaptureDevices, event) == (
                SearchStage::Done,
                fail,
            )
            &&& search_next(input, SearchStage::MicDevices, event) == (
                SearchStage::Done,
                SearchAction::<E>::Fail(SearchError::Cause(e)),
            )
        }),
{
}

/// Without a configured name, and without screen capture or Windows, the default input
/// device of the default host is captured from, whatever the answers.
pub proof fn lemma_default_input_outcomes<E>(
    present: bool,
    config: Result<SupportedStreamConfig, E>,
)
    ensures
        ({
            let input = Seq::<char>::empty();
            let request = DeviceRequest::Capture(CpalTarget::Other);
            let (s0, a0) = search_first::<E>(request, input);
            let e1 = SearchEvent::<E>::Default(present);
            let (s1, a1) = search_next(input, s0, e1);
            let e2 = SearchEvent::<E>::Config(config);
            let (s2, a2) = search_next(input, s1, e2);
            let device = Device::DefaultInput(Host::Default);
            &&& a0 == SearchAction::<E>::DefaultInput(Host::Default)
            &&& answers(s0, e1)
            &&& if present {
                &&& a1 == (SearchAction::<E>::ReadConfig { device, direction: Direction::Input })
                &&& answers(s1, e2)
                &&& s2 is Done
                &&& a2 == match config {
                    Ok(c) => SearchAction::<E>::Found { device, config: c },
                    Err(e) => SearchAction::<E>::Fail(
                        SearchError::Context {
                            failure: Failure::DefaultInputFormat,
                            cause: Some(e),
                        },
                    ),
                }
            } else {
                &&& s1 is Done
                &&& a1 == SearchAction::<E>::Fail(
                    SearchError::Context { failure: Failure::DefaultInputDevice, cause: None },
                )
            }
        }),
{
}

/// Without a configured name the output of the default output device is captured on
/// Windows, and the loopback device is always that one, whatever the answers. The two
/// differ only in how a failure is put.
pub proof fn lemma_default_output_outcomes<E>(
    input: Seq<char>,
    request: DeviceRequest,
    present: bool,
    config: Result<SupportedStreamConfig, E>,
)
    requires
        request is Loopback || (request == DeviceRequest::Capture(CpalTarget::Windows)
            && input.len() == 0),
    ensures
        ({
            let (s0, a0) = search_first::<E>(request, input);
            let e1 = SearchEvent::<E>::Default(present);
            let (s1, a1) = search_next(input, s0, e1);
            let e2 = SearchEvent::<E>::Config(config);
            let (s2, a2) = search_next(input, s1, e2);
            let device = Device::DefaultOutput;
            &&& a0 is DefaultOutput
            &&& answers(s0, e1)
            &&& if present {
                &&& a1 == (SearchAction::<E>::ReadConfig { device, direction: Direction::Output })
                &&& answers(s1, e2)
                &&& s2 is Done
                &&& a2 == match config {
                    Ok(c) => SearchAction::<E>::Found { device, config: c },
                    Err(e) => SearchAction::<E>::Fail(
                        if request is Loopback {
                            SearchError::Cause(e)
                        } else {
                            SearchError::Context {
                                failure: Failure::DefaultOutputFormat,
                                cause: Some(e),
                            }
                        },
                    ),
                }
            } else {
                &&& s1 is Done
                &&& a1 == SearchAction::<E>::Fail(
                    SearchError::Context {
                        failure: if request is Loopback {
                            Failure::LoopbackOutputDevice
                        } else {
                            Failure::DefaultOutputDevice
                        },
                        cause: None,
                    },
                )
            }
        }),
{
}

/// The microphone of a configured name, whatever the answers: it is the first device of
/// that name, and there has to be one.
pub proof fn lemma_named_mic_outcomes<E>(
    input: Seq<char>,
    names: Vec<Option<String>>,
    config: Result<SupportedStreamConfig, E>,
)
    requires
        input.len() > 0,
    ensures
        ({
            let (s0, a0) = search_first::<E>(DeviceRequest::Mic, input);
            let e1 = SearchEvent::<E>::Devices(Ok(names));
            let (s1, a1) = search_next(input, s0, e1);
            let e2 = SearchEvent::<E>::Config(config);
            let (s2, a2) = search_next(input, s1, e2);
            &&& s0 is MicDevices
            &&& a0 == SearchAction::<E>::ListDevices(Host::Default)
            &&& answers(s0, e1)
            &&& match a1 {
                SearchAction::ReadConfig {
                    device: Device::Listed { host, index },
                    direction,
                } => {
                    &&& host is Default
                    &&& direction is Input
                    &&& index < names@.len()
                    &&& names@[index as int] matches Some(name) && name@ == input
                    &&& forall|j: int|
                        0 <= j < index ==> match #[trigger] names@[j] {
                            Some(name) => name@ != input,
                            None => true,
                        }
                    &&& answers(s1, e2)
                    &&& s2 is Done
                    &&& a2 == match config {
                        Ok(c) => SearchAction::<E>::Found {
                            device: Device::Listed { host, index },
                            config: c,
                        },
                        Err(e) => SearchAction::<E>::Fail(SearchError::Cause(e)),
                    }
                },
                SearchAction::Fail(error) => {
                    &&& s1 is Done
                    &&& error == (SearchError::<E>::Context {
                        failure: Failure::NamedMic,
                        cause: None,
                    })
                    &&& forall|j: int|
                        0 <= j < names@.len() ==> match #[trigger] names@[j] {
                            Some(name) => name@ != input,
                            None => true,
                        }
                },
                _ => false,
            }
        }),
{
    lemma_first_match_by_name(names@, input);
    assert(names@.len() == names.len());
}

/// The microphone without a configured name is the default input device of the default
/// host, whatever the answers.
pub proof fn lemma_any_mic_outcomes<E>(present: bool, config: Result<SupportedStreamConfig, E>)
    ensures
        ({
            let input = Seq::<char>::empty();
            let (s0, a0) = search_first::<E>(DeviceRequest::Mic, input);
            let e1 = SearchEvent::<E>::Default(present);
            let (s1, a1) = search_next(input, s0, e1);
            let e2 = SearchEvent::<E>::Config(config);
            let (s2, a2) = search_next(input, s1, e2);
            let device = Device::DefaultInput(Host::Default);
            &&& a0 == SearchAction::<E>::DefaultInput(Host::Default)
            &&& answers(s0, e1)
            &&& if present {
                &&& a1 == (SearchAction::<E>::ReadConfig { device, direction: Direction::Input })
                &&& answers(s1, e2)
                &&& s2 is Done
                &&& a2 == match config {
                    Ok(c) => SearchAction::<E>::Found { device, config: c },
                    Err(e) => SearchAction::<E>::Fail(SearchError::Cause(e)),
                }
            } else {
                &&& s1 is Done
                &&& a1 == SearchAction::<E>::Fail(
                    SearchError::Context { failure: Failure::AnyMic, cause: None },
                )
            }
        }),
{
}

/// Where screen capture is not among the hosts, the search goes on as it would start
/// without it.
pub proof fn lemma_search_without_screen_capture<E>(input: Seq<char>, hosts: Vec<HostId>)
    requires
        !hosts@.contains(HostId::ScreenCaptureKit),
    ensures
        ({
            let request = DeviceRequest::Capture(CpalTarget::ScreenCaptureKit);
            let (s0, a0) = search_first::<E>(request, input);
            let event = SearchEvent::<E>::Hosts(hosts);
            &&& a0 is ListHosts
            &&& answers(s0, event)
            &&& search_next(input, s0, event) == search_first::<E>(
                DeviceRequest::Capture(CpalTarget::Other),
                input,
            )
        }),
{
}

/// Where screen capture is among the hosts and no name is configured, the default input
/// device of the screen capture host itself is captured from, whatever the answers.
pub proof fn lemma_screen_capture_default_outcomes<E>(
    hosts: Vec<HostId>,
    present: bool,
    config: Result<SupportedStreamConfig, E>,
    gone: E,
)
    requires
        hosts@.contains(HostId::ScreenCaptureKit),
    ensures
        ({
            let input = Seq::<char>::empty();
            let request = DeviceRequest::Capture(CpalTarget::ScreenCaptureKit);
            let (s0, a0) = search_first::<E>(request, input);
            let e1 = SearchEvent::<E>::Hosts(hosts);
            let (s1, a1) = search_next(input, s0, e1);
            let e2 = SearchEvent::<E>::Default(present);
            let (s2, a2) = search_next(input, s1, e2);
            let e3 = SearchEvent::<E>::Config(config);
            let (s3, a3) = search_next(input, s2, e3);
            let unavailable = SearchEvent::<E>::HostUnavailable(gone);
            let device = Device::DefaultInput(Host::ScreenCaptureKit);
            &&& a0 is ListHosts
            &&& answers(s0, e1)
            &&& a1 == SearchAction::<E>::DefaultInput(Host::ScreenCaptureKit)
            &&& answers(s1, e2)
            &&& answers(s1, unavailable)
            &&& search_next(input, s1, unavailable) == (
                SearchStage::Done,
                SearchAction::<E>::Fail(SearchError::Cause(gone)),
            )
            &&& if present {
                &&& a2 == (SearchAction::<E>::ReadConfig { device, direction: Direction::Input })
                &&& answers(s2, e3)
                &&& s3 is Done
                &&& a3 == match config {
                    Ok(c) => SearchAction::<E>::Found { device, config: c },
                    Err(e) => SearchAction::<E>::Fail(
                        SearchError::Context {
                            failure: Failure::InputOutputFormat,
                            cause: Some(e),
                        },
                    ),
                }
            } else {
                &&& s2 is Done
                &&& a2 == SearchAction::<E>::Fail(
                    SearchError::Context { failure: Failure::DefaultInputDevice, cause: None },
                )
            }
        }),
{
}

/// Where screen capture is among the hosts and a name is configured, whatever the
/// answers: the devices of the screen capture host are listed; where one has the name,
/// the first of them is captured from, once the default host is known to have a default
/// input device; where none has it, the search goes on as it would start without screen
/// capture.
pub proof fn lemma_screen_capture_named_outcomes<E>(
    input: Seq<char>,
    hosts: Vec<HostId>,
    names: Vec<Option<String>>,
    present: bool,
    config: Result<SupportedStreamConfig, E>,
    gone: E,
)
    requires
        input.len() > 0,
        hosts@.contains(HostId::ScreenCaptureKit),
    ensures
        ({
            let request = DeviceRequest::Capture(CpalTarget::ScreenCaptureKit);
            let (s0, a0) = search_first::<E>(request, input);
            let e1 = SearchEvent::<E>::Hosts(hosts);
            let (s1, a1) = search_next(input, s0, e1);
            let e2 = SearchEvent::<E>::Devices(Ok(names));
            let (s2, a2) = search_next(input, s1, e2);
            let e3 = SearchEvent::<E>::Default(present);
            let (s3, a3) = search_next(input, s2, e3);
            let e4 = SearchEvent::<E>::Config(config);
            let (s4, a4) = search_next(input, s3, e4);
            let unavailable = SearchEvent::<E>::HostUnavailable(gone);
            &&& answers(s0, e1)
            &&& s1 is ScreenCaptureDevices
            &&& a1 == SearchAction::<E>::ListDevices(Host::ScreenCaptureKit)
            &&& answers(s1, e2)
            &&& answers(s1, unavailable)
            &&& search_next(input, s1, unavailable) == (
                SearchStage::Done,
                SearchAction::<E>::Fail(SearchError::Cause(gone)),
            )
            &&& if exists|j: int|
                0 <= j < names@.len() && (#[trigger] names@[j] matches Some(name) && name@
                    == input) {
                &&& a2 == SearchAction::<E>::DefaultInput(Host::Default)
                &&& answers(s2, e3)
                &&& if present {
                    &&& a3 matches SearchAction::ReadConfig { device, direction }
                    &&& direction is Input
                    &&& device matches Device::Listed { host, index }
                    &&& host is ScreenCaptureKit
                    &&& index < names@.len()
                    &&& names@[index as int] matches Some(name) && name@ == input
                    &&& forall|j: int|
                        0 <= j < index ==> match #[trigger] names@[j] {
                            Some(name) => name@ != input,
                            None => true,
                        }
                    &&& answers(s3, e4)
                    &&& s4 is Done
                    &&& a4 == match config {
                        Ok(c) => SearchAction::<E>::Found { device, config: c },
                        Err(e) => SearchAction::<E>::Fail(
                            SearchError::Context {
                                failure: Failure::DefaultInputFormat,
                                cause: Some(e),
                            },
                        ),
                    }
                } else {
                    &&& s3 is Done
                    &&& a3 == SearchAction::<E>::Fail(
                        SearchError::Context {
                            failure: Failure::DefaultInputDevice,
                            cause: None,
                        },
                    )
                }
            } else {
                (s2, a2) == search_first::<E>(DeviceRequest::Capture(CpalTarget::Other), input)
            }
        }),
{
    lemma_first_match_by_name(names@, input);
    assert(names@.len() == names.len());
}

/// The device whose configuration is read is the default device of the very host that
/// was asked for its default, unless a device was already found by its name.
pub proof fn lemma_default_of_the_host_asked<E>(
    input: Seq<char>,
    stage: SearchStage,
    event: SearchEvent<E>,
)
    requires
        answers(stage, event),
        search_next(input, stage, event).1 is DefaultInput,
    ensures
        ({
            let (s1, a1) = search_next(input, stage, event);
            let (_s2, a2) = search_next(input, s1, SearchEvent::<E>::Default(true));
            a2 matches SearchAction::ReadConfig { device, direction } && direction is Input && (
            device is Listed || a1 == (match device {
                Device::DefaultInput(host) => SearchAction::<E>::DefaultInput(host),
                _ => SearchAction::<E>::DefaultOutput,
            }))
        }),
{
}

} // verus!
