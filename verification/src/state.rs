//! What all parts of the service share: the input device chosen for a voice
//! call, the request to restart, the noise gate and the capture buffer.

use vstd::prelude::*;

use crate::buffer::InputBuffer;
use crate::gate::ZeroGate;
use crate::sample::Sample;
use crate::target::Target;

verus! {

/// Name under which the service is registered.
pub const NAME: &'static str = "audio";

/// Milliseconds between two runs of a repeated service.
pub const REPEAT_INTERVAL_MS: u64 = 33;

/// How the service is driven.
#[derive(Clone, Copy, Debug, PartialEq, Eq, Structural)]
pub enum Schedule {
    /// Its run function is called again and again, with a pause in between.
    Repeat { interval_ms: u64 },
    /// Its run function is called once and loops by itself.
    Run,
}

/// What the service is registered with.
#[derive(Debug, PartialEq, Eq)]
pub struct ServiceSpec {
    pub name: String,
    pub need_snapshot: bool,
    pub schedule: Schedule,
}

/// How the service is driven on a target.
pub open spec fn schedule_of(target: Target) -> Schedule {
    match target {
        Target::Pa(_) => Schedule::Run,
        Target::Cpal(_) => Schedule::Repeat { interval_ms: REPEAT_INTERVAL_MS },
    }
}

/// Describes the service for a target.
pub fn new(target: Target) -> (service: ServiceSpec)
    ensures
        service.name@ == NAME@,
        service.need_snapshot,
        service.schedule == schedule_of(target),
{
    let schedule: Schedule = match target {
        Target::Pa(_) => Schedule::Run,
        Target::Cpal(_) => Schedule::Repeat { interval_ms: REPEAT_INTERVAL_MS },
    };
    ServiceSpec { name: NAME.to_owned(), need_snapshot: true, schedule }
}

/// The state that all parts of the service share.
#[derive(Debug)]
pub struct AudioState {
    pub voice_call_input_device: Option<String>,
    pub restarting: bool,
    pub gate: ZeroGate,
    pub input_buffer: InputBuffer,
}

/// A device name, by its characters.
pub open spec fn device_name(device: Option<String>) -> Option<Seq<char>> {
    match device {
        Some(name) => Some(name@),
        None => None,
    }
}

impl AudioState {
    /// The state when the service starts: no device chosen, no restart asked for.
    pub fn new() -> (state: AudioState)
        ensures
            state.voice_call_input_device is None,
            !state.restarting,
            state.gate@ == 0,
            state.input_buffer@ == Seq::<Sample>::empty(),
    {
        AudioState {
            voice_call_input_device: None,
            restarting: false,
            gate: ZeroGate::new(),
            input_buffer: InputBuffer::new(),
        }
    }

    /// The device chosen for a voice call.
    pub open spec fn voice_call_device(self) -> Option<Seq<char>> {
        device_name(self.voice_call_input_device)
    }

    /// The state with a restart asked for.
    pub open spec fn asked_to_restart(self) -> AudioState {
        AudioState { restarting: true, ..self }
    }
}

/// The device chosen for a voice call.
pub fn get_voice_call_input_device(state: &AudioState) -> (device: Option<String>)
    ensures
        device_name(device) == state.voice_call_device(),
{
    match &state.voice_call_input_device {
        Some(name) => Some(name.clone()),
        None => None,
    }
}

/// A change of device takes no effect where it may not replace a device that is
/// already chosen, or where it names the same device.
pub open spec fn device_change_ignored(
    current: Option<Seq<char>>,
    device: Option<Seq<char>>,
    set_if_present: bool,
) -> bool {
    (!set_if_present && current is Some) || current == device
}

/// The device that a change leaves chosen.
pub open spec fn device_after(
    current: Option<Seq<char>>,
    device: Option<Seq<char>>,
    set_if_present: bool,
) -> Option<Seq<char>> {
    if device_change_ignored(current, device, set_if_present) {
        current
    } else {
        device
    }
}

fn same_device(a: &Option<String>, b: &Option<String>) -> (same: bool)
    ensures
        same == (device_name(*a) == device_name(*b)),
{
    match (a, b) {
        (Some(x), Some(y)) => *x == *y,
        (None, None) => true,
        _ => false,
    }
}

/// Chooses a device for a voice call, and asks for a restart if that changes
/// anything.
pub fn set_voice_call_input_device(
    state: &mut AudioState,
    device: Option<String>,
    set_if_present: bool,
)
    ensures
        *final(state) == if device_change_ignored(
            old(state).voice_call_device(),
            device_name(device),
            set_if_present,
        ) {
            *old(state)
        } else {
            (AudioState { voice_call_input_device: device, ..*old(state) }).asked_to_restart()
        },
        final(state).voice_call_device() == device_after(
            old(state).voice_call_device(),
            device_name(device),
            set_if_present,
        ),
{
    if !set_if_present && state.voice_call_input_device.is_some() {
        return ;
    }
    if same_device(&state.voice_call_input_device, &device) {
        return ;
    }
    state.voice_call_input_device = device;
    restart(state);
}

/// The input device to capture from: the one chosen for a voice call, else the
/// configured one.
pub open spec fn audio_input(voice_call: Option<Seq<char>>, configured: Seq<char>) -> Seq<char> {
    match voice_call {
        Some(name) => name,
        None => configured,
    }
}

/// The name of the input device to capture from.
pub fn get_audio_input(state: &AudioState, configured: String) -> (name: String)
    ensures
        name@ == audio_input(state.voice_call_device(), configured@),
{
    match get_voice_call_input_device(state) {
        Some(name) => name,
        None => configured,
    }
}

/// Asks for a restart of the service. Asking again changes nothing.
pub fn restart(state: &mut AudioState)
    ensures
        *final(state) == old(state).asked_to_restart(),
{
    if state.restarting {
        return ;
    }
    state.restarting = true;
}

/// A change that may replace a chosen device always leaves the device it names.
pub proof fn lemma_forced_change_sets(current: Option<Seq<char>>, device: Option<Seq<char>>)
    ensures
        device_after(current, device, true) == device,
{
}

/// A change that may not replace a chosen device fills an empty choice and leaves
/// any other as it is.
pub proof fn lemma_gentle_change_keeps(current: Option<Seq<char>>, device: Option<Seq<char>>)
    ensures
        device_after(current, device, false) == if current is Some {
            current
        } else {
            device
        },
{
}

/// Making the same change twice is making it once: the second time nothing is
/// changed, so that no second restart is asked for.
pub proof fn lemma_change_is_idempotent(
    current: Option<Seq<char>>,
    device: Option<Seq<char>>,
    set_if_present: bool,
)
    ensures
        device_change_ignored(
            device_after(current, device, set_if_present),
            device,
            set_if_present,
        ),
{
}

/// The device chosen for a voice call is captured from, whatever is configured,
/// and once the choice is taken back the configured one is.
pub proof fn lemma_voice_call_device_wins(name: Seq<char>, configured: Seq<char>)
    ensures
        audio_input(device_after(None, Some(name), false), configured) == name,
        audio_input(device_after(Some(name), None, true), configured) == configured,
{
}

/// Asking for a restart any number of times is asking once.
pub proof fn lemma_restart_is_idempotent(state: AudioState)
    ensures
        state.asked_to_restart().asked_to_restart() == state.asked_to_restart(),
        state.asked_to_restart().restarting,
{
}

/// Where packets are read the service loops by itself, and elsewhere it is run again
/// every 33 milliseconds.
pub proof fn lemma_schedule(target: Target)
    ensures
        match target {
            Target::Pa(_) => schedule_of(target) is Run,
            Target::Cpal(_) => schedule_of(target) matches Schedule::Repeat { interval_ms }
                && interval_ms == 33,
        },
{
}

/// A device is known by exactly its name.
pub proof fn lemma_device_name(device: Option<String>)
    ensures
        device is Some <==> device_name(device) is Some,
        device matches Some(name) ==> device_name(device) == Some(name@),
{
}

/// The device of a state is the one that is chosen in it.
pub proof fn lemma_voice_call_device(state: AudioState)
    ensures
        state.voice_call_device() is Some <==> state.voice_call_input_device is Some,
        state.voice_call_input_device matches Some(name) ==> state.voice_call_device() == Some(
            name@,
        ),
{
}

/// Asking for a restart changes nothing but the request.
pub proof fn lemma_restart_request_is_all(state: AudioState)
    ensures
        state.asked_to_restart().restarting,
        state.asked_to_restart().voice_call_input_device == state.voice_call_input_device,
        state.asked_to_restart().gate == state.gate,
        state.asked_to_restart().input_buffer == state.input_buffer,
{
}

/// A change takes effect exactly where it names another device and either may replace
/// a chosen one or finds none chosen.
pub proof fn lemma_when_a_change_counts(
    current: Option<Seq<char>>,
    device: Option<Seq<char>>,
    set_if_present: bool,
)
    ensures
        !device_change_ignored(current, device, set_if_present) <==> device != current && (
        set_if_present || current is None),
        device_after(current, device, set_if_present) == if set_if_present || current is None {
            device
        } else {
            current
        },
{
}

/// The device chosen for a voice call is captured from, and the configured one where
/// none is chosen.
pub proof fn lemma_audio_input(voice_call: Option<Seq<char>>, configured: Seq<char>)
    ensures
        voice_call is None ==> audio_input(voice_call, configured) == configured,
        voice_call is Some ==> voice_call == Some(audio_input(voice_call, configured)),
{
}

} // verus!
