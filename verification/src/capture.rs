//! One run of the service where audio is captured through the operating system's
//! device interface: keeping a stream open, and telling subscribers its format.
//!
//! Taking snapshots of the subscribers, opening streams and sending messages is
//! outside work. Each result decides what is done next.

use vstd::prelude::*;

use crate::message::{Message, Misc};
use crate::state::AudioState;

verus! {

/// The stream that runs, by what subscribers are told of it.
#[derive(Clone, Copy, Debug, PartialEq, Eq, Structural)]
pub struct State {
    pub stream: Option<Misc>,
}

impl Default for State {
    /// No stream runs.
    fn default() -> (state: State)
        ensures
            state.stream is None,
    {
        State { stream: None }
    }
}

impl State {
    /// Gives the stream up.
    pub fn reset(&mut self)
        ensures
            final(self).stream is None,
    {
        self.stream = None;
    }
}

/// What is done next.
#[derive(Debug, PartialEq, Eq)]
pub enum RunAction<E> {
    /// Take a snapshot of the subscribers, and do nothing for the new ones.
    EmptySnapshot,
    /// Take a snapshot of the subscribers, and report if there are new ones.
    Snapshot,
    /// Open a stream and start it.
    Play,
    /// Send a message to all subscribers.
    SendToAll(Message),
    /// Send a message to the new subscribers of the snapshot.
    SendToNew(Message),
    /// Go back to the snapshot with a result.
    LeaveSnapshot(Result<(), E>),
    /// The run is over.
    Finish(Result<(), E>),
}

/// What came of the last action.
#[derive(Debug, PartialEq, Eq)]
pub enum RunEvent<E> {
    /// The snapshot has new subscribers.
    Entered,
    /// The snapshot is over.
    SnapshotTaken(Result<(), E>),
    /// A stream runs, of which subscribers are told this; or none could be started.
    Played(Result<Misc, E>),
    Sent,
}

/// Where a run stands: the action that was asked for last.
#[derive(Clone, Copy, Debug, PartialEq, Eq, Structural)]
pub enum RunStage {
    /// A restart, which takes a snapshot.
    RestartSnapshot,
    /// A restart, which opens a stream.
    RestartPlay,
    /// A restart, which tells all subscribers.
    RestartSend,
    /// Taking a snapshot.
    Snapshot,
    /// Opening a stream for new subscribers.
    SnapshotPlay,
    /// Telling new subscribers.
    SnapshotSend,
    /// Going back to the snapshot.
    SnapshotLeft,
    Done,
}

/// The first action of a run. A run that finds a restart asked for gives the
/// stream up.
pub open spec fn run_first<E>(restarting: bool, state: State) -> (
    State,
    RunStage,
    RunAction<E>,
) {
    if restarting {
        (State { stream: None }, RunStage::RestartSnapshot, RunAction::EmptySnapshot)
    } else {
        (state, RunStage::Snapshot, RunAction::Snapshot)
    }
}

/// The result is one of the action that was asked for.
pub open spec fn follows<E>(stage: RunStage, event: RunEvent<E>) -> bool {
    match stage {
        RunStage::RestartSnapshot | RunStage::SnapshotLeft => event is SnapshotTaken,
        RunStage::RestartPlay | RunStage::SnapshotPlay => event is Played,
        RunStage::RestartSend | RunStage::SnapshotSend => event is Sent,
        RunStage::Snapshot => event is Entered || event is SnapshotTaken,
        RunStage::Done => false,
    }
}

/// What a result leads to during a restart.
pub open spec fn restart_next<E>(state: State, stage: RunStage, event: RunEvent<E>) -> (
    State,
    RunStage,
    RunAction<E>,
) {
    match (stage, event) {
        (_, RunEvent::SnapshotTaken(Err(e))) => (state, RunStage::Done, RunAction::Finish(Err(e))),
        (_, RunEvent::SnapshotTaken(Ok(_))) => match state.stream {
            None => (state, RunStage::RestartPlay, RunAction::Play),
            Some(misc) => (
                state,
                RunStage::RestartSend,
                RunAction::SendToAll(Message::Misc(misc)),
            ),
        },
        (_, RunEvent::Played(Err(e))) => (state, RunStage::Done, RunAction::Finish(Err(e))),
        (_, RunEvent::Played(Ok(misc))) => (
            State { stream: Some(misc) },
            RunStage::RestartSend,
            RunAction::SendToAll(Message::Misc(misc)),
        ),
        _ => (state, RunStage::Done, RunAction::Finish(Ok(()))),
    }
}

/// What a result leads to while subscribers are served.
pub open spec fn snapshot_next<E>(state: State, stage: RunStage, event: RunEvent<E>) -> (
    State,
    RunStage,
    RunAction<E>,
) {
    match event {
        RunEvent::SnapshotTaken(result) => (state, RunStage::Done, RunAction::Finish(result)),
        RunEvent::Entered => match state.stream {
            None => (state, RunStage::SnapshotPlay, RunAction::Play),
            Some(misc) => (
                state,
                RunStage::SnapshotSend,
                RunAction::SendToNew(Message::Misc(misc)),
            ),
        },
        RunEvent::Played(Err(e)) => (
            state,
            RunStage::SnapshotLeft,
            RunAction::LeaveSnapshot(Err(e)),
        ),
        RunEvent::Played(Ok(misc)) => (
            State { stream: Some(misc) },
            RunStage::SnapshotSend,
            RunAction::SendToNew(Message::Misc(misc)),
        ),
        RunEvent::Sent => (state, RunStage::SnapshotLeft, RunAction::LeaveSnapshot(Ok(()))),
    }
}

/// The stage belongs to a restart.
pub open spec fn is_restart(stage: RunStage) -> bool {
    stage is RestartSnapshot || stage is RestartPlay || stage is RestartSend
}

/// What a result leads to.
pub open spec fn run_next<E>(state: State, stage: RunStage, event: RunEvent<E>) -> (
    State,
    RunStage,
    RunAction<E>,
) {
    if is_restart(stage) {
        restart_next(state, stage, event)
    } else {
        snapshot_next(state, stage, event)
    }
}

/// Starts a run.
pub fn run<E>(audio: &AudioState, state: &mut State) -> (first: (RunStage, RunAction<E>))
    ensures
        (*final(state), first.0, first.1) == run_first::<E>(audio.restarting, *old(state)),
{
    if !audio.restarting {
        (RunStage::Snapshot, RunAction::Snapshot)
    } else {
        state.reset();
        (RunStage::RestartSnapshot, RunAction::EmptySnapshot)
    }
}

/// Goes on with a restart: once a snapshot was taken, a new stream is opened, all
/// subscribers are told its format, and the request to restart is met.
pub fn run_restart<E>(
    audio: &mut AudioState,
    state: &mut State,
    stage: RunStage,
    event: RunEvent<E>,
) -> (next: (RunStage, RunAction<E>))
    requires
        is_restart(stage),
        follows(stage, event),
    ensures
        (*final(state), next.0, next.1) == restart_next(*old(state), stage, event),
        *final(audio) == if stage is RestartSend {
            (AudioState { restarting: false, ..*old(audio) })
        } else {
            *old(audio)
        },
{
    match event {
        RunEvent::SnapshotTaken(Err(e)) => (RunStage::Done, RunAction::Finish(Err(e))),
        RunEvent::SnapshotTaken(Ok(_)) => match state.stream {
            None => (RunStage::RestartPlay, RunAction::Play),
            Some(misc) => (RunStage::RestartSend, RunAction::SendToAll(Message::Misc(misc))),
        },
        RunEvent::Played(Err(e)) => (RunStage::Done, RunAction::Finish(Err(e))),
        RunEvent::Played(Ok(misc)) => {
            state.stream = Some(misc);
            (RunStage::RestartSend, RunAction::SendToAll(Message::Misc(misc)))
        },
        _ => {
            audio.restarting = false;
            (RunStage::Done, RunAction::Finish(Ok(())))
        },
    }
}

/// Goes on with serving subscribers: new ones are told the format of the stream,
/// which is opened for them if none runs.
pub fn run_serv_snapshot<E>(state: &mut State, stage: RunStage, event: RunEvent<E>) -> (next: (
    RunStage,
    RunAction<E>,
))
    requires
        !is_restart(stage),
        follows(stage, event),
    ensures
        (*final(state), next.0, next.1) == snapshot_next(*old(state), stage, event),
{
    match event {
        RunEvent::SnapshotTaken(result) => (RunStage::Done, RunAction::Finish(result)),
        RunEvent::Entered => match state.stream {
            None => (RunStage::SnapshotPlay, RunAction::Play),
            Some(misc) => (RunStage::SnapshotSend, RunAction::SendToNew(Message::Misc(misc))),
        },
        RunEvent::Played(Err(e)) => (RunStage::SnapshotLeft, RunAction::LeaveSnapshot(Err(e))),
        RunEvent::Played(Ok(misc)) => {
            state.stream = Some(misc);
            (RunStage::SnapshotSend, RunAction::SendToNew(Message::Misc(misc)))
        },
        RunEvent::Sent => (RunStage::SnapshotLeft, RunAction::LeaveSnapshot(Ok(()))),
    }
}

/// Goes on with a run: takes the result of the last action, and gives the next one.
pub fn run_step<E>(
    audio: &mut AudioState,
    state: &mut State,
    stage: RunStage,
    event: RunEvent<E>,
) -> (next: (RunStage, RunAction<E>))
    requires
        follows(stage, event),
    ensures
        (*final(state), next.0, next.1) == run_next(*old(state), stage, event),
        *final(audio) == if stage is RestartSend {
            (AudioState { restarting: false, ..*old(audio) })
        } else {
            *old(audio)
        },
{
    match stage {
        RunStage::RestartSnapshot | RunStage::RestartPlay | RunStage::RestartSend => run_restart(
            audio,
            state,
            stage,
            event,
        ),
        _ => run_serv_snapshot(state, stage, event),
    }
}

/// Where nothing goes wrong, a restart replaces the stream, whatever ran before,
/// and tells all subscribers the format of the new one.
pub proof fn lemma_restart_replaces_stream<E>(state: State, misc: Misc)
    ensures
        ({
            let (t0, s0, a0) = run_first::<E>(true, state);
            let (t1, s1, a1) = run_next(t0, s0, RunEvent::<E>::SnapshotTaken(Ok(())));
            let (t2, s2, a2) = run_next(t1, s1, RunEvent::<E>::Played(Ok(misc)));
            let (t3, s3, a3) = run_next(t2, s2, RunEvent::<E>::Sent);
            &&& t0.stream is None
            &&& a0 == RunAction::<E>::EmptySnapshot
            &&& a1 == RunAction::<E>::Play
            &&& a2 == RunAction::<E>::SendToAll(Message::Misc(misc))
            &&& a3 == RunAction::<E>::Finish(Ok(()))
            &&& t3.stream == Some(misc)
            &&& s2 is RestartSend
        }),
{
}

/// A restart that fails leaves no stream, and ends before the stage at which the
/// request to restart is met: the next run tries again.
pub proof fn lemma_failed_restart_is_retried<E>(state: State, e: E)
    ensures
        ({
            let (t0, s0, _a0) = run_first::<E>(true, state);
            let (t1, s1, _a1) = run_next(t0, s0, RunEvent::<E>::SnapshotTaken(Ok(())));
            let (t2, s2, a2) = run_next(t1, s1, RunEvent::<E>::Played(Err(e)));
            let (t3, s3, a3) = run_next(t0, s0, RunEvent::<E>::SnapshotTaken(Err(e)));
            &&& t2.stream is None
            &&& t3.stream is None
            &&& a2 == RunAction::<E>::Finish(Err(e))
            &&& a3 == RunAction::<E>::Finish(Err(e))
            &&& !(s0 is RestartSend) && !(s1 is RestartSend)
        }),
{
}

/// A stream is opened only where none runs.
pub proof fn lemma_one_stream_at_a_time<E>(state: State, stage: RunStage, event: RunEvent<E>)
    requires
        follows(stage, event),
        run_next(state, stage, event).2 is Play,
    ensures
        state.stream is None,
{
}

/// Subscribers are only ever told the format of the stream that runs.
pub proof fn lemma_told_format_is_current<E>(state: State, stage: RunStage, event: RunEvent<E>)
    requires
        follows(stage, event),
    ensures
        ({
            let (after, _s, action) = run_next(state, stage, event);
            match action {
                RunAction::SendToAll(msg) => after.stream matches Some(misc) && msg
                    == Message::Misc(misc),
                RunAction::SendToNew(msg) => after.stream matches Some(misc) && msg
                    == Message::Misc(misc),
                _ => true,
            }
        }),
{
}

/// Without a restart a running stream is kept, and new subscribers are told its
/// format without a new one being opened.
pub proof fn lemma_running_stream_is_kept<E>(misc: Misc)
    ensures
        ({
            let (t0, s0, _a0) = run_first::<E>(false, State { stream: Some(misc) });
            let (t1, s1, a1) = run_next(t0, s0, RunEvent::<E>::Entered);
            let (t2, s2, a2) = run_next(t1, s1, RunEvent::<E>::Sent);
            &&& a1 == RunAction::<E>::SendToNew(Message::Misc(misc))
            &&& a2 == RunAction::<E>::LeaveSnapshot(Ok(()))
            &&& t2.stream == Some(misc)
        }),
{
}

/// A run serves subscribers and keeps the stream, unless a restart is asked for, which
/// starts with giving the stream up.
pub proof fn lemma_first_action<E>(restarting: bool, state: State)
    ensures
        ({
            let (after, stage, action) = run_first::<E>(restarting, state);
            if restarting {
                after.stream is None && stage is RestartSnapshot && action is EmptySnapshot
            } else {
                after == state && stage is Snapshot && action is Snapshot
            }
        }),
{
}

/// A restart, whatever comes of its actions: a snapshot that fails ends it; else a
/// stream is opened; one that cannot be opened ends it without a stream; else the new
/// one is kept, all subscribers are told exactly its format, and the restart succeeds.
pub proof fn lemma_restart_outcomes<E>(
    state: State,
    snapshot: Result<(), E>,
    played: Result<Misc, E>,
)
    ensures
        ({
            let (t0, s0, _a0) = run_first::<E>(true, state);
            let e1 = RunEvent::<E>::SnapshotTaken(snapshot);
            let (t1, s1, a1) = run_next(t0, s0, e1);
            let e2 = RunEvent::<E>::Played(played);
            let (t2, s2, a2) = run_next(t1, s1, e2);
            let (t3, s3, a3) = run_next(t2, s2, RunEvent::<E>::Sent);
            &&& follows(s0, e1)
            &&& match snapshot {
                Err(e) => a1 == RunAction::<E>::Finish(Err(e)) && s1 is Done && t1.stream is None,
                Ok(_) => {
                    &&& a1 == RunAction::<E>::Play
                    &&& s1 is RestartPlay
                    &&& t1.stream is None
                    &&& follows(s1, e2)
                    &&& match played {
                        Err(e) => a2 == RunAction::<E>::Finish(Err(e)) && s2 is Done
                            && t2.stream is None,
                        Ok(misc) => {
                            &&& a2 == RunAction::<E>::SendToAll(Message::Misc(misc))
                            &&& s2 is RestartSend
                            &&& t2.stream == Some(misc)
                            &&& follows(s2, RunEvent::<E>::Sent)
                            &&& a3 == RunAction::<E>::Finish(Ok(()))
                            &&& s3 is Done
                            &&& t3.stream == Some(misc)
                        },
                    }
                },
            }
        }),
{
}

/// Serving new subscribers, whatever comes of the actions: a stream is opened exactly
/// where none runs; where that fails the snapshot is left with the error; else the new
/// subscribers, and they alone, are told exactly the format of the stream, which is
/// kept, and the snapshot is left with success. The run ends as the snapshot does.
pub proof fn lemma_snapshot_outcomes<E>(
    state: State,
    played: Result<Misc, E>,
    taken: Result<(), E>,
)
    ensures
        ({
            let (t0, s0, _a0) = run_first::<E>(false, state);
            let (t1, s1, a1) = run_next(t0, s0, RunEvent::<E>::Entered);
            let opened = RunEvent::<E>::Played(played);
            let (t2, s2, a2) = run_next(t1, s1, opened);
            let end = RunEvent::<E>::SnapshotTaken(taken);
            &&& follows(s0, RunEvent::<E>::Entered)
            &&& follows(s0, end)
            &&& run_next(t0, s0, end) == (state, RunStage::Done, RunAction::<E>::Finish(taken))
            &&& t1 == state
            &&& match state.stream {
                Some(misc) => a1 == RunAction::<E>::SendToNew(Message::Misc(misc))
                    && s1 is SnapshotSend,
                None => {
                    &&& a1 == RunAction::<E>::Play
                    &&& s1 is SnapshotPlay
                    &&& follows(s1, opened)
                    &&& match played {
                        Ok(misc) => a2 == RunAction::<E>::SendToNew(Message::Misc(misc))
                            && s2 is SnapshotSend && t2.stream == Some(misc),
                        Err(e) => a2 == RunAction::<E>::LeaveSnapshot(Err(e)) && s2 is SnapshotLeft
                            && t2.stream is None,
                    }
                },
            }
        }),
{
}

/// Once the new subscribers are told, the snapshot is left with success and the stream
/// kept, and the run ends as the snapshot does.
pub proof fn lemma_told_snapshot_ends<E>(state: State, taken: Result<(), E>)
    ensures
        follows(RunStage::SnapshotSend, RunEvent::<E>::Sent),
        follows(RunStage::SnapshotLeft, RunEvent::<E>::SnapshotTaken(taken)),
        run_next(state, RunStage::SnapshotSend, RunEvent::<E>::Sent) == (
            state,
            RunStage::SnapshotLeft,
            RunAction::<E>::LeaveSnapshot(Ok(())),
        ),
        run_next(state, RunStage::SnapshotLeft, RunEvent::<E>::SnapshotTaken(taken)) == (
            state,
            RunStage::Done,
            RunAction::<E>::Finish(taken),
        ),
{
}

/// Where a restart finds a stream all the same, it is not opened again: all subscribers
/// are told its format.
pub proof fn lemma_restart_keeps_open_stream<E>(misc: Misc)
    ensures
        run_next(
            State { stream: Some(misc) },
            RunStage::RestartSnapshot,
            RunEvent::<E>::SnapshotTaken(Ok(())),
        ) == (
            State { stream: Some(misc) },
            RunStage::RestartSend,
            RunAction::<E>::SendToAll(Message::Misc(misc)),
        ),
{
}

/// `run_restart` and `run_serv_snapshot` share the stages of a run between them, and
/// each goes on as the run does.
pub proof fn lemma_run_is_split<E>(state: State, stage: RunStage, event: RunEvent<E>)
    ensures
        is_restart(stage) <==> stage is RestartSnapshot || stage is RestartPlay
            || stage is RestartSend,
        is_restart(stage) ==> run_next(state, stage, event) == restart_next(state, stage, event),
        !is_restart(stage) ==> run_next(state, stage, event) == snapshot_next(state, stage, event),
{
}

} // verus!
