use vstd::prelude::*;

use crate::config::RunConfig;

verus! {

/// Where a run stands: the outcome of which action it waits for, or that it
/// has ended.
#[derive(Clone, Copy, Debug, PartialEq, Eq, Structural)]
pub enum Phase {
    AwaitConfig,
    AwaitConnection,
    AwaitSession,
    AwaitDriver,
    AwaitRequestSent,
    AwaitBodySent,
    AwaitStreamFinished,
    AwaitResponse,
    AwaitChunk,
    AwaitShutdownSent,
    AwaitDriverJoined,
    Complete,
    Aborted,
}

/// What the caller is to do next.
#[derive(Clone, Copy, Debug, PartialEq, Eq, Structural)]
pub enum Action {
    /// Build the TLS and QUIC client configuration.
    BuildConfig,
    /// Open a client endpoint and connect to the server.
    Connect,
    /// Negotiate HTTP/3 on the connection.
    OpenSession { send_grease: bool },
    /// Start the task that drives the connection until it closes or is told
    /// to shut down.
    SpawnDriver,
    /// Open the request stream and send the request head.
    SendRequest { send_content_length: bool },
    /// Send the whole payload as the request body.
    SendBody,
    /// Mark the send side of the stream finished.
    FinishStream,
    /// Wait for the response head and show it.
    ReceiveResponse,
    /// Wait for the next body chunk, or the end of the body.
    ReceiveChunk,
    /// Tell the driver task to shut the connection down.
    SignalShutdown,
    /// Wait for the driver task to end.
    JoinDriver,
    /// The run is over: print the separator line.
    Finish,
    /// A step failed: stop the probe.
    Abort,
}

/// The outcome of the last action, as the caller reports it.
#[derive(Clone, Copy, Debug, PartialEq, Eq, Structural)]
pub enum Event {
    /// The action completed.
    Succeeded,
    /// A body chunk arrived.
    Chunk,
    /// The response body ended.
    EndOfBody,
    /// The action failed.
    Failed,
}

/// The state of one run, with the resources that it holds.
#[derive(Clone, Copy, Debug, PartialEq, Eq, Structural)]
pub struct RunState {
    pub config: RunConfig,
    pub phase: Phase,
    /// Connections that this run has opened so far.
    pub connections_opened: u8,
    /// Request streams that this run has opened so far.
    pub streams_opened: u8,
    pub connection_open: bool,
    pub stream_open: bool,
    pub driver_running: bool,
    pub shutdown_signalled: bool,
}

/// How far a phase is from the end of the run, in steps that take no chunk.
pub open spec fn phase_rank(p: Phase) -> nat {
    match p {
        Phase::AwaitConfig => 11,
        Phase::AwaitConnection => 10,
        Phase::AwaitSession => 9,
        Phase::AwaitDriver => 8,
        Phase::AwaitRequestSent => 7,
        Phase::AwaitBodySent => 6,
        Phase::AwaitStreamFinished => 5,
        Phase::AwaitResponse => 4,
        Phase::AwaitChunk => 3,
        Phase::AwaitShutdownSent => 2,
        Phase::AwaitDriverJoined => 1,
        Phase::Complete => 0,
        Phase::Aborted => 0,
    }
}

/// The run has ended, well or not.
pub open spec fn is_terminal(p: Phase) -> bool {
    p == Phase::Complete || p == Phase::Aborted
}

impl RunState {
    /// The resources agree with the phase: a connection is open from its
    /// establishment until the driver is joined, the stream from the request
    /// until the end of the response body, and nothing is ever opened twice.
    pub open spec fn wf(&self) -> bool {
        let r = phase_rank(self.phase);
        &&& self.phase != Phase::Aborted ==> {
            &&& self.connections_opened == (if r <= 9 { 1u8 } else { 0u8 })
            &&& self.connection_open == (1 <= r <= 9)
            &&& self.driver_running == (1 <= r <= 7)
            &&& self.streams_opened == (if r <= 6 { 1u8 } else { 0u8 })
            &&& self.stream_open == (3 <= r <= 6)
            &&& self.shutdown_signalled == (r <= 1)
        }
        &&& self.connections_opened <= 1
        &&& self.streams_opened <= 1
    }

    /// All that the run opened is released again.
    pub open spec fn released(&self) -> bool {
        !self.connection_open && !self.stream_open && !self.driver_running
    }

    /// A run that has not started: its first action is to build the configuration.
    pub open spec fn spec_initial(config: RunConfig) -> RunState {
        RunState {
            config,
            phase: Phase::AwaitConfig,
            connections_opened: 0,
            streams_opened: 0,
            connection_open: false,
            stream_open: false,
            driver_running: false,
            shutdown_signalled: false,
        }
    }

    /// The state after `e` and the action that comes next. A failure, or an
    /// event that the phase does not wait for, aborts the run.
    pub open spec fn spec_next(self, e: Event) -> (RunState, Action) {
        let abort = (RunState { phase: Phase::Aborted, ..self }, Action::Abort);
        if e == Event::Failed {
            abort
        } else {
            match self.phase {
                Phase::AwaitChunk => match e {
                    Event::Chunk => (self, Action::ReceiveChunk),
                    Event::EndOfBody => (
                        RunState { phase: Phase::AwaitShutdownSent, stream_open: false, ..self },
                        Action::SignalShutdown,
                    ),
                    _ => abort,
                },
                _ => if e != Event::Succeeded {
                    abort
                } else {
                    match self.phase {
                        Phase::AwaitConfig => (
                            RunState { phase: Phase::AwaitConnection, ..self },
                            Action::Connect,
                        ),
                        Phase::AwaitConnection => (
                            RunState {
                                phase: Phase::AwaitSession,
                                connections_opened: 1,
                                connection_open: true,
                                ..self
                            },
                            Action::OpenSession { send_grease: self.config.send_grease },
                        ),
                        Phase::AwaitSession => (
                            RunState { phase: Phase::AwaitDriver, ..self },
                            Action::SpawnDriver,
                        ),
                        Phase::AwaitDriver => (
                            RunState { phase: Phase::AwaitRequestSent, driver_running: true, ..self },
                            Action::SendRequest {
                                send_content_length: self.config.send_content_length,
                            },
                        ),
                        Phase::AwaitRequestSent => (
                            RunState {
                                phase: Phase::AwaitBodySent,
                                streams_opened: 1,
                                stream_open: true,
                                ..self
                            },
                            Action::SendBody,
                        ),
                        Phase::AwaitBodySent => (
                            RunState { phase: Phase::AwaitStreamFinished, ..self },
                            Action::FinishStream,
                        ),
                        Phase::AwaitStreamFinished => (
                            RunState { phase: Phase::AwaitResponse, ..self },
                            Action::ReceiveResponse,
                        ),
                        Phase::AwaitResponse => (
                            RunState { phase: Phase::AwaitChunk, ..self },
                            Action::ReceiveChunk,
                        ),
                        Phase::AwaitShutdownSent => (
                            RunState { phase: Phase::AwaitDriverJoined, shutdown_signalled: true, ..self },
                            Action::JoinDriver,
                        ),
                        Phase::AwaitDriverJoined => (
                            RunState {
                                phase: Phase::Complete,
                                connection_open: false,
                                driver_running: false,
                                ..self
                            },
                            Action::Finish,
                        ),
                        _ => abort,
                    }
                },
            }
        }
    }

    /// A new run of `config`, and its first action.
    pub fn new(config: RunConfig) -> (r: (RunState, Action))
        ensures
            r.0 == RunState::spec_initial(config),
            r.0.wf(),
            r.1 == Action::BuildConfig,
    {
        (
            RunState {
                config,
                phase: Phase::AwaitConfig,
                connections_opened: 0,
                streams_opened: 0,
                connection_open: false,
                stream_open: false,
                driver_running: false,
                shutdown_signalled: false,
            },
            Action::BuildConfig,
        )
    }

    /// Whether the run has ended.
    pub fn is_done(&self) -> (r: bool)
        ensures
            r == is_terminal(self.phase),
    {
        matches!(self.phase, Phase::Complete | Phase::Aborted)
    }

    /// Takes the outcome of the last action and says what to do next.
    pub fn step(&mut self, e: Event) -> (r: Action)
        requires
            old(self).wf(),
            !is_terminal(old(self).phase),
        ensures
            (*final(self), r) == old(self).spec_next(e),
            final(self).wf(),
    {
        let s = *self;
        let (next, action) = if let Event::Failed = e {
            (RunState { phase: Phase::Aborted, ..s }, Action::Abort)
        } else {
            match (s.phase, e) {
                (Phase::AwaitChunk, Event::Chunk) => (s, Action::ReceiveChunk),
                (Phase::AwaitChunk, Event::EndOfBody) => (
                    RunState { phase: Phase::AwaitShutdownSent, stream_open: false, ..s },
                    Action::SignalShutdown,
                ),
                (Phase::AwaitConfig, Event::Succeeded) => (
                    RunState { phase: Phase::AwaitConnection, ..s },
                    Action::Connect,
                ),
                (Phase::AwaitConnection, Event::Succeeded) => (
                    RunState {
                        phase: Phase::AwaitSession,
                        connections_opened: 1,
                        connection_open: true,
                        ..s
                    },
                    Action::OpenSession { send_grease: s.config.send_grease },
                ),
                (Phase::AwaitSession, Event::Succeeded) => (
                    RunState { phase: Phase::AwaitDriver, ..s },
                    Action::SpawnDriver,
                ),
                (Phase::AwaitDriver, Event::Succeeded) => (
                    RunState { phase: Phase::AwaitRequestSent, driver_running: true, ..s },
                    Action::SendRequest { send_content_length: s.config.send_content_length },
                ),
                (Phase::AwaitRequestSent, Event::Succeeded) => (
                    RunState {
                        phase: Phase::AwaitBodySent,
                        streams_opened: 1,
                        stream_open: true,
                        ..s
                    },
                    Action::SendBody,
                ),
                (Phase::AwaitBodySent, Event::Succeeded) => (
                    RunState { phase: Phase::AwaitStreamFinished, ..s },
                    Action::FinishStream,
                ),
                (Phase::AwaitStreamFinished, Event::Succeeded) => (
                    RunState { phase: Phase::AwaitResponse, ..s },
                    Action::ReceiveResponse,
                ),
                (Phase::AwaitResponse, Event::Succeeded) => (
                    RunState { phase: Phase::AwaitChunk, ..s },
                    Action::ReceiveChunk,
                ),
                (Phase::AwaitShutdownSent, Event::Succeeded) => (
                    RunState { phase: Phase::AwaitDriverJoined, shutdown_signalled: true, ..s },
                    Action::JoinDriver,
                ),
                (Phase::AwaitDriverJoined, Event::Succeeded) => (
                    RunState {
                        phase: Phase::Complete,
                        connection_open: false,
                        driver_running: false,
                        ..s
                    },
                    Action::Finish,
                ),
                _ => (RunState { phase: Phase::Aborted, ..s }, Action::Abort),
            }
        };
        *self = next;
        action
    }
}

/// The state after feeding `evs` to a run, one event after another; events
/// that come after the run has ended change nothing.
pub open spec fn run_events(s: RunState, evs: Seq<Event>) -> RunState
    decreases evs.len(),
{
    if evs.len() == 0 || is_terminal(s.phase) {
        s
    } else {
        run_events(s.spec_next(evs[0]).0, evs.drop_first())
    }
}

/// Whatever the events, a run opens at most one connection and one request
/// stream, and a run that completes opened exactly one of each and released
/// the connection, the stream and the driver task before it ended.
pub proof fn lemma_run_releases(config: RunConfig, evs: Seq<Event>)
    ensures
        run_events(RunState::spec_initial(config), evs).wf(),
        run_events(RunState::spec_initial(config), evs).connections_opened <= 1,
        run_events(RunState::spec_initial(config), evs).streams_opened <= 1,
        run_events(RunState::spec_initial(config), evs).phase == Phase::Complete ==> {
            let f = run_events(RunState::spec_initial(config), evs);
            &&& f.connections_opened == 1
            &&& f.streams_opened == 1
            &&& f.released()
        },
{
    lemma_run_events_wf(RunState::spec_initial(config), evs);
}

proof fn lemma_run_events_wf(s: RunState, evs: Seq<Event>)
    requires
        s.wf(),
    ensures
        run_events(s, evs).wf(),
    decreases evs.len(),
{
    if evs.len() > 0 && !is_terminal(s.phase) {
        lemma_run_events_wf(s.spec_next(evs[0]).0, evs.drop_first());
    }
}

/// Each step of a run that has not ended either takes a body chunk and stays
/// where it is, or moves to a phase nearer the end.
pub proof fn lemma_step_progress(s: RunState, e: Event)
    requires
        !is_terminal(s.phase),
    ensures
        (s.phase == Phase::AwaitChunk && e == Event::Chunk) ==> s.spec_next(e).0 == s,
        !(s.phase == Phase::AwaitChunk && e == Event::Chunk) ==> phase_rank(s.spec_next(e).0.phase)
            < phase_rank(s.phase),
{
}

/// Once the shutdown signal has gone out, the run ends at the next step,
/// whatever its outcome; and when the driver task is joined without error it
/// ends complete, with all that it held released.
pub proof fn lemma_shutdown_ends_run(s: RunState, signal: Event, join: Event)
    requires
        s.wf(),
        s.phase == Phase::AwaitShutdownSent,
    ensures
        is_terminal(s.spec_next(signal).0.phase)
            || is_terminal(s.spec_next(signal).0.spec_next(join).0.phase),
        signal == Event::Succeeded ==> s.spec_next(signal).0.shutdown_signalled,
        signal == Event::Succeeded && join == Event::Succeeded ==> {
            let f = s.spec_next(signal).0.spec_next(join).0;
            &&& f.phase == Phase::Complete
            &&& f.released()
        },
{
}

/// `n` body chunks.
pub open spec fn chunk_events(n: nat) -> Seq<Event> {
    Seq::new(n, |i: int| Event::Chunk)
}

/// A peer that sends any finite number of chunks and then ends the body
/// moves the run past body reading, to the shutdown signal.
pub proof fn lemma_body_reading_ends(s: RunState, n: nat)
    requires
        s.wf(),
        s.phase == Phase::AwaitChunk,
    ensures
        run_events(s, chunk_events(n).push(Event::EndOfBody)).phase == Phase::AwaitShutdownSent,
        !run_events(s, chunk_events(n).push(Event::EndOfBody)).stream_open,
    decreases n,
{
    let evs = chunk_events(n).push(Event::EndOfBody);
    if n > 0 {
        assert(evs.drop_first() =~= chunk_events((n - 1) as nat).push(Event::EndOfBody));
        assert(evs[0] == Event::Chunk);
        lemma_body_reading_ends(s, (n - 1) as nat);
    } else {
        let f = s.spec_next(Event::EndOfBody).0;
        assert(evs.drop_first() =~= Seq::<Event>::empty());
        assert(run_events(f, evs.drop_first()) == f);
    }
}

} // verus!
