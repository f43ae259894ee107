use vstd::prelude::*;

use crate::body::{lossy_text, render_chunk, BodyLine};
use crate::config::{schedule, spec_schedule, RunConfig};
use crate::hexdump::hex_list;
use crate::request::{fields_view, request_headers, spec_request_headers, HeaderField};
use crate::session::{is_terminal, phase_rank, Action, Event, Phase, RunState};

verus! {

/// A peer that answers every request alike: with one status and a fixed
/// list of body chunks, and that never fails.
#[derive(Debug)]
pub struct ScriptedPeer {
    pub status: u16,
    pub chunks: Vec<Vec<u8>>,
}

/// One block of what a run shows, in order.
#[derive(Debug)]
pub enum Report {
    /// The line that names the run's configuration.
    RunStart(RunConfig),
    /// The response status.
    Status(u16),
    /// One chunk of the response body.
    Body(BodyLine),
    /// The blank line that closes the run.
    Separator,
}

/// What one run against a scripted peer sent and showed, and how it ended.
#[derive(Debug)]
pub struct Exchange {
    /// The headers of the request that the peer received.
    pub request_headers: Vec<HeaderField>,
    /// What the run showed, in order.
    pub report: Vec<Report>,
    /// The state in which the run ended.
    pub final_state: RunState,
}

/// `line` renders `chunk`.
pub open spec fn renders(line: BodyLine, chunk: Seq<u8>) -> bool {
    line.text@ == lossy_text(chunk) && line.hex@ == hex_list(chunk)
}

/// `x` is what a run of `config` that sends `payload` to `peer` gives: the
/// request headers for that body length, then a report of the configuration,
/// the status, one line per body chunk in order, and the separator; and the
/// run completed, having opened one connection and one stream and released
/// them.
pub open spec fn exchange_matches(x: Exchange, config: RunConfig, payload_len: nat, peer: ScriptedPeer) -> bool {
    let n = peer.chunks@.len();
    &&& fields_view(x.request_headers@) == spec_request_headers(config, payload_len)
    &&& x.report@.len() == n + 3
    &&& x.report@[0] == Report::RunStart(config)
    &&& x.report@[1] == Report::Status(peer.status)
    &&& forall|k: int| 0 <= k < n ==> match #[trigger] x.report@[k + 2] {
        Report::Body(line) => renders(line, peer.chunks@[k]@),
        _ => false,
    }
    &&& x.report@[n as int + 2] == Report::Separator
    &&& x.final_state.config == config
    &&& x.final_state.phase == Phase::Complete
    &&& x.final_state.connections_opened == 1
    &&& x.final_state.streams_opened == 1
    &&& x.final_state.released()
}

/// Runs `config` to its end against `peer`, sending `payload` as the body,
/// and records what the peer received and what the run showed.
pub fn run_scripted(config: RunConfig, payload: &Vec<u8>, peer: &ScriptedPeer) -> (x: Exchange)
    ensures
        exchange_matches(x, config, payload@.len(), *peer),
{
    let n = peer.chunks.len();
    let (mut state, mut action) = RunState::new(config);
    let mut report: Vec<Report> = Vec::new();
    report.push(Report::RunStart(config));
    let mut headers: Vec<HeaderField> = Vec::new();
    let mut i: usize = 0;
    while !state.is_done()
        invariant
            state.wf(),
            state.config == config,
            n == peer.chunks@.len(),
            i <= n,
            state.phase != Phase::Aborted,
            action == Action::ReceiveChunk <==> state.phase == Phase::AwaitChunk,
            state.phase == Phase::AwaitConfig ==> action == Action::BuildConfig,
            state.phase == Phase::AwaitConnection ==> action == Action::Connect,
            state.phase == Phase::AwaitSession ==> action == (Action::OpenSession { send_grease: config.send_grease }),
            state.phase == Phase::AwaitDriver ==> action == Action::SpawnDriver,
            state.phase == Phase::AwaitRequestSent ==> action == (Action::SendRequest { send_content_length: config.send_content_length }),
            state.phase == Phase::AwaitBodySent ==> action == Action::SendBody,
            state.phase == Phase::AwaitStreamFinished ==> action == Action::FinishStream,
            state.phase == Phase::AwaitResponse ==> action == Action::ReceiveResponse,
            state.phase == Phase::AwaitShutdownSent ==> action == Action::SignalShutdown,
            state.phase == Phase::AwaitDriverJoined ==> action == Action::JoinDriver,
            state.phase == Phase::Complete ==> action == Action::Finish,
            phase_rank(state.phase) <= 6 ==> fields_view(headers@) == spec_request_headers(config, payload@.len()),
            phase_rank(state.phase) > 3 ==> report@.len() == 1,
            phase_rank(state.phase) <= 3 ==> report@.len() == i + 2,
            phase_rank(state.phase) > 3 ==> i == 0,
            phase_rank(state.phase) < 3 ==> i == n,
            report@.len() >= 1,
            report@[0] == Report::RunStart(config),
            report@.len() >= 2 ==> report@[1] == Report::Status(peer.status),
            forall|k: int| 0 <= k < i ==> match #[trigger] report@[k + 2] {
                Report::Body(line) => renders(line, peer.chunks@[k]@),
                _ => false,
            },
        decreases phase_rank(state.phase), n - i,
    {
        let event = match action {
            Action::SendRequest { send_content_length: _ } => {
                headers = request_headers(config, payload.len());
                Event::Succeeded
            },
            Action::ReceiveResponse => {
                report.push(Report::Status(peer.status));
                Event::Succeeded
            },
            Action::ReceiveChunk => {
                if i < n {
                    report.push(Report::Body(render_chunk(&peer.chunks[i])));
                    i = i + 1;
                    Event::Chunk
                } else {
                    Event::EndOfBody
                }
            },
            _ => Event::Succeeded,
        };
        action = state.step(event);
    }
    report.push(Report::Separator);
    Exchange { request_headers: headers, report, final_state: state }
}

/// Runs the probe's four configurations, one after another, against `peer`:
/// each run completes and releases what it held before the next begins, and
/// each gives its own block, closed by a separator, with the length header
/// present exactly in the runs that ask for it.
pub fn probe_scripted(payload: &Vec<u8>, peer: &ScriptedPeer) -> (r: Vec<Exchange>)
    ensures
        r@.len() == spec_schedule().len(),
        forall|k: int| 0 <= k < r@.len() ==> exchange_matches(#[trigger] r@[k], spec_schedule()[k], payload@.len(), *peer),
{
    let configs = schedule();
    let mut r: Vec<Exchange> = Vec::new();
    let mut k: usize = 0;
    while k < configs.len()
        invariant
            configs@ == spec_schedule(),
            k <= configs@.len(),
            r@.len() == k,
            forall|j: int| 0 <= j < k ==> exchange_matches(#[trigger] r@[j], spec_schedule()[j], payload@.len(), *peer),
        decreases configs@.len() - k,
    {
        let x = run_scripted(configs[k], payload, peer);
        r.push(x);
        k = k + 1;
    }
    r
}

} // verus!
