use doh_probe::body::render_chunk;
use doh_probe::config::{schedule, RunConfig};
use doh_probe::decimal::decimal;
use doh_probe::hexdump::hex_dump;
use doh_probe::request::{
    request_headers, server_ipv4, HeaderName, DNS_MESSAGE_MEDIA_TYPE, REQUEST_URI, SERVER_NAME,
    SERVER_PORT,
};
use doh_probe::script::{probe_scripted, run_scripted, Report, ScriptedPeer};
use doh_probe::session::{Action, Event, Phase, RunState};

fn cfg(send_grease: bool, send_content_length: bool) -> RunConfig {
    RunConfig { send_grease, send_content_length }
}

fn hello_world_peer() -> ScriptedPeer {
    ScriptedPeer { status: 200, chunks: vec![b"hello ".to_vec(), b"world".to_vec()] }
}

#[test]
fn schedule_runs_four_configurations_in_order() {
    assert_eq!(
        schedule(),
        vec![cfg(true, false), cfg(true, true), cfg(false, false), cfg(false, true)]
    );
}

#[test]
fn fixed_endpoint() {
    assert_eq!(server_ipv4(), [1, 1, 1, 1]);
    assert_eq!(SERVER_PORT, 443);
    assert_eq!(SERVER_NAME, "cloudflare-dns.com");
    assert_eq!(REQUEST_URI, "https://cloudflare-dns.com/dns-query");
}

#[test]
fn decimal_renders_numbers() {
    assert_eq!(decimal(0), b"0".to_vec());
    assert_eq!(decimal(7), b"7".to_vec());
    assert_eq!(decimal(10), b"10".to_vec());
    assert_eq!(decimal(33), b"33".to_vec());
    assert_eq!(decimal(1024), b"1024".to_vec());
    assert_eq!(decimal(usize::MAX), format!("{}", usize::MAX).into_bytes());
}

#[test]
fn hex_dump_matches_debug_hex_format() {
    assert_eq!(hex_dump(&vec![]), b"[]".to_vec());
    assert_eq!(hex_dump(&b"hello ".to_vec()), b"[68, 65, 6c, 6c, 6f, 20]".to_vec());
    assert_eq!(hex_dump(&b"world".to_vec()), b"[77, 6f, 72, 6c, 64]".to_vec());
    let v = vec![0x00u8, 0x0a, 0xff];
    assert_eq!(hex_dump(&v), format!("{:02x?}", v).into_bytes());
}

#[test]
fn render_chunk_decodes_lossily() {
    let line = render_chunk(&b"hello ".to_vec());
    assert_eq!(line.text, "hello ");
    assert_eq!(line.hex, b"[68, 65, 6c, 6c, 6f, 20]".to_vec());
    let bad = render_chunk(&vec![0x61, 0xff, 0x62]);
    assert_eq!(bad.text, "a\u{FFFD}b");
    assert_eq!(bad.hex, b"[61, ff, 62]".to_vec());
    let utf8 = render_chunk(&"é".as_bytes().to_vec());
    assert_eq!(utf8.text, "é");
    let empty = render_chunk(&vec![]);
    assert_eq!(empty.text, "");
    assert_eq!(empty.hex, b"[]".to_vec());
}

#[test]
fn headers_without_content_length() {
    let h = request_headers(cfg(true, false), 33);
    assert_eq!(h.len(), 2);
    assert_eq!(h[0].name, HeaderName::ContentType);
    assert_eq!(h[0].name.as_str(), "Content-Type");
    assert_eq!(h[0].value, DNS_MESSAGE_MEDIA_TYPE.as_bytes().to_vec());
    assert_eq!(h[1].name, HeaderName::Accept);
    assert_eq!(h[1].name.as_str(), "Accept");
    assert_eq!(h[1].value, b"application/dns-message".to_vec());
    assert!(h.iter().all(|f| f.name != HeaderName::ContentLength));
}

#[test]
fn headers_with_content_length_equal_payload_length() {
    let h = request_headers(cfg(false, true), 33);
    assert_eq!(h.len(), 3);
    assert_eq!(h[2].name, HeaderName::ContentLength);
    assert_eq!(h[2].name.as_str(), "Content-Length");
    assert_eq!(h[2].value, b"33".to_vec());
    let zero = request_headers(cfg(false, true), 0);
    assert_eq!(zero[2].value, b"0".to_vec());
}

fn drive(state: &mut RunState, events: &[Event]) -> Vec<Action> {
    events.iter().map(|e| state.step(*e)).collect()
}

#[test]
fn lifecycle_happy_path() {
    let (mut s, first) = RunState::new(cfg(true, false));
    assert_eq!(first, Action::BuildConfig);
    assert_eq!(s.phase, Phase::AwaitConfig);
    let ok = Event::Succeeded;
    let actions = drive(&mut s, &[ok, ok, ok, ok, ok, ok, ok, ok, Event::Chunk, Event::Chunk]);
    assert_eq!(
        actions,
        vec![
            Action::Connect,
            Action::OpenSession { send_grease: true },
            Action::SpawnDriver,
            Action::SendRequest { send_content_length: false },
            Action::SendBody,
            Action::FinishStream,
            Action::ReceiveResponse,
            Action::ReceiveChunk,
            Action::ReceiveChunk,
            Action::ReceiveChunk,
        ]
    );
    assert!(s.connection_open && s.stream_open && s.driver_running);
    assert_eq!(s.connections_opened, 1);
    assert_eq!(s.streams_opened, 1);
    assert_eq!(s.step(Event::EndOfBody), Action::SignalShutdown);
    assert!(!s.stream_open);
    assert!(s.connection_open);
    assert_eq!(s.step(ok), Action::JoinDriver);
    assert!(s.shutdown_signalled);
    assert_eq!(s.step(ok), Action::Finish);
    assert_eq!(s.phase, Phase::Complete);
    assert!(s.is_done());
    assert!(!s.connection_open && !s.stream_open && !s.driver_running);
    assert_eq!(s.connections_opened, 1);
    assert_eq!(s.streams_opened, 1);
}

#[test]
fn lifecycle_failure_aborts() {
    let (mut s, _) = RunState::new(cfg(false, true));
    assert_eq!(s.step(Event::Succeeded), Action::Connect);
    assert_eq!(s.step(Event::Failed), Action::Abort);
    assert_eq!(s.phase, Phase::Aborted);
    assert!(s.is_done());
    assert_eq!(s.connections_opened, 0);
}

#[test]
fn lifecycle_unexpected_event_aborts() {
    let (mut s, _) = RunState::new(cfg(false, false));
    assert_eq!(s.step(Event::Chunk), Action::Abort);
    assert_eq!(s.phase, Phase::Aborted);
    let (mut t, _) = RunState::new(cfg(false, false));
    for _ in 0..8 {
        t.step(Event::Succeeded);
    }
    assert_eq!(t.phase, Phase::AwaitChunk);
    assert_eq!(t.step(Event::Succeeded), Action::Abort);
}

#[test]
fn shutdown_signal_then_join_ends_run() {
    let (mut s, _) = RunState::new(cfg(true, true));
    for _ in 0..8 {
        s.step(Event::Succeeded);
    }
    assert_eq!(s.step(Event::EndOfBody), Action::SignalShutdown);
    assert_eq!(s.phase, Phase::AwaitShutdownSent);
    assert_eq!(s.step(Event::Succeeded), Action::JoinDriver);
    assert_eq!(s.step(Event::Failed), Action::Abort);
    assert!(s.is_done());
}

#[test]
fn many_chunks_then_end_of_body() {
    let (mut s, _) = RunState::new(cfg(true, true));
    for _ in 0..8 {
        s.step(Event::Succeeded);
    }
    for _ in 0..10_000 {
        assert_eq!(s.step(Event::Chunk), Action::ReceiveChunk);
    }
    assert_eq!(s.step(Event::EndOfBody), Action::SignalShutdown);
    assert_eq!(s.phase, Phase::AwaitShutdownSent);
}

#[test]
fn round_trip_hello_world() {
    let payload = vec![0u8; 33];
    let x = run_scripted(cfg(true, false), &payload, &hello_world_peer());
    assert_eq!(x.report.len(), 5);
    assert!(matches!(x.report[0], Report::RunStart(c) if c == cfg(true, false)));
    assert!(matches!(x.report[1], Report::Status(200)));
    let mut text = String::new();
    let mut hex = Vec::new();
    for r in &x.report[2..4] {
        match r {
            Report::Body(line) => {
                text.push_str(&line.text);
                hex.push(line.hex.clone());
            }
            _ => panic!("expected a body line"),
        }
    }
    assert_eq!(text, "hello world");
    assert_eq!(hex, vec![b"[68, 65, 6c, 6c, 6f, 20]".to_vec(), b"[77, 6f, 72, 6c, 64]".to_vec()]);
    assert!(matches!(x.report[4], Report::Separator));
    assert_eq!(x.final_state.phase, Phase::Complete);
}

#[test]
fn empty_body_round_trip() {
    let peer = ScriptedPeer { status: 204, chunks: vec![] };
    let x = run_scripted(cfg(false, true), &vec![1, 2, 3], &peer);
    assert_eq!(x.report.len(), 3);
    assert!(matches!(x.report[1], Report::Status(204)));
    assert!(matches!(x.report[2], Report::Separator));
    assert_eq!(x.request_headers[2].value, b"3".to_vec());
}

#[test]
fn four_configurations_in_sequence() {
    let payload = vec![0xabu8; 47];
    let xs = probe_scripted(&payload, &hello_world_peer());
    assert_eq!(xs.len(), 4);
    let expected = [cfg(true, false), cfg(true, true), cfg(false, false), cfg(false, true)];
    for (x, c) in xs.iter().zip(expected.iter()) {
        assert!(matches!(x.report[0], Report::RunStart(r) if r == *c));
        assert!(matches!(x.report[1], Report::Status(200)));
        assert!(matches!(x.report.last(), Some(Report::Separator)));
        assert_eq!(x.report.len(), 5);
        let length: Vec<_> =
            x.request_headers.iter().filter(|f| f.name == HeaderName::ContentLength).collect();
        if c.send_content_length {
            assert_eq!(length.len(), 1);
            assert_eq!(length[0].value, b"47".to_vec());
        } else {
            assert!(length.is_empty());
        }
        assert_eq!(x.final_state.phase, Phase::Complete);
        assert_eq!(x.final_state.connections_opened, 1);
        assert_eq!(x.final_state.streams_opened, 1);
        assert!(!x.final_state.connection_open);
        assert!(!x.final_state.stream_open);
        assert!(!x.final_state.driver_running);
    }
}
