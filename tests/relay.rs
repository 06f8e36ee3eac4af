use realm::endpoint::{ConnectOpts, Endpoint, ProxyVersion};
use realm::failover::{Failover, Step};
use realm::listener::{AcceptAction, DrainPolicy, Listener};
use realm::proxy::{proxy_header, PeerPair};
use realm::relay::{adapters, Adapter, CopyAction, CopyEvent, CopyLoop, Direction, SessionError};

fn opts() -> ConnectOpts {
    ConnectOpts { no_delay: true, connect_timeout: 5, buffer_size: 16384, transport: None, proxy: None, hook: None }
}

fn endpoint(extra: &[&str]) -> Endpoint {
    Endpoint {
        laddr: "127.0.0.1:9000".to_string(),
        raddr: "127.0.0.1:9100".to_string(),
        extra_raddrs: extra.iter().map(|s| s.to_string()).collect(),
        conn_opts: opts(),
    }
}

/// Drives a failover where candidate `i` connects exactly when `oks[i]`,
/// returning the indices tried and the outcome.
fn drive(oks: &[bool]) -> (Vec<usize>, Result<usize, SessionError>) {
    let mut f = Failover::start(oks.len());
    let mut tried = Vec::new();
    while let Step::Try(i) = f.step {
        tried.push(i);
        f.report(if oks[i] { Ok(()) } else { Err(format!("refused {}", i)) });
    }
    (tried, f.finish())
}

#[test]
fn primary_only_connects() {
    let (tried, r) = drive(&[true]);
    assert_eq!(tried, vec![0]);
    assert_eq!(r.unwrap(), 0);
}

#[test]
fn primary_only_fails_exhausted() {
    let (tried, r) = drive(&[false]);
    assert_eq!(tried, vec![0]);
    match r {
        Err(SessionError::FailoverExhausted(errs)) => assert_eq!(errs, vec!["refused 0".to_string()]),
        _ => panic!("expected exhaustion"),
    }
}

#[test]
fn first_success_stops_search() {
    let (tried, r) = drive(&[false, false, true, true, true]);
    assert_eq!(tried, vec![0, 1, 2]);
    assert_eq!(r.unwrap(), 2);
}

#[test]
fn all_fail_exhausts_with_every_reason() {
    let (tried, r) = drive(&[false, false, false]);
    assert_eq!(tried, vec![0, 1, 2]);
    match r {
        Err(SessionError::FailoverExhausted(errs)) => assert_eq!(errs.len(), 3),
        _ => panic!("expected exhaustion"),
    }
}

#[test]
fn scenario_fallback_echoes_ping() {
    let ep = endpoint(&["127.0.0.1:9200"]);
    let cands = ep.candidates();
    assert_eq!(cands, vec!["127.0.0.1:9100".to_string(), "127.0.0.1:9200".to_string()]);
    let (tried, r) = drive(&[false, true]);
    assert_eq!(tried, vec![0, 1]);
    let chosen = r.unwrap();
    assert_eq!(cands[chosen], "127.0.0.1:9200");
    assert!(adapters(&ep.conn_opts).is_empty());
    let mut l = CopyLoop::new();
    match l.on_event(CopyEvent::Data(Direction::Upload, b"ping".to_vec())) {
        CopyAction::Write(Direction::Upload, b) => assert_eq!(b, b"ping".to_vec()),
        _ => panic!("expected upload write"),
    }
    match l.on_event(CopyEvent::Data(Direction::Download, b"ping".to_vec())) {
        CopyAction::Write(Direction::Download, b) => assert_eq!(b, b"ping".to_vec()),
        _ => panic!("expected download write"),
    }
    assert!(l.open);
}

#[test]
fn scenario_unreachable_closes_without_relay() {
    let ep = endpoint(&["127.0.0.1:9200"]);
    let (tried, r) = drive(&[false, false]);
    assert_eq!(tried.len(), ep.candidates().len());
    assert!(matches!(r, Err(SessionError::FailoverExhausted(_))));
}

#[test]
fn copy_loop_relays_bytes_in_order() {
    let mut l = CopyLoop::new();
    let mut up = Vec::new();
    for chunk in [&b"he"[..], &b"llo"[..], &b" world"[..]] {
        if let CopyAction::Write(Direction::Upload, b) = l.on_event(CopyEvent::Data(Direction::Upload, chunk.to_vec())) {
            up.extend_from_slice(&b);
        }
    }
    assert_eq!(up, b"hello world".to_vec());
}

#[test]
fn eof_closes_both_sides() {
    let mut l = CopyLoop::new();
    let a = l.on_event(CopyEvent::Eof(Direction::Download));
    assert!(matches!(a, CopyAction::Close(Ok(()))));
    assert!(!l.open);
}

#[test]
fn copy_error_is_tagged_with_direction() {
    let mut l = CopyLoop::new();
    match l.on_event(CopyEvent::Failed(Direction::Upload, "reset".to_string())) {
        CopyAction::Close(Err(SessionError::Copy(Direction::Upload, m))) => assert_eq!(m, "reset"),
        _ => panic!("expected a copy error"),
    }
    assert!(!l.open);
}

#[test]
fn adapters_follow_pipeline_order() {
    let mut o = opts();
    o.proxy = Some(ProxyVersion::V1);
    o.transport = Some("tls".to_string());
    o.hook = Some("audit".to_string());
    assert_eq!(adapters(&o), vec![Adapter::Hook, Adapter::Transport, Adapter::Proxy(ProxyVersion::V1)]);
    o.hook = None;
    assert_eq!(adapters(&o), vec![Adapter::Transport, Adapter::Proxy(ProxyVersion::V1)]);
}

#[test]
fn accept_failures_do_not_wedge_listener() {
    let mut l = Listener::new(DrainPolicy::Detached);
    for _ in 0..100 {
        assert_eq!(l.on_accept(false), AcceptAction::Resume);
    }
    assert_eq!(l.failures, 100);
    assert_eq!(l.on_accept(true), AcceptAction::Dispatch);
    assert_eq!(l.failures, 0);
    assert!(l.drained());
}

#[test]
fn drain_policy_tracks_sessions() {
    let mut l = Listener::new(DrainPolicy::Drain);
    assert_eq!(l.on_accept(true), AcceptAction::Dispatch);
    assert_eq!(l.on_accept(true), AcceptAction::Dispatch);
    assert_eq!(l.in_flight, 2);
    assert!(!l.drained());
    l.on_session_end();
    l.on_session_end();
    assert!(l.drained());
}

#[test]
fn proxy_v1_header_ipv4() {
    let p = PeerPair { src_ip: vec![192, 168, 0, 1], src_port: 56324, dst_ip: vec![10, 0, 0, 7], dst_port: 443 };
    let h = proxy_header(ProxyVersion::V1, &p).unwrap();
    assert_eq!(h, b"PROXY TCP4 192.168.0.1 10.0.0.7 56324 443\r\n".to_vec());
}

#[test]
fn proxy_v1_header_ipv6() {
    let mut src = vec![0u8; 16];
    src[0] = 0x20;
    src[1] = 0x01;
    src[15] = 1;
    let mut dst = vec![0u8; 16];
    dst[15] = 0xab;
    let p = PeerPair { src_ip: src, src_port: 1, dst_ip: dst, dst_port: 80 };
    let h = proxy_header(ProxyVersion::V1, &p).unwrap();
    assert_eq!(
        String::from_utf8(h).unwrap(),
        "PROXY TCP6 2001:0000:0000:0000:0000:0000:0000:0001 0000:0000:0000:0000:0000:0000:0000:00ab 1 80\r\n"
    );
}

#[test]
fn proxy_v2_header_ipv4() {
    let p = PeerPair { src_ip: vec![1, 2, 3, 4], src_port: 0x1234, dst_ip: vec![5, 6, 7, 8], dst_port: 80 };
    let h = proxy_header(ProxyVersion::V2, &p).unwrap();
    let mut want = vec![0x0D, 0x0A, 0x0D, 0x0A, 0x00, 0x0D, 0x0A, 0x51, 0x55, 0x49, 0x54, 0x0A, 0x21, 0x11, 0, 12];
    want.extend_from_slice(&[1, 2, 3, 4, 5, 6, 7, 8, 0x12, 0x34, 0, 80]);
    assert_eq!(h, want);
}

#[test]
fn proxy_header_rejects_mixed_families() {
    let p = PeerPair { src_ip: vec![1, 2, 3, 4], src_port: 1, dst_ip: vec![0; 16], dst_port: 2 };
    assert!(proxy_header(ProxyVersion::V1, &p).is_none());
    assert!(proxy_header(ProxyVersion::V2, &p).is_none());
}
