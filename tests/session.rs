use hd_api::response::{classify, classify_no_content, decoded, is_success};
use hd_api::token::authorization_code_form;
use hd_api::{
    ApiError, ClientError, Dispatch, Download, Frame, FrameOutcome, NotificationSession,
    SessionState, StatusAction, StreamEnd, TokenCache, TokenDecision, TokenGrant,
};

#[test]
fn stale_token_is_refreshed_once_for_many_callers() {
    let mut c = TokenCache::new("id", "secret", "r0");
    let decisions: Vec<TokenDecision> = (0..5).map(|_| c.request(1000)).collect();
    let refreshes = decisions.iter().filter(|d| matches!(d, TokenDecision::Refresh)).count();
    let waits = decisions.iter().filter(|d| matches!(d, TokenDecision::Wait)).count();
    assert_eq!(refreshes, 1);
    assert_eq!(waits, 4);
    assert!(matches!(decisions[0], TokenDecision::Refresh));
    let grant = TokenGrant { access_token: "A1".to_string(), expires_in: 3600, refresh_token: Some("r1".to_string()) };
    assert_eq!(c.complete_refresh(Ok(grant), 1000).unwrap(), "A1");
    assert_eq!(c.refresh_token(), "r1");
    for _ in 0..5 {
        match c.request(1001) {
            TokenDecision::Use(t) => assert_eq!(t, "A1"),
            other => panic!("unexpected {:?}", other),
        }
    }
}

#[test]
fn token_within_margin_is_refreshed() {
    let mut c = TokenCache::new("id", "secret", "r0");
    assert!(matches!(c.request(0), TokenDecision::Refresh));
    let grant = TokenGrant { access_token: "A".to_string(), expires_in: 100, refresh_token: None };
    c.complete_refresh(Ok(grant), 0).unwrap();
    assert_eq!(c.refresh_token(), "r0");
    assert!(matches!(c.request(39), TokenDecision::Use(_)));
    assert!(matches!(c.request(40), TokenDecision::Refresh));
}

#[test]
fn failed_refresh_is_auth_error() {
    let mut c = TokenCache::new("id", "secret", "r0");
    assert!(matches!(c.request(5), TokenDecision::Refresh));
    match c.complete_refresh(Err("invalid_grant".to_string()), 5) {
        Err(ClientError::Auth(m)) => assert_eq!(m, "invalid_grant"),
        other => panic!("unexpected {:?}", other),
    }
    assert!(matches!(c.request(5), TokenDecision::Refresh));
}

#[test]
fn token_exchange_forms() {
    let c = TokenCache::new("id", "s", "rt");
    assert_eq!(c.refresh_form().to_query(), "grant_type=refresh_token&refresh_token=rt&client_id=id&client_secret=s");
    assert_eq!(
        authorization_code_form("id", "s", "c0").to_query(),
        "grant_type=authorization_code&code=c0&client_id=id&client_secret=s"
    );
}

#[test]
fn second_unauthorized_is_auth_error() {
    let mut d = Dispatch::new();
    assert!(matches!(d.on_status(401), StatusAction::RefreshAndRetry));
    assert!(matches!(d.on_status(401), StatusAction::Fail(ClientError::Auth(_))));
    let mut e = Dispatch::new();
    assert!(matches!(e.on_status(401), StatusAction::RefreshAndRetry));
    assert!(matches!(e.on_status(200), StatusAction::Proceed));
    let mut f = Dispatch::new();
    assert!(matches!(f.on_status(500), StatusAction::Proceed));
}

#[test]
fn responses_are_classified() {
    assert!(is_success(204));
    assert!(!is_success(300));
    assert_eq!(classify(200, "{}".to_string(), None).unwrap(), "{}");
    let env = ApiError { msg: "nope".to_string(), code: "404".to_string(), auth: None };
    match classify(404, "{...}".to_string(), Some(env)) {
        Err(ClientError::Api(e)) => assert_eq!(e.msg, "nope"),
        other => panic!("unexpected {:?}", other),
    }
    match classify(502, "bad gateway".to_string(), None) {
        Err(ClientError::Http { status, body }) => {
            assert_eq!(status, 502);
            assert_eq!(body, "bad gateway");
        }
        other => panic!("unexpected {:?}", other),
    }
    assert!(classify_no_content(204, "ignored".to_string(), None).is_ok());
    assert!(classify_no_content(409, "".to_string(), None).is_err());
    assert!(matches!(decoded::<u32>(Err("expected value".to_string())), Err(ClientError::Decode(_))));
    assert_eq!(decoded::<u32>(Ok(3)).unwrap(), 3);
}

#[test]
fn download_counts_bytes_written() {
    let mut d = Download::new();
    d.record(10).unwrap();
    d.record(0).unwrap();
    d.record(32).unwrap();
    assert_eq!(d.written(), 42);
    assert_eq!(d.finish(StreamEnd::Complete).unwrap(), 42);
    match d.finish(StreamEnd::Interrupted("reset".to_string())) {
        Err(ClientError::Transport(m)) => assert_eq!(m, "reset"),
        other => panic!("unexpected {:?}", other),
    }
    let mut big = Download::new();
    big.record(usize::MAX).unwrap();
    assert!(matches!(big.record(1), Err(ClientError::Transport(_))));
    assert_eq!(big.written(), usize::MAX);
}

#[test]
fn two_events_then_close() {
    let mut s = NotificationSession::new();
    assert!(!s.wants_frame());
    s.opened();
    assert_eq!(s.current_state(), SessionState::Open);
    let frames = vec![
        Frame::Text("{\"a\":1}".to_string()),
        Frame::Ping(vec![1]),
        Frame::Text("{\"b\":2}".to_string()),
        Frame::Close,
        Frame::Text("{\"late\":3}".to_string()),
    ];
    let mut events = Vec::new();
    let mut finished = 0;
    for f in frames {
        match s.on_frame(f) {
            FrameOutcome::Event(e) => events.push(e),
            FrameOutcome::Finished => finished += 1,
            FrameOutcome::Skip => {}
            FrameOutcome::Failed(e) => panic!("unexpected {:?}", e),
        }
    }
    assert_eq!(events, vec!["{\"a\":1}".to_string(), "{\"b\":2}".to_string()]);
    assert_eq!(finished, 2);
    assert_eq!(s.current_state(), SessionState::Closed);
    assert!(!s.wants_frame());
}

#[test]
fn session_read_error_fails() {
    let mut s = NotificationSession::new();
    s.opened();
    assert!(matches!(s.on_frame(Frame::Binary(vec![0])), FrameOutcome::Skip));
    assert!(matches!(s.on_frame(Frame::Error("eof".to_string())), FrameOutcome::Failed(ClientError::Transport(_))));
    assert_eq!(s.current_state(), SessionState::Failed);
    let mut t = NotificationSession::new();
    let e = t.connect_failed("refused".to_string());
    assert!(matches!(e, ClientError::Transport(_)));
    assert_eq!(t.current_state(), SessionState::Failed);
    t.opened();
    assert_eq!(t.current_state(), SessionState::Failed);
}

#[test]
fn rejected_token_is_dropped_once() {
    let mut c = TokenCache::new("id", "secret", "r0");
    assert!(matches!(c.request(0), TokenDecision::Refresh));
    let grant = TokenGrant { access_token: "A".to_string(), expires_in: 3600, refresh_token: None };
    c.complete_refresh(Ok(grant), 0).unwrap();
    c.invalidate("other");
    assert!(matches!(c.request(1), TokenDecision::Use(_)));
    c.invalidate("A");
    assert!(matches!(c.request(1), TokenDecision::Refresh));
    assert!(matches!(c.request(1), TokenDecision::Wait));
}
