use httpbridge::body::{BodyStreamStore, ChunkOutcome, DrainOutcome};
use httpbridge::cancel::{settle_raced, CancellationRegistry, RaceOutcome};
use httpbridge::ephemeral::EphemeralClientCache;
use httpbridge::errors::{BridgeError, ErrorKind};
use httpbridge::method::normalize_method;
use httpbridge::options::{
    ephemeral_transport_config, plan_client, plan_jar, BuildOutcome, ClientPlan, JarPlan,
    RedirectMode, RequestOptions, SessionConfig, TransportConfig,
};
use httpbridge::pipeline::{
    body_disposition, build_request_plan, finish_inline, finish_streamed, finish_without_body,
    resolve_client, resolve_jar, response_allows_body, BodyDisposition, RawResponseParts,
    ResolvedClient,
};
use httpbridge::profiles::ProfileCatalogue;
use httpbridge::sessions::{
    clear_managed_session, create_managed_session, drop_managed_session, generate_session_id,
    normalize_session_id, SessionRegistry,
};
use httpbridge::transports::{create_managed_transport, drop_managed_transport, TransportRegistry};
use httpbridge::ws::{reader_step, Dispatcher, HostCallback, WsEvent, WsRead, WsRegistry};
use httpbridge::wsheaders::{standard_upgrade_names, ws_cookie_header, ws_upgrade_header_names};
use httpbridge::cookies::coalesce_cookie_values;

fn options_for(url: &str) -> RequestOptions {
    RequestOptions {
        url: String::from(url),
        emulation: String::from("chrome_142"),
        emulation_os: String::from("macos"),
        headers: Vec::new(),
        method: String::new(),
        body: None,
        proxy: None,
        timeout: 30000,
        redirect: RedirectMode::Follow,
        session_id: String::from("s1"),
        ephemeral: false,
        disable_default_headers: false,
        insecure: false,
        transport_id: None,
        pool_idle_timeout: None,
        pool_max_idle_per_host: None,
        pool_max_size: None,
        connect_timeout: None,
        read_timeout: None,
    }
}

fn parts(status: u16, content_length: Option<u64>) -> RawResponseParts {
    RawResponseParts {
        status,
        url: String::from("https://example.test/x"),
        headers: vec![(String::from("content-type"), String::from("text/plain"))],
        cookies: Vec::new(),
        content_length,
    }
}

#[test]
fn method_empty_becomes_get() {
    let m = normalize_method("").unwrap();
    assert_eq!(m, "GET");
}

#[test]
fn method_known_tokens_verbatim() {
    for m in ["GET", "POST", "PUT", "DELETE", "PATCH", "HEAD", "OPTIONS", "CONNECT", "TRACE"] {
        assert_eq!(normalize_method(m).unwrap(), m);
    }
}

#[test]
fn method_extension_token_verbatim() {
    assert_eq!(normalize_method("PURGE").unwrap(), "PURGE");
    assert_eq!(normalize_method("M-SEARCH").unwrap(), "M-SEARCH");
}

#[test]
fn method_invalid_token_rejected() {
    let e = normalize_method("BAD METHOD").unwrap_err();
    assert_eq!(e.kind, ErrorKind::BadMethod);
    assert_eq!(normalize_method("GET\r\n").unwrap_err().kind, ErrorKind::BadMethod);
    assert_eq!(normalize_method("caf\u{e9}").unwrap_err().kind, ErrorKind::BadMethod);
}

#[test]
fn allows_body_head_and_statuses() {
    assert!(!response_allows_body(200, "HEAD"));
    assert!(!response_allows_body(200, "head"));
    assert!(!response_allows_body(101, "GET"));
    assert!(!response_allows_body(204, "POST"));
    assert!(!response_allows_body(205, "GET"));
    assert!(!response_allows_body(304, "GET"));
    assert!(response_allows_body(200, "GET"));
    assert!(response_allows_body(404, "POST"));
}

#[test]
fn disposition_boundaries() {
    assert_eq!(body_disposition(200, "GET", Some(64 * 1024)), BodyDisposition::Inline);
    assert_eq!(body_disposition(200, "GET", Some(64 * 1024 + 1)), BodyDisposition::Stream);
    assert_eq!(body_disposition(200, "GET", None), BodyDisposition::Stream);
    assert_eq!(body_disposition(204, "GET", Some(10)), BodyDisposition::NoBody);
    assert_eq!(body_disposition(200, "HEAD", Some(10)), BodyDisposition::NoBody);
}

#[test]
fn small_json_inlined() {
    let body = b"{\"ok\":true,\"message\":\"hello\"}".to_vec();
    assert_eq!(body.len(), 29);
    assert_eq!(body_disposition(200, "GET", Some(29)), BodyDisposition::Inline);
    let r = finish_inline(parts(200, Some(29)), body.clone());
    assert_eq!(r.status, 200);
    assert_eq!(r.content_length, Some(29));
    assert_eq!(r.body_bytes.as_deref(), Some(body.as_slice()));
    assert!(r.body_handle.is_none());
}

#[test]
fn no_body_response_has_neither() {
    let r = finish_without_body(parts(204, Some(10)));
    assert!(r.body_bytes.is_none());
    assert!(r.body_handle.is_none());
    assert_eq!(r.content_length, Some(10));
}

#[test]
fn streamed_response_gets_fresh_handle() {
    let mut store = BodyStreamStore::new();
    let r1 = finish_streamed(parts(200, Some(1048576)), &mut store);
    let r2 = finish_streamed(parts(200, None), &mut store);
    assert_eq!(r1.body_handle, Some(1));
    assert_eq!(r2.body_handle, Some(2));
    assert!(r1.body_bytes.is_none());
    assert_eq!(r1.content_length, Some(1048576));
}

#[test]
fn read_all_removes_handle() {
    let mut store = BodyStreamStore::new();
    let h = store.store_body_stream();
    let chunks = vec![vec![0xABu8; 4], vec![0xABu8; 3]];
    let all = store.read_body_all(h, DrainOutcome::Drained(chunks)).unwrap();
    assert_eq!(all, vec![0xABu8; 7]);
    let again = store.read_body_all(h, DrainOutcome::Drained(Vec::new()));
    assert_eq!(again.unwrap_err().kind, ErrorKind::BodyHandleNotFound);
    let chunk = store.read_body_chunk(h, ChunkOutcome::End);
    assert_eq!(chunk.unwrap_err().kind, ErrorKind::BodyHandleNotFound);
}

#[test]
fn read_all_fast_paths() {
    let mut store = BodyStreamStore::new();
    let h0 = store.store_body_stream();
    assert_eq!(store.read_body_all(h0, DrainOutcome::Drained(Vec::new())).unwrap(), Vec::<u8>::new());
    let h1 = store.store_body_stream();
    let one = store.read_body_all(h1, DrainOutcome::Drained(vec![vec![1, 2, 3]])).unwrap();
    assert_eq!(one, vec![1, 2, 3]);
}

#[test]
fn chunked_reads_follow_stream() {
    let mut store = BodyStreamStore::new();
    let h = store.store_body_stream();
    let c = store.read_body_chunk(h, ChunkOutcome::Chunk(vec![9, 9])).unwrap();
    assert_eq!(c, Some(vec![9, 9]));
    assert!(store.contains_handle(h));
    let end = store.read_body_chunk(h, ChunkOutcome::End).unwrap();
    assert!(end.is_none());
    assert!(!store.contains_handle(h));
    let gone = store.read_body_chunk(h, ChunkOutcome::Chunk(vec![1]));
    assert_eq!(gone.unwrap_err().kind, ErrorKind::BodyHandleNotFound);
}

#[test]
fn stream_error_removes_handle_and_surfaces() {
    let mut store = BodyStreamStore::new();
    let h = store.store_body_stream();
    let e = store
        .read_body_chunk(h, ChunkOutcome::Failed(String::from("connection reset")))
        .unwrap_err();
    assert_eq!(e.kind, ErrorKind::SendFailed);
    assert_eq!(e.detail, "connection reset");
    assert!(!store.contains_handle(h));
}

#[test]
fn drop_body_stream_is_idempotent() {
    let mut store = BodyStreamStore::new();
    let h = store.store_body_stream();
    store.drop_body_stream(h);
    assert!(!store.contains_handle(h));
    store.drop_body_stream(h);
    assert!(!store.contains_handle(h));
}

#[test]
fn session_cookies_visible_to_next_request() {
    let mut reg = SessionRegistry::new();
    let sid = String::from("S");
    reg.jar_for(&sid, 0);
    let set = vec![(String::from("sid"), String::from("abc"))];
    reg.absorb_cookies(&sid, &set, 1);
    reg.jar_for(&sid, 2);
    let cookies = reg.cookies_for(&sid).unwrap();
    assert_eq!(cookies, vec![(String::from("sid"), String::from("abc"))]);
}

#[test]
fn distinct_sessions_never_share_a_jar() {
    let mut reg = SessionRegistry::new();
    let a = String::from("a");
    let b = String::from("b");
    reg.jar_for(&a, 0);
    reg.jar_for(&b, 0);
    reg.absorb_cookies(&a, &vec![(String::from("k"), String::from("v"))], 1);
    assert!(reg.cookies_for(&b).unwrap().is_empty());
    assert_eq!(reg.cookies_for(&a).unwrap().len(), 1);
}

#[test]
fn session_create_clear_drop() {
    let mut reg = SessionRegistry::new();
    let sid = create_managed_session(&mut reg, String::from("sess"), 0).unwrap();
    assert_eq!(sid, "sess");
    reg.absorb_cookies(&sid, &vec![(String::from("k"), String::from("v"))], 1);
    clear_managed_session(&mut reg, &sid, 2).unwrap();
    assert!(reg.cookies_for(&sid).unwrap().is_empty());
    drop_managed_session(&mut reg, &sid);
    assert!(reg.cookies_for(&sid).is_none());
}

#[test]
fn clear_unknown_session_errors() {
    let mut reg = SessionRegistry::new();
    let e = clear_managed_session(&mut reg, &String::from("nope"), 0).unwrap_err();
    assert_eq!(e.kind, ErrorKind::SessionNotFound);
}

#[test]
fn session_ttl_eviction() {
    let mut reg = SessionRegistry::new();
    let sid = String::from("s");
    reg.jar_for(&sid, 0);
    reg.evict_idle(300000);
    assert!(reg.cookies_for(&sid).is_some());
    reg.evict_idle(300001);
    assert!(reg.cookies_for(&sid).is_none());
}

#[test]
fn generated_ids_are_uuids() {
    let a = generate_session_id();
    let b = generate_session_id();
    assert_eq!(a.len(), 36);
    assert_eq!(b.len(), 36);
    assert_ne!(a, b);
}

#[test]
fn blank_session_ids_are_replaced() {
    assert_eq!(normalize_session_id(Some(String::from("keep-me"))), "keep-me");
    let replaced = normalize_session_id(Some(String::from(" \t\n")));
    assert_eq!(replaced.chars().count(), 36);
    let missing = normalize_session_id(None);
    assert_eq!(missing.chars().count(), 36);
}

#[test]
fn ephemeral_cache_reuses_within_ttl() {
    let mut cache = EphemeralClientCache::new();
    let config = SessionConfig {
        emulation: String::from("chrome_142"),
        emulation_os: String::from("macos"),
        proxy: None,
        insecure: false,
    };
    let id1 = cache.client_for(&config, &BuildOutcome::Built, 0).unwrap();
    let id2 = cache.client_for(&config, &BuildOutcome::Built, 100).unwrap();
    assert_eq!(id1, id2);
    cache.evict_idle(100 + 300000);
    let id3 = cache.client_for(&config, &BuildOutcome::Built, 100 + 300000).unwrap();
    assert_eq!(id1, id3);
    cache.evict_idle(100 + 300000 + 300001);
    let id4 = cache.client_for(&config, &BuildOutcome::Built, 100 + 300000 + 300001).unwrap();
    assert_ne!(id1, id4);
}

#[test]
fn ephemeral_cache_is_structural() {
    let mut cache = EphemeralClientCache::new();
    let a = SessionConfig {
        emulation: String::from("chrome_142"),
        emulation_os: String::from("macos"),
        proxy: None,
        insecure: false,
    };
    let b = SessionConfig {
        emulation: String::from("chrome_142"),
        emulation_os: String::from("macos"),
        proxy: Some(String::from("http://proxy.test:8080")),
        insecure: false,
    };
    let ia = cache.client_for(&a, &BuildOutcome::Built, 0).unwrap();
    let ib = cache.client_for(&b, &BuildOutcome::Built, 0).unwrap();
    assert_ne!(ia, ib);
    let ia2 = cache
        .client_for(
            &SessionConfig {
                emulation: String::from("chrome_142"),
                emulation_os: String::from("macos"),
                proxy: None,
                insecure: false,
            },
            &BuildOutcome::Built,
            1,
        )
        .unwrap();
    assert_eq!(ia, ia2);
}

#[test]
fn ephemeral_build_failure_caches_nothing() {
    let mut cache = EphemeralClientCache::new();
    let c = SessionConfig {
        emulation: String::from("chrome_142"),
        emulation_os: String::from("macos"),
        proxy: None,
        insecure: true,
    };
    let e = cache
        .client_for(&c, &BuildOutcome::BuildFailed(String::from("bad proxy")), 0)
        .unwrap_err();
    assert_eq!(e.kind, ErrorKind::ClientBuild);
    assert_eq!(e.detail, "bad proxy");
    let ok = cache.client_for(&c, &BuildOutcome::Built, 1).unwrap();
    assert_eq!(ok, 1);
}

#[test]
fn ephemeral_config_disables_idle_pooling() {
    let c = SessionConfig {
        emulation: String::from("chrome_142"),
        emulation_os: String::from("macos"),
        proxy: None,
        insecure: false,
    };
    let tc = ephemeral_transport_config(&c);
    assert_eq!(tc.pool_max_idle_per_host, Some(0));
    assert!(tc.pool_idle_timeout.is_none());
    assert!(tc.pool_max_size.is_none());
}

#[test]
fn transport_lifecycle() {
    let mut reg = TransportRegistry::new();
    let id = create_managed_transport(&mut reg, BuildOutcome::Built).unwrap();
    assert_eq!(id.len(), 36);
    assert_eq!(reg.get_transport(&id).unwrap(), 1);
    drop_managed_transport(&mut reg, &id);
    assert_eq!(reg.get_transport(&id).unwrap_err().kind, ErrorKind::TransportNotFound);
}

#[test]
fn transport_build_failure_registers_nothing() {
    let mut reg = TransportRegistry::new();
    let e = create_managed_transport(&mut reg, BuildOutcome::BuildFailed(String::from("no tls")))
        .unwrap_err();
    assert_eq!(e.kind, ErrorKind::ClientBuild);
    assert_eq!(e.detail, "no tls");
}

#[test]
fn client_resolution_priority() {
    let mut options = options_for("https://example.test/");
    options.transport_id = Some(String::from("t-1"));
    options.ephemeral = true;
    assert!(matches!(plan_client(&options), ClientPlan::UseTransport(t) if t == "t-1"));
    options.transport_id = None;
    assert!(matches!(plan_client(&options), ClientPlan::UseEphemeral(_)));
    options.ephemeral = false;
    assert!(matches!(plan_client(&options), ClientPlan::BuildFresh(_)));
}

#[test]
fn resolve_client_paths() {
    let mut transports = TransportRegistry::new();
    let mut cache = EphemeralClientCache::new();
    let tid = create_managed_transport(&mut transports, BuildOutcome::Built).unwrap();
    let r = resolve_client(
        &ClientPlan::UseTransport(tid.clone()),
        &transports,
        &mut cache,
        &BuildOutcome::Built,
        0,
    )
    .unwrap();
    assert!(matches!(r, ResolvedClient::Registered(1)));
    let missing = resolve_client(
        &ClientPlan::UseTransport(String::from("missing")),
        &transports,
        &mut cache,
        &BuildOutcome::Built,
        0,
    )
    .unwrap_err();
    assert_eq!(missing.kind, ErrorKind::TransportNotFound);
    let fresh = resolve_client(
        &ClientPlan::BuildFresh(TransportConfig::new(
            String::from("chrome_142"),
            String::from("macos"),
            None,
            false,
            None,
            None,
            None,
            None,
            None,
        )),
        &transports,
        &mut cache,
        &BuildOutcome::Built,
        0,
    )
    .unwrap();
    assert!(matches!(fresh, ResolvedClient::FreshClient));
}

#[test]
fn ephemeral_requests_never_touch_the_session_registry() {
    let mut reg = SessionRegistry::new();
    let mut options = options_for("https://example.test/");
    options.ephemeral = true;
    options.session_id = String::from("phantom");
    let plan = plan_jar(&options);
    assert!(matches!(plan, JarPlan::Detached));
    resolve_jar(&mut reg, &plan, 0);
    assert!(reg.cookies_for(&String::from("phantom")).is_none());
}

#[test]
fn request_plan_preserves_everything() {
    let mut options = options_for("https://example.test/path?q=1");
    options.method = String::from("post");
    options.headers = vec![
        (String::from("x-a"), String::from("1")),
        (String::from("X-A"), String::from("2")),
        (String::from("x-b"), String::from("3")),
    ];
    options.body = Some(vec![1, 2, 3]);
    options.timeout = 5000;
    options.redirect = RedirectMode::Manual;
    let p = build_request_plan(options).unwrap();
    assert_eq!(p.method, "post");
    assert_eq!(p.url, "https://example.test/path?q=1");
    assert_eq!(
        p.headers,
        vec![
            (String::from("x-a"), String::from("1")),
            (String::from("X-A"), String::from("2")),
            (String::from("x-b"), String::from("3")),
        ]
    );
    assert_eq!(p.body, Some(vec![1, 2, 3]));
    assert_eq!(p.timeout_ms, 5000);
    assert!(matches!(p.redirect, RedirectMode::Manual));
}

#[test]
fn request_plan_rejects_bad_method() {
    let mut options = options_for("https://example.test/");
    options.method = String::from("NOT A METHOD");
    let e = build_request_plan(options).unwrap_err();
    assert_eq!(e.kind, ErrorKind::BadMethod);
}

#[test]
fn cancellation_is_single_shot() {
    let mut reg = CancellationRegistry::new();
    let _token = reg.register(42);
    assert!(reg.cancel_request(42));
    assert!(!reg.cancel_request(42));
}

#[test]
fn cancellation_token_aborts() {
    let mut reg = CancellationRegistry::new();
    let token = reg.register(7);
    assert!(!token.is_cancelled());
    assert!(reg.cancel_request(7));
    assert!(token.is_cancelled());
}

#[test]
fn raced_outcome_settles() {
    let aborted = settle_raced(RaceOutcome::Cancelled).unwrap_err();
    assert_eq!(aborted.kind, ErrorKind::RequestAborted);
    let send_error = BridgeError::new(ErrorKind::SendFailed, String::from("tls handshake"));
    let failed = settle_raced(RaceOutcome::Finished(Err(send_error))).unwrap_err();
    assert_eq!(failed.kind, ErrorKind::SendFailed);
    let done = settle_raced(RaceOutcome::Finished(Ok(finish_without_body(parts(204, None)))));
    assert_eq!(done.unwrap().status, 204);
}

#[test]
fn completed_request_cannot_be_cancelled() {
    let mut reg = CancellationRegistry::new();
    let _token = reg.register(9);
    reg.complete(9);
    assert!(!reg.cancel_request(9));
}

#[test]
fn ws_registry_lifecycle() {
    let mut reg = WsRegistry::new();
    let a = reg.store_connection();
    let b = reg.store_connection();
    assert_eq!(a, 1);
    assert_eq!(b, 2);
    assert!(reg.get_connection(a));
    reg.remove_connection(a);
    assert!(!reg.get_connection(a));
    assert!(reg.get_connection(b));
}

#[test]
fn ws_echo_delivers_each_message_once_and_one_close() {
    let frames = vec![
        WsRead::Text(String::from("ping")),
        WsRead::Control,
        WsRead::CloseFrame,
    ];
    let mut events: Vec<WsEvent> = Vec::new();
    for frame in frames {
        let (mut step_events, terminate) = reader_step(frame);
        events.append(&mut step_events);
        if terminate {
            break;
        }
    }
    events.push(WsEvent::Close);
    let mut dispatcher = Dispatcher::new(true, true);
    let mut callbacks: Vec<HostCallback> = Vec::new();
    for e in events {
        if let Some(cb) = dispatcher.dispatch(e) {
            callbacks.push(cb);
        }
    }
    if let Some(cb) = dispatcher.finish() {
        callbacks.push(cb);
    }
    let messages: Vec<&HostCallback> = callbacks
        .iter()
        .filter(|c| matches!(c, HostCallback::MessageText(_) | HostCallback::MessageBinary(_)))
        .collect();
    assert_eq!(messages.len(), 1);
    assert!(matches!(messages[0], HostCallback::MessageText(t) if t == "ping"));
    let closes = callbacks.iter().filter(|c| matches!(c, HostCallback::CloseCb)).count();
    assert_eq!(closes, 1);
}

#[test]
fn ws_failure_emits_error_then_single_close() {
    let (events, terminate) = reader_step(WsRead::Failed(String::from("broken pipe")));
    assert!(terminate);
    let mut dispatcher = Dispatcher::new(true, true);
    let mut callbacks: Vec<HostCallback> = Vec::new();
    for e in events {
        if let Some(cb) = dispatcher.dispatch(e) {
            callbacks.push(cb);
        }
    }
    if let Some(cb) = dispatcher.dispatch(WsEvent::Close) {
        callbacks.push(cb);
    }
    if let Some(cb) = dispatcher.finish() {
        callbacks.push(cb);
    }
    assert!(matches!(&callbacks[0], HostCallback::ErrorCb(m) if m == "broken pipe"));
    let closes = callbacks.iter().filter(|c| matches!(c, HostCallback::CloseCb)).count();
    assert_eq!(closes, 1);
}

#[test]
fn ws_close_without_callback_still_latches() {
    let mut dispatcher = Dispatcher::new(false, false);
    assert!(dispatcher.dispatch(WsEvent::Close).is_none());
    assert!(dispatcher.dispatch(WsEvent::Close).is_none());
    assert!(dispatcher.finish().is_none());
}

#[test]
fn upgrade_names_keep_order_and_user_casing() {
    let user = vec![
        (String::from("user-agent"), String::from("x")),
        (String::from("ORIGIN"), String::from("https://a.test")),
    ];
    let names = ws_upgrade_header_names(&user);
    let standard = standard_upgrade_names();
    assert_eq!(names.len(), 19);
    assert_eq!(standard.len(), 19);
    assert_eq!(names[0], "Host");
    assert_eq!(names[4], "user-agent");
    assert_eq!(names[6], "ORIGIN");
    assert_eq!(names[7], "Sec-WebSocket-Version");
    assert_eq!(names[18], "Sec-Fetch-User");
}

#[test]
fn cookie_values_coalesce() {
    let values = vec![
        String::from("  a=b  "),
        String::from("   "),
        String::from("c=d"),
    ];
    assert_eq!(coalesce_cookie_values(&values), "a=b; c=d");
    assert_eq!(coalesce_cookie_values(&Vec::new()), "");
}

#[test]
fn ws_cookie_header_merges_user_and_jar() {
    let user = vec![String::from(" theme=dark ")];
    let jar = vec![(String::from("sid"), String::from("abc"))];
    let header = ws_cookie_header(&user, &jar).unwrap();
    assert_eq!(header, "theme=dark; sid=abc");
    assert!(ws_cookie_header(&vec![String::from("   ")], &Vec::new()).is_none());
}

#[test]
fn profile_fallbacks() {
    let catalogue = ProfileCatalogue::new(
        vec![String::from("chrome_142"), String::from("firefox_133")],
        vec![String::from("macos"), String::from("windows")],
    );
    assert_eq!(catalogue.parse_emulation("firefox_133"), "firefox_133");
    assert_eq!(catalogue.parse_emulation("netscape_4"), "chrome_142");
    assert_eq!(catalogue.parse_emulation_os("windows"), "windows");
    assert_eq!(catalogue.parse_emulation_os("beos"), "macos");
    assert_eq!(catalogue.get_profiles().len(), 2);
    assert_eq!(catalogue.get_operating_systems().len(), 2);
}

#[test]
fn error_kinds_carry_detail() {
    for kind in [
        ErrorKind::RedirectDisabled,
        ErrorKind::WsUpgradeFailed,
        ErrorKind::WsSendFailed,
        ErrorKind::WsCloseFailed,
    ] {
        let e = BridgeError::new(kind, String::from("cause"));
        assert_eq!(e.kind(), kind);
        assert_eq!(e.detail, "cause");
    }
}

#[test]
fn default_redirect_mode_follows() {
    assert!(matches!(RedirectMode::default(), RedirectMode::Follow));
}

#[test]
fn default_timeout_is_thirty_seconds() {
    assert_eq!(httpbridge::options::effective_timeout_ms(None), 30000);
    assert_eq!(httpbridge::options::effective_timeout_ms(Some(5000)), 5000);
}
