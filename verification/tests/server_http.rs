use mcp_suite::bearer_auth::{
    check_authorization_header, check_verified_token, parse_bearer_token, AuthorizationHeader, BearerAuthOptions,
    TokenVerification,
};
use mcp_suite::dns_protection::{check_host, extract_hostname, DnsProtectionConfig, HostHeader};
use mcp_suite::handler::{check_post_request, post_response, HttpResponse, HttpServerHandler, PostedMessageOutcome};
use mcp_suite::http_error::HttpServerError;
use mcp_suite::oauth::{
    check_client_metadata, plan_token_grant, split_whitespace, verify_pkce_challenge, ClientLookup, GrantPlan,
    TokenRequest,
};
use mcp_suite::registry::ResourceRegistry;
use mcp_suite::session::{SessionConfig, SessionManager, SessionState};
use mcp_suite::sse_writer::{SseResponseBuilder, SseSetupEvent, SseWriter};

#[test]
fn test_parse_bearer_token() {
    assert_eq!(parse_bearer_token("Bearer abc123"), Some("abc123"));
    assert_eq!(parse_bearer_token("bearer xyz789"), Some("xyz789"));
    assert_eq!(parse_bearer_token("Basic abc123"), None);
    assert_eq!(parse_bearer_token("Bearer"), None);
    assert_eq!(parse_bearer_token(""), None);
}

#[test]
fn test_extract_hostname_simple() {
    assert_eq!(extract_hostname("localhost"), Some("localhost".to_string()));
    assert_eq!(extract_hostname("localhost:3000"), Some("localhost".to_string()));
}

#[test]
fn test_extract_hostname_ipv4() {
    assert_eq!(extract_hostname("127.0.0.1"), Some("127.0.0.1".to_string()));
    assert_eq!(extract_hostname("127.0.0.1:8080"), Some("127.0.0.1".to_string()));
}

#[test]
fn test_extract_hostname_ipv6() {
    assert_eq!(extract_hostname("[::1]"), Some("[::1]".to_string()));
    assert_eq!(extract_hostname("[::1]:8080"), Some("[::1]".to_string()));
}

#[test]
fn test_extract_hostname_domain() {
    assert_eq!(extract_hostname("example.com"), Some("example.com".to_string()));
    assert_eq!(extract_hostname("example.com:443"), Some("example.com".to_string()));
    assert_eq!(extract_hostname("api.example.com:8080"), Some("api.example.com".to_string()));
}

#[test]
fn test_config_localhost() {
    let config = DnsProtectionConfig::localhost();
    assert!(config.is_allowed("localhost"));
    assert!(config.is_allowed("127.0.0.1"));
    assert!(config.is_allowed("[::1]"));
    assert!(!config.is_allowed("example.com"));
}

#[test]
fn test_config_custom() {
    let config = DnsProtectionConfig::new(vec!["localhost".to_string(), "example.com".to_string()]);
    assert!(config.is_allowed("localhost"));
    assert!(config.is_allowed("example.com"));
    assert!(!config.is_allowed("127.0.0.1"));
    assert!(!config.is_allowed("other.com"));
}

#[test]
fn test_handle_post_wrong_content_type() {
    let response = check_post_request(Some("text/plain"), b"{}");
    match response {
        Err(HttpResponse::Error { status, .. }) => {
            assert_eq!(status, 415);
        }
        _ => panic!("Expected error response"),
    }
}

#[test]
fn test_handle_delete_missing_session() {
    let mut handler = HttpServerHandler::with_server(());
    let response = handler.handle_delete(None);
    match response {
        HttpResponse::Error { status, .. } => {
            assert_eq!(status, 400);
        }
        _ => panic!("Expected error response"),
    }
}

#[test]
fn test_handle_delete_nonexistent_session() {
    let mut handler = HttpServerHandler::with_server(());
    let response = handler.handle_delete(Some("nonexistent"));
    match response {
        HttpResponse::Error { status, .. } => {
            assert_eq!(status, 404);
        }
        _ => panic!("Expected error response"),
    }
}

#[test]
fn test_sse_writer_with_session() {
    let session = SessionState {
        session_id: "test-session".to_string(),
        created_at: 0,
        last_activity: 0,
        initialized: true,
        event_counter: 10,
    };
    let mut buffer: Vec<u8> = Vec::new();
    let mut writer = SseWriter::with_session(&mut buffer, &session);
    let event_id = writer.next_event_id();
    assert_eq!(event_id, "test-session-11");
}

#[test]
fn bearer_header_with_any_case_gives_the_token() {
    assert_eq!(parse_bearer_token("BEARER tok en"), Some("tok en"));
    assert_eq!(parse_bearer_token("BeArEr x"), Some("x"));
    assert_eq!(parse_bearer_token("Bearerx y"), None);
}

#[test]
fn authorization_checks() {
    assert_eq!(check_authorization_header(AuthorizationHeader::Text("Bearer t")).ok(), Some("t"));
    match check_authorization_header(AuthorizationHeader::Missing) {
        Err(e) => {
            assert_eq!(e.status, 401);
            assert_eq!(e.description, "Missing Authorization header");
        }
        Ok(_) => panic!("expected a refusal"),
    }
    let options = BearerAuthOptions::new().with_scopes(vec!["read".to_string(), "write".to_string()]);
    let v = TokenVerification::Verified { expired: false, scopes: vec!["read".to_string()] };
    match check_verified_token(v, &options) {
        Err(e) => {
            assert_eq!(e.status, 403);
            assert_eq!(e.error, "insufficient_scope");
            assert_eq!(
                e.www_authenticate(&options),
                "Bearer error=\"insufficient_scope\", error_description=\"Insufficient scope\", scope=\"read write\""
            );
        }
        Ok(_) => panic!("expected a refusal"),
    }
    let ok = TokenVerification::Verified { expired: false, scopes: vec!["write".to_string(), "read".to_string()] };
    assert!(check_verified_token(ok, &options).is_ok());
    let expired = TokenVerification::Verified { expired: true, scopes: vec![] };
    assert_eq!(check_verified_token(expired, &options).err().unwrap().description, "Token has expired");
}

#[test]
fn host_checks() {
    let config = DnsProtectionConfig::localhost();
    assert!(check_host(&config, HostHeader::Text("localhost:8080")).is_ok());
    assert_eq!(check_host(&config, HostHeader::Text("evil.com")).err().unwrap(), "Invalid Host: evil.com");
    assert_eq!(check_host(&config, HostHeader::Missing).err().unwrap(), "Missing Host header");
    assert_eq!(check_host(&config, HostHeader::Unreadable).err().unwrap(), "Invalid Host header encoding");
}

#[test]
fn post_responses() {
    match post_response(PostedMessageOutcome::Response("{}".to_string()), "s1".to_string(), true) {
        HttpResponse::Json { status, body, session_id } => {
            assert_eq!(status, 200);
            assert_eq!(body, "{}");
            assert_eq!(session_id, Some("s1".to_string()));
        }
        _ => panic!("expected JSON"),
    }
    assert!(matches!(
        post_response(PostedMessageOutcome::NotificationHandled, "s1".to_string(), false),
        HttpResponse::Empty { status: 202 }
    ));
    match check_post_request(Some("application/json; charset=utf-8"), b"{\"a\":1}") {
        Ok(text) => assert_eq!(text, "{\"a\":1}"),
        Err(_) => panic!("expected the body"),
    }
    assert!(matches!(check_post_request(None, &[0xff, 0xfe]), Err(HttpResponse::Error { status: 400, .. })));
}

#[test]
fn sessions_are_created_found_and_removed() {
    let mut m = SessionManager::new(SessionConfig { max_sessions: 1, session_timeout: 10 });
    assert!(m.create_session("a".to_string(), 0).is_ok());
    match m.create_session("b".to_string(), 0) {
        Err(e) => assert_eq!(e.status_code(), 503),
        Ok(_) => panic!("expected the limit"),
    }
    assert!(m.touch_session("a", 5).is_some());
    assert_eq!(m.cleanup_expired(14), 0);
    assert_eq!(m.cleanup_expired(16), 1);
    assert_eq!(m.session_count(), 0);
    assert!(m.remove_session("a").is_none());
}

#[test]
fn http_error_statuses() {
    assert_eq!(HttpServerError::SessionNotFound("x".to_string()).status_code(), 404);
    assert_eq!(HttpServerError::SessionNotFound("x".to_string()).message(), "session not found: x");
}

#[test]
fn sse_setup_events() {
    let session = SessionState {
        session_id: "s".to_string(),
        created_at: 0,
        last_activity: 0,
        initialized: false,
        event_counter: 0,
    };
    let events = SseResponseBuilder::new().endpoint_url("http://h/mcp".to_string()).initialize(&session);
    assert_eq!(events.len(), 2);
    assert!(matches!(&events[0], SseSetupEvent::SessionReady { session_id } if session_id == "s"));
    assert!(matches!(&events[1], SseSetupEvent::Endpoint { endpoint_url } if endpoint_url == "http://h/mcp"));
    let mut w = SseWriter::new(Vec::<u8>::new());
    assert_eq!(w.next_event_id(), "1");
    assert_eq!(w.next_event_id(), "2");
    assert_eq!(w.event_counter(), 2);
}

fn request(grant: &str) -> TokenRequest {
    TokenRequest {
        grant_type: grant.to_string(),
        code: Some("c".to_string()),
        redirect_uri: None,
        client_id: Some("id".to_string()),
        client_secret: None,
        code_verifier: None,
        refresh_token: Some("r".to_string()),
        scope: Some("a  b".to_string()),
        resource: None,
    }
}

#[test]
fn token_grant_plans() {
    match plan_token_grant(&request("authorization_code"), ClientLookup::Found { client_secret: None }, false) {
        Err(f) => assert_eq!(f.description, "code_verifier is required"),
        Ok(_) => panic!("expected a refusal"),
    }
    match plan_token_grant(&request("refresh_token"), ClientLookup::Found { client_secret: None }, false) {
        Ok(GrantPlan::RefreshToken { refresh_token, scopes }) => {
            assert_eq!(refresh_token, "r");
            assert_eq!(scopes, Some(vec!["a".to_string(), "b".to_string()]));
        }
        _ => panic!("expected a refresh grant"),
    }
    match plan_token_grant(&request("password"), ClientLookup::Found { client_secret: None }, false) {
        Err(f) => assert_eq!(f.error, "unsupported_grant_type"),
        Ok(_) => panic!("expected a refusal"),
    }
    match plan_token_grant(&request("refresh_token"), ClientLookup::NotFound, false) {
        Err(f) => assert_eq!(f.status, 401),
        Ok(_) => panic!("expected a refusal"),
    }
}

#[test]
fn pkce_and_metadata() {
    assert!(verify_pkce_challenge(
        "dBjftJeZ4CVP-mB92K27uhbUJU1p1r_wW1gFWFOEjXk",
        "E9Melhoa2OwvFrEMTJguCHaoeK1t8URWbuGJSstw-cM"
    ));
    assert!(!verify_pkce_challenge("x", "y"));
    assert!(check_client_metadata(&vec![]).is_err());
    assert!(check_client_metadata(&vec!["http://cb".to_string()]).is_ok());
    assert_eq!(split_whitespace("  a b\tc "), vec!["a", "b", "c"]);
}

#[test]
fn registry_lookups_and_replacement() {
    let mut r: ResourceRegistry<&str, &str, u32> = ResourceRegistry::new();
    assert!(r.handler("file:///a").is_none());
    r.register_resource("file:///a".to_string(), "A", 1);
    r.register_resource("file:///b".to_string(), "B", 2);
    r.register_resource("file:///a".to_string(), "A2", 3);
    assert_eq!(r.handler("file:///a"), Some(&3));
    assert_eq!(r.handler("file:///b"), Some(&2));
    let mut listed: Vec<&str> = r.list_resources().into_iter().copied().collect();
    listed.sort();
    assert_eq!(listed, vec!["A2", "B"]);
    r.register_template("t".to_string(), "T1");
    r.register_template("t".to_string(), "T2");
    assert_eq!(r.list_templates(), vec![&"T2"]);
}

#[test]
fn session_limit_is_never_exceeded() {
    let mut m = SessionManager::new(SessionConfig { max_sessions: 2, session_timeout: 10 });
    assert!(m.create_session("a".to_string(), 0).is_ok());
    assert!(m.create_session("a".to_string(), 1).is_ok());
    assert_eq!(m.session_count(), 1);
    assert!(m.create_session("b".to_string(), 2).is_ok());
    assert!(m.create_session("c".to_string(), 3).is_err());
    assert_eq!(m.session_count(), 2);
}

#[test]
fn posted_first_message_stores_its_session() {
    let mut handler = HttpServerHandler::with_server(());
    let (s, is_new) = handler.get_or_create_session(None, 5, "s1".to_string()).ok().unwrap();
    assert!(is_new);
    assert_eq!(s.session_id, "s1");
    assert_eq!(handler.session_manager().session_count(), 1);
    let (t, again) = handler.get_or_create_session(Some("s1"), 9, "s2".to_string()).ok().unwrap();
    assert!(!again);
    assert_eq!(t.last_activity, 9);
    assert_eq!(t.created_at, 5);
    assert_eq!(handler.session_manager().session_count(), 1);
}

#[test]
fn get_opens_a_stream_on_the_named_session() {
    let mut handler = HttpServerHandler::with_server(());
    handler.get_or_create_session(None, 1, "live".to_string()).ok().unwrap();
    let (r, events) = handler.handle_get(Some("live"), Some("text/event-stream"), 2, "fresh".to_string());
    assert!(matches!(r, HttpResponse::Sse { ref session_id } if session_id == "live"));
    assert_eq!(events.len(), 2);
    assert_eq!(handler.session_manager().session_count(), 1);
    let (r, _) = handler.handle_get(Some("gone"), None, 3, "fresh".to_string());
    assert!(matches!(r, HttpResponse::Sse { ref session_id } if session_id == "fresh"));
    assert_eq!(handler.session_manager().session_count(), 2);
    let (r, events) = handler.handle_get(None, Some("application/json"), 4, "other".to_string());
    assert!(matches!(r, HttpResponse::Error { status: 406, .. }));
    assert!(events.is_empty());
    assert_eq!(handler.session_manager().session_count(), 2);
}

#[test]
fn delete_removes_only_the_named_session() {
    let mut handler = HttpServerHandler::with_server(());
    handler.get_or_create_session(None, 1, "a".to_string()).ok().unwrap();
    handler.get_or_create_session(None, 1, "b".to_string()).ok().unwrap();
    assert!(matches!(handler.handle_delete(Some("a")), HttpResponse::Empty { status: 204 }));
    assert_eq!(handler.session_manager().session_count(), 1);
    match handler.handle_delete(Some("a")) {
        HttpResponse::Error { status, message } => {
            assert_eq!(status, 404);
            assert_eq!(message, "Session not found: a");
        },
        _ => panic!("expected not found"),
    }
    assert!(matches!(handler.handle_delete(Some("b")), HttpResponse::Empty { status: 204 }));
    assert_eq!(handler.session_manager().session_count(), 0);
}

#[test]
fn allowed_hostnames_are_kept_once() {
    assert_eq!(DnsProtectionConfig::localhost().allowed_hostnames.len(), 3);
    let c = DnsProtectionConfig::new(vec!["a".to_string(), "b".to_string(), "a".to_string()]);
    assert_eq!(c.allowed_hostnames, vec!["a".to_string(), "b".to_string()]);
    assert!(c.is_allowed("a") && c.is_allowed("b") && !c.is_allowed("c"));
}

#[test]
fn post_is_judged_before_any_session() {
    let mut handler = HttpServerHandler::with_server(());
    let rejected = check_post_request(Some("text/plain"), b"{}");
    assert!(matches!(handler.begin_post(None, rejected, Ok(()), 1, "s".to_string()), Err(HttpResponse::Error { status: 415, .. })));
    assert_eq!(handler.session_manager().session_count(), 0);
    let text = check_post_request(Some("application/json"), b"{oops");
    match handler.begin_post(None, text, Err("bad".to_string()), 1, "s".to_string()) {
        Err(HttpResponse::Error { status, message }) => {
            assert_eq!(status, 400);
            assert_eq!(message, "Invalid JSON-RPC message: bad");
        },
        _ => panic!("expected a 400"),
    }
    assert_eq!(handler.session_manager().session_count(), 0);
    let text = check_post_request(None, b"{}");
    let (s, is_new) = handler.begin_post(None, text, Ok(()), 1, "s".to_string()).ok().unwrap();
    assert!(is_new);
    assert_eq!(s.session_id, "s");
    assert_eq!(handler.session_manager().session_count(), 1);
}

#[test]
fn event_ids_count_on_from_the_session() {
    let session = SessionState {
        session_id: "sess".to_string(),
        created_at: 0,
        last_activity: 0,
        initialized: true,
        event_counter: 10,
    };
    let mut w = SseWriter::with_session(Vec::<u8>::new(), &session);
    assert_eq!(w.event_counter(), 10);
    assert_eq!(w.number_events(3), vec!["sess-11".to_string(), "sess-12".to_string(), "sess-13".to_string()]);
    assert_eq!(w.event_counter(), 13);
    assert_eq!(w.next_event_id(), "sess-14");
    assert!(w.into_inner().is_empty());
}
