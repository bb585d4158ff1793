use ws_gateway::config::{architecture_named, Config, ModelArch, MAX_INFERENCE_TOKENS};
use ws_gateway::connection::{backend_reply, Connection, Effect, FirstFrame, InboundFrame, Phase};
use ws_gateway::envelope::{
    encode_error, encode_fatal_error, encode_response, encode_session_info, CommunicationResponse,
};
use ws_gateway::registry::Registry;
use ws_gateway::request::{CommunicationRequest, ConnectionRequest};
use ws_gateway::session::{
    delete_commands, put_commands, SessionRecord, StoreCommand, SESSION_TTL_SECS,
};

fn sent(e: &Effect) -> String {
    match e {
        Effect::Send { text } => text.clone(),
        other => panic!("expected a send, got {:?}", other),
    }
}

fn enqueued(e: &Effect) -> String {
    match e {
        Effect::Enqueue { text } => text.clone(),
        other => panic!("expected an enqueue, got {:?}", other),
    }
}

fn text(control: Option<ConnectionRequest>, application: Option<CommunicationRequest>) -> InboundFrame {
    InboundFrame::Text { control, application }
}

fn open_connection(user_id: u64) -> (Connection, String, Vec<Effect>) {
    let mut c = Connection::new(11);
    let e = c.authenticate(FirstFrame::Accepted {
        user_id,
        claims: "{\"sub\":42}".to_string(),
    });
    assert_eq!(e.len(), 1);
    let sid = match &e[0] {
        Effect::StorePut { record } => {
            assert_eq!(record.user_id, user_id);
            assert_eq!(record.claims, "{\"sub\":42}");
            record.session_id.clone()
        }
        other => panic!("expected a store write, got {:?}", other),
    };
    assert_eq!(c.phase(), Phase::Caching);
    let e2 = c.on_store_result(Ok(()));
    (c, sid, e2)
}

#[test]
fn session_created_then_ai_request_is_answered() {
    let (mut c, sid, e) = open_connection(42);
    assert_eq!(c.phase(), Phase::Open);
    assert_eq!(c.session_id(), sid);
    assert_eq!(e.len(), 2);
    assert!(matches!(e[0], Effect::Register));
    let expected = format!(
        "{{\"type\":\"ai_response\",\"status\":\"session_created\",\"response\":\"{{\\\"session_id\\\":\\\"{}\\\",\\\"user_id\\\":42}}\"}}",
        sid
    );
    assert_eq!(sent(&e[1]), expected);

    let e = c.on_frame(text(
        None,
        Some(CommunicationRequest::AIRequest { prompt: "hi".to_string() }),
    ));
    assert_eq!(e.len(), 1);
    match &e[0] {
        Effect::Dispatch { prompt } => assert_eq!(prompt, "hi"),
        other => panic!("expected a dispatch, got {:?}", other),
    }
    assert_eq!(
        backend_reply(&Ok("hello".to_string())),
        "{\"type\":\"ai_response\",\"status\":\"success\",\"response\":\"hello\"}"
    );
    assert_eq!(c.phase(), Phase::Open);
}

#[test]
fn binary_frame_is_refused_and_connection_stays() {
    let (mut c, _, _) = open_connection(5);
    let e = c.on_frame(InboundFrame::NonText);
    assert_eq!(e.len(), 1);
    assert_eq!(
        enqueued(&e[0]),
        "{\"type\":\"error\",\"status\":\"invalid_message\",\"error\":\"Only text messages are supported\"}"
    );
    assert_eq!(c.phase(), Phase::Open);
}

#[test]
fn rejected_authentication_sends_one_error_and_closes() {
    let mut c = Connection::new(3);
    let e = c.authenticate(FirstFrame::Rejected { code: 401, message: "Invalid token".to_string() });
    assert_eq!(e.len(), 1);
    assert_eq!(
        sent(&e[0]),
        "{\"code\":401,\"error\":\"Invalid token\",\"status\":\"authentication_failed\",\"type\":\"error\"}"
    );
    assert_eq!(c.phase(), Phase::Closed);
    assert!(c.on_store_result(Ok(())).is_empty());
    assert!(c.on_frame(InboundFrame::NonText).is_empty());
    assert!(c
        .authenticate(FirstFrame::Accepted { user_id: 1, claims: String::new() })
        .is_empty());
}

#[test]
fn missing_first_frame_is_reported() {
    let mut c = Connection::new(3);
    let e = c.authenticate(FirstFrame::Missing);
    assert_eq!(e.len(), 1);
    assert_eq!(
        sent(&e[0]),
        "{\"code\":400,\"error\":\"No initial message received\",\"status\":\"no_message\",\"type\":\"error\"}"
    );
    assert_eq!(c.phase(), Phase::Closed);
}

#[test]
fn failed_first_read_is_reported() {
    let mut c = Connection::new(3);
    let e = c.authenticate(FirstFrame::ReadFailed { reason: "reset".to_string() });
    assert_eq!(
        sent(&e[0]),
        "{\"code\":400,\"error\":\"Failed to read message: reset\",\"status\":\"connection_error\",\"type\":\"error\"}"
    );
    assert_eq!(c.phase(), Phase::Closed);
}

#[test]
fn store_failure_aborts_without_registering() {
    let mut c = Connection::new(3);
    let _ = c.authenticate(FirstFrame::Accepted { user_id: 9, claims: String::new() });
    let e = c.on_store_result(Err("refused".to_string()));
    assert_eq!(e.len(), 1);
    assert_eq!(
        sent(&e[0]),
        "{\"code\":500,\"error\":\"Failed to cache user data: refused\",\"status\":\"cache_error\",\"type\":\"error\"}"
    );
    assert_eq!(c.phase(), Phase::Closed);
}

#[test]
fn session_id_is_a_hyphenated_uuid() {
    let (c, sid, _) = open_connection(1);
    assert_eq!(sid.len(), 36);
    for (i, ch) in sid.chars().enumerate() {
        if i == 8 || i == 13 || i == 18 || i == 23 {
            assert_eq!(ch, '-');
        } else {
            assert!(ch.is_ascii_digit() || ('a'..='f').contains(&ch));
        }
    }
    assert_eq!(c.user_id(), 1);
    assert_eq!(c.client_id(), 11);
}

#[test]
fn matching_disconnect_closes_and_releases() {
    let (mut c, sid, _) = open_connection(8);
    let e = c.on_frame(text(
        Some(ConnectionRequest::Disconnect { session_id: sid.clone(), user_id: 8 }),
        None,
    ));
    assert_eq!(e.len(), 4);
    assert!(matches!(&e[0], Effect::StoreDelete { session_id } if *session_id == sid));
    assert_eq!(
        enqueued(&e[1]),
        "{\"type\":\"ai_response\",\"status\":\"disconnected\",\"response\":\"Successfully disconnected\"}"
    );
    assert!(matches!(e[2], Effect::Deregister));
    assert!(matches!(&e[3], Effect::StoreDelete { session_id } if *session_id == sid));
    assert_eq!(c.phase(), Phase::Closed);
    assert!(c.on_frame(InboundFrame::NonText).is_empty());
}

#[test]
fn mismatched_disconnect_is_ignored() {
    let (mut c, _, _) = open_connection(8);
    let e = c.on_frame(text(
        Some(ConnectionRequest::Disconnect { session_id: "other".to_string(), user_id: 8 }),
        Some(CommunicationRequest::AIRequest { prompt: "x".to_string() }),
    ));
    assert!(e.is_empty());
    assert_eq!(c.phase(), Phase::Open);
}

#[test]
fn start_connection_when_open_is_refused() {
    let (mut c, _, _) = open_connection(8);
    let e = c.on_frame(text(Some(ConnectionRequest::StartConnection), None));
    assert_eq!(
        enqueued(&e[0]),
        "{\"type\":\"error\",\"status\":\"invalid_request\",\"error\":\"Already connected\"}"
    );
    assert_eq!(c.phase(), Phase::Open);
}

#[test]
fn unknown_request_is_reported_and_connection_stays() {
    let (mut c, _, _) = open_connection(8);
    let e = c.on_frame(text(None, None));
    assert_eq!(e.len(), 1);
    assert_eq!(
        enqueued(&e[0]),
        "{\"type\":\"error\",\"status\":\"invalid_request\",\"error\":\"Unknown request type\"}"
    );
    assert_eq!(c.phase(), Phase::Open);
}

#[test]
fn close_and_end_tear_down_in_order() {
    for frame in [InboundFrame::Close, InboundFrame::Ended] {
        let (mut c, sid, _) = open_connection(8);
        let e = c.on_frame(frame);
        assert_eq!(e.len(), 2);
        assert!(matches!(e[0], Effect::Deregister));
        assert!(matches!(&e[1], Effect::StoreDelete { session_id } if *session_id == sid));
        assert_eq!(c.phase(), Phase::Closed);
    }
}

#[test]
fn frames_before_open_do_nothing() {
    let mut c = Connection::new(2);
    assert!(c.on_frame(InboundFrame::Close).is_empty());
    assert!(c.on_store_result(Ok(())).is_empty());
    assert_eq!(c.phase(), Phase::AwaitingAuth);
    assert_eq!(c.session_id(), "");
}

#[test]
fn backend_failure_is_an_ai_error() {
    assert_eq!(
        backend_reply(&Err("model busy".to_string())),
        "{\"type\":\"error\",\"status\":\"ai_error\",\"error\":\"AI processing failed: model busy\"}"
    );
}

#[test]
fn envelope_strings_are_escaped() {
    assert_eq!(
        encode_error("s", "a\"b\\c\nd\u{1}e\u{1f}/é"),
        "{\"type\":\"error\",\"status\":\"s\",\"error\":\"a\\\"b\\\\c\\nd\\u0001e\\u001f/é\"}"
    );
    assert_eq!(
        encode_response("ok", "\t\r\u{8}\u{c}"),
        "{\"type\":\"ai_response\",\"status\":\"ok\",\"response\":\"\\t\\r\\b\\f\"}"
    );
    assert_eq!(
        encode_fatal_error("x", "", 0),
        "{\"code\":0,\"error\":\"\",\"status\":\"x\",\"type\":\"error\"}"
    );
    assert_eq!(
        encode_session_info("ab", u64::MAX),
        "{\"session_id\":\"ab\",\"user_id\":18446744073709551615}"
    );
}

#[test]
fn response_enum_encodes_with_tag_first() {
    let r = CommunicationResponse::AIResponse {
        status: "success".to_string(),
        response: "out".to_string(),
    };
    assert_eq!(r.to_json(), "{\"type\":\"ai_response\",\"status\":\"success\",\"response\":\"out\"}");
    let e = CommunicationResponse::Error { status: "bad".to_string(), error: "why".to_string() };
    assert_eq!(e.to_json(), "{\"type\":\"error\",\"status\":\"bad\",\"error\":\"why\"}");
}

#[test]
fn store_batches_name_both_hashes() {
    let rec = SessionRecord {
        session_id: "s1".to_string(),
        user_id: 42,
        claims: "{}".to_string(),
    };
    let put = put_commands(&rec);
    assert_eq!(put.len(), 4);
    assert!(matches!(&put[0], StoreCommand::HashSet { key, field, value }
        if key == "session:data" && field == "s1" && value == "{}"));
    assert!(matches!(&put[1], StoreCommand::HashSet { key, field, value }
        if key == "session:user" && field == "s1" && value == "42"));
    assert!(matches!(&put[2], StoreCommand::Expire { key, seconds }
        if key == "session:data" && *seconds == 3600));
    assert!(matches!(&put[3], StoreCommand::Expire { key, seconds }
        if key == "session:user" && *seconds == SESSION_TTL_SECS));
    let del = delete_commands("s1");
    assert_eq!(del.len(), 2);
    assert!(matches!(&del[0], StoreCommand::HashDelete { key, field }
        if key == "session:data" && field == "s1"));
    assert!(matches!(&del[1], StoreCommand::HashDelete { key, field }
        if key == "session:user" && field == "s1"));
}

#[test]
fn registry_adds_replaces_and_removes() {
    let mut r: Registry<String> = Registry::new();
    assert_eq!(r.len(), 0);
    assert!(r.sink_for(1).is_none());
    r.add_client(1, "a".to_string());
    r.add_client(2, "b".to_string());
    r.add_client(1, "c".to_string());
    assert_eq!(r.len(), 2);
    assert_eq!(r.sink_for(1).map(|s| s.as_str()), Some("c"));
    r.remove_client(1);
    r.remove_client(1);
    assert!(!r.contains(1));
    assert!(r.contains(2));
    assert_eq!(r.len(), 1);
}

#[test]
fn config_default_names_llama() {
    let c = Config::default();
    assert_eq!(c.model_path, "open_llama_3b-f16.bin");
    assert_eq!(c.model_arch, "llama");
    assert_eq!(c.architecture(), Some(ModelArch::Llama));
    assert_eq!(MAX_INFERENCE_TOKENS, 140);
}

#[test]
fn architecture_ignores_case_and_white_space() {
    let mut c = Config::default();
    c.model_arch = "  LLaMA-2\n".to_string();
    assert_eq!(c.architecture(), Some(ModelArch::Llama));
    c.model_arch = "GPT2".to_string();
    assert_eq!(c.architecture(), Some(ModelArch::Gpt2));
    c.model_arch = "bert".to_string();
    assert_eq!(c.architecture(), None);
    assert_eq!(architecture_named("llama2"), Some(ModelArch::Llama));
    assert_eq!(architecture_named("Llama"), None);
    assert_eq!(architecture_named(" gpt2"), None);
}

#[test]
fn success_and_error_replies_differ_in_tag() {
    let ok = backend_reply(&Ok("x".to_string()));
    let err = backend_reply(&Err("x".to_string()));
    assert!(ok.starts_with("{\"type\":\"ai_response\""));
    assert!(err.starts_with("{\"type\":\"error\""));
    assert_ne!(ok, err);
}
