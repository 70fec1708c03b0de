use ai_completion::completion::{CompletionRequest, ProviderCredential};
use ai_completion::json::{Json, JsonNum, parse_json};
use ai_completion::models::LanguageModel;
use ai_completion::providers::ollama::completion::{
    OllamaCompletionProvider, OllamaRequest, RequestMessage, Role, StreamMachine, Temperature,
    delta_fragment, parse_line, run_lines, server_error_message,
};

fn sample_request() -> OllamaRequest {
    OllamaRequest {
        model: String::from("codellama:7b"),
        messages: vec![
            RequestMessage { role: Role::System, content: String::from("be brief") },
            RequestMessage { role: Role::User, content: String::from("say \"hi\"\n") },
        ],
        stream: true,
        stop: vec![String::from("\n\n")],
        temperature: Temperature { millis: 700 },
    }
}

#[test]
fn request_serializes_to_exact_wire_text() {
    let body = sample_request().data();
    assert_eq!(
        body,
        "{\"model\":\"codellama:7b\",\"messages\":[{\"role\":\"system\",\"content\":\"be brief\"},{\"role\":\"user\",\"content\":\"say \\\"hi\\\"\\n\"}],\"stream\":true,\"stop\":[\"\\n\\n\"],\"temperature\":0.7}"
    );
}

#[test]
fn request_wire_text_is_valid_json_with_ordered_messages() {
    let body = sample_request().data();
    let v: serde_json::Value = serde_json::from_str(&body).unwrap();
    assert_eq!(v.get("model").unwrap().as_str().unwrap(), "codellama:7b");
    assert_eq!(v.get("stream").unwrap().as_bool().unwrap(), true);
    let msgs = v.get("messages").unwrap().as_array().unwrap();
    assert_eq!(msgs.len(), 2);
    assert_eq!(msgs[0].get("role").unwrap().as_str().unwrap(), "system");
    assert_eq!(msgs[1].get("role").unwrap().as_str().unwrap(), "user");
    assert_eq!(msgs[1].get("content").unwrap().as_str().unwrap(), "say \"hi\"\n");
    let temp = v.get("temperature").unwrap().as_f64().unwrap();
    assert!((temp - 0.7).abs() < 1e-9);
}

#[test]
fn default_request_is_empty_and_cold() {
    let r = OllamaRequest::default();
    assert_eq!(r.model, "");
    assert!(r.messages.is_empty());
    assert!(!r.stream);
    assert!(r.stop.is_empty());
    assert_eq!(r.temperature.millis, 0);
    assert_eq!(
        r.data(),
        "{\"model\":\"\",\"messages\":[],\"stream\":false,\"stop\":[],\"temperature\":0.0}"
    );
}

#[test]
fn json_parser_reads_scalars_and_containers() {
    assert_eq!(parse_json("null"), Some(Json::Null));
    assert_eq!(parse_json(" true "), Some(Json::Bool(true)));
    assert_eq!(parse_json("42"), Some(Json::Num(JsonNum::Int(42))));
    assert_eq!(parse_json("-1"), Some(Json::Num(JsonNum::Other)));
    assert_eq!(parse_json("1.5"), Some(Json::Num(JsonNum::Other)));
    assert_eq!(parse_json("\"a b\""), Some(Json::Str(String::from("a b"))));
    match parse_json("[1, \"x\", {}]") {
        Some(Json::Arr(items)) => {
            assert_eq!(items.len(), 3);
            assert_eq!(items[0], Json::Num(JsonNum::Int(1)));
            assert_eq!(items[1], Json::Str(String::from("x")));
        }
        other => panic!("expected an array, got {:?}", other),
    }
}

#[test]
fn json_parser_decodes_escapes_and_surrogate_pairs() {
    assert_eq!(parse_json("\"\\u0041\\n\\t\\\\\""), Some(Json::Str(String::from("A\n\t\\"))));
    // U+1F600 as a surrogate pair
    assert_eq!(parse_json("\"\\uD83D\\uDE00\""), Some(Json::Str(String::from("\u{1F600}"))));
}

#[test]
fn json_parser_rejects_malformed_input() {
    assert_eq!(parse_json(""), None);
    assert_eq!(parse_json("{"), None);
    assert_eq!(parse_json("01"), None);
    assert_eq!(parse_json("\"\\uD83D\""), None);
    assert_eq!(parse_json("true false"), None);
    assert_eq!(parse_json("{\"a\":}"), None);
}

fn frame(content: &str, finish: Option<&str>) -> String {
    let finish = match finish {
        Some(f) => format!("\"{}\"", f),
        None => String::from("null"),
    };
    format!(
        "data: {{\"id\":\"x\",\"object\":\"chat.completion.chunk\",\"created\":1,\"model\":\"m\",\"choices\":[{{\"index\":0,\"delta\":{{\"role\":\"assistant\",\"content\":\"{}\"}},\"finish_reason\":{}}}]}}",
        content, finish
    )
}

#[test]
fn stream_yields_two_fragments_then_ends() {
    let lines = vec![
        frame("Hel", None),
        frame("lo", Some("stop")),
        String::from("data: this line must never be read"),
    ];
    let (items, consumed) = run_lines(&lines);
    assert_eq!(consumed, 2, "no further reads after the finish frame");
    assert_eq!(items.len(), 2);
    let first = items[0].as_ref().unwrap();
    let second = items[1].as_ref().unwrap();
    assert_eq!(delta_fragment(first).unwrap(), "Hel");
    assert_eq!(delta_fragment(second).unwrap(), "lo");
}

#[test]
fn keepalive_lines_do_not_change_the_fragments() {
    let plain = vec![frame("Hel", None), frame("lo", Some("stop"))];
    let noisy = vec![
        String::new(),
        frame("Hel", None),
        String::from(": keep-alive"),
        frame("lo", Some("stop")),
    ];
    let (a, _) = run_lines(&plain);
    let (b, _) = run_lines(&noisy);
    assert_eq!(a, b);
    assert_eq!(a.len(), 2);
}

#[test]
fn malformed_frame_fails_the_stream() {
    let lines = vec![
        frame("ok", None),
        String::from("data: {not json"),
        frame("never", None),
    ];
    let (items, consumed) = run_lines(&lines);
    assert_eq!(consumed, 2);
    assert_eq!(items.len(), 2);
    assert!(items[0].is_ok());
    assert!(items[1].is_err());
}

#[test]
fn machine_stops_reading_after_send_failure() {
    let mut machine = StreamMachine::new();
    assert!(machine.wants_more());
    let out = machine.on_line(&frame("Hel", None));
    assert!(out.unwrap().is_ok());
    assert!(machine.wants_more());
    // the consumer dropped its receiver: the send failed
    machine.on_send_failed();
    assert!(!machine.wants_more(), "no further lines are read, nothing more is sent");
}

#[test]
fn machine_ends_on_finish_reason_and_skips_unmarked_lines() {
    let mut machine = StreamMachine::new();
    assert!(machine.on_line("").is_none());
    assert!(machine.on_line(": comment").is_none());
    assert!(machine.wants_more());
    let out = machine.on_line(&frame("done", Some("stop")));
    assert!(out.unwrap().is_ok());
    assert!(!machine.wants_more());
}

#[test]
fn empty_finish_reason_does_not_end_the_stream() {
    let mut machine = StreamMachine::new();
    let out = machine.on_line(&frame("x", Some("")));
    assert!(out.unwrap().is_ok());
    assert!(machine.wants_more(), "only a non-empty finish reason terminates");
}

#[test]
fn event_without_choices_yields_no_fragment() {
    let line = "data: {\"id\":null,\"object\":\"o\",\"created\":0,\"model\":\"m\",\"choices\":[]}";
    match parse_line(line) {
        Some(Some(e)) => assert_eq!(delta_fragment(&e), None),
        other => panic!("expected a decoded frame, got {:?}", other.is_some()),
    }
}

#[test]
fn absent_delta_content_yields_empty_fragment() {
    let line = "data: {\"object\":\"o\",\"created\":0,\"model\":\"m\",\"choices\":[{\"index\":0,\"delta\":{},\"finish_reason\":\"stop\"}],\"usage\":{\"prompt_tokens\":1,\"completion_tokens\":2,\"total_tokens\":3}}";
    match parse_line(line) {
        Some(Some(e)) => {
            assert_eq!(delta_fragment(&e).unwrap(), "");
            let usage = e.usage.unwrap();
            assert_eq!(usage.total_tokens, 3);
        }
        other => panic!("expected a decoded frame, got {:?}", other.is_some()),
    }
}

#[test]
fn structured_error_body_surfaces_its_message() {
    let msg = server_error_message(400, "{\"error\":{\"message\":\"bad request\"}}");
    assert_eq!(msg, "Failed to connect to OpenAI API: bad request");
}

#[test]
fn opaque_error_body_surfaces_status_and_body() {
    let msg = server_error_message(500, "oops");
    assert_eq!(msg, "Failed to connect to OpenAI API: 500 oops");
    assert!(msg.contains("500"));
    assert!(msg.contains("oops"));
}

#[test]
fn empty_error_message_falls_back_to_status_and_body() {
    let body = "{\"error\":{\"message\":\"\"}}";
    let msg = server_error_message(404, body);
    assert_eq!(msg, format!("Failed to connect to OpenAI API: 404 {}", body));
}

#[test]
fn provider_binds_model_and_url() {
    let p = OllamaCompletionProvider::new(
        String::from("http://localhost:11434/v1"),
        String::from("codellama:7b"),
    );
    assert!(p.has_credentials());
    assert_eq!(p.retrieve_credentials(), ProviderCredential::NotNeeded);
    assert_eq!(p.base_model().name(), "codellama:7b");
    assert_eq!(p.request_url(), "http://localhost:11434/v1/chat/completions");
    let q = p.clone();
    assert_eq!(q.request_url(), "http://localhost:11434/v1/chat/completions");
}

#[test]
fn json_integer_bounds() {
    assert_eq!(
        parse_json("18446744073709551615"),
        Some(Json::Num(JsonNum::Int(u64::MAX)))
    );
    assert_eq!(parse_json("18446744073709551616"), Some(Json::Num(JsonNum::Other)));
    assert_eq!(parse_json("0"), Some(Json::Num(JsonNum::Int(0))));
    assert_eq!(parse_json("1e3"), Some(Json::Num(JsonNum::Other)));
}

#[test]
fn oversized_index_is_a_schema_violation() {
    // an index that does not fit in a u32 makes the frame malformed
    let line = "data: {\"object\":\"o\",\"created\":0,\"model\":\"m\",\"choices\":[{\"index\":4294967296,\"delta\":{},\"finish_reason\":null}]}";
    assert_eq!(parse_line(line), Some(None));
}
