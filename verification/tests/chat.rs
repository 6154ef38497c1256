use openclaw_runtime::openclaw::{
    build_usage, command_outcome, command_result, distinct_entries, entry_texts_of, kept_entries,
    present_string, usage_from_counts, extract_last_json_object, generate_idempotency_key, get_string,
    get_u64, list_entry_names, needs_generated_key, normalize_chat_response, parse_json_output,
    spawn_error, timeout_error, OpenClawChatRequest, RequestCounter, OpenClawError, OpenClawRuntime,
    OpenClawRuntimeConfig,
};

fn config() -> OpenClawRuntimeConfig {
    OpenClawRuntimeConfig {
        node_command: "node".to_string(),
        cli_path: "/opt/openclaw/cli.js".to_string(),
        state_dir: "/var/openclaw".to_string(),
        gateway_token: "token".to_string(),
        session_key: "main".to_string(),
        timeout_ms: 600000,
        gateway_log: "/logs/gateway.log".to_string(),
        error_log: "/logs/error.log".to_string(),
        sync_log: "/logs/sync.log".to_string(),
    }
}

fn request(
    message: &str,
    session_key: Option<&str>,
    idempotency_key: Option<&str>,
    timeout_ms: Option<u64>,
) -> OpenClawChatRequest {
    OpenClawChatRequest {
        message: message.to_string(),
        session_key: session_key.map(|s| s.to_string()),
        idempotency_key: idempotency_key.map(|s| s.to_string()),
        timeout_ms,
    }
}

#[test]
fn blank_message_is_bad_request() {
    let rt = OpenClawRuntime::new(config());
    for message in ["", "   ", "\n\t "] {
        match rt.prepare_chat(request(message, None, None, None), "gen".to_string()) {
            Err(OpenClawError::BadRequest(m)) => assert_eq!(m, "message nao pode ser vazio"),
            other => panic!("unexpected {:?}", other),
        }
    }
}

#[test]
fn generated_key_is_needed_only_without_usable_key() {
    assert!(needs_generated_key(&request("hi", None, None, None)));
    assert!(needs_generated_key(&request("hi", None, Some("  "), None)));
    assert!(!needs_generated_key(&request("hi", None, Some("k1"), None)));
}

#[test]
fn chat_command_carries_params_and_timeout() {
    let rt = OpenClawRuntime::new(config());
    let cmd = rt
        .prepare_chat(request("  hello there  ", None, Some("k1"), None), "gen".to_string())
        .unwrap();
    assert_eq!(
        cmd.args,
        vec![
            "gateway",
            "call",
            "agent",
            "--expect-final",
            "--json",
            "--timeout",
            "600000",
            "--params",
            "{\"idempotencyKey\":\"k1\",\"message\":\"hello there\",\"sessionKey\":\"main\"}",
        ]
    );
    assert_eq!(cmd.timeout_ms, 602000);
}

#[test]
fn blank_keys_fall_back() {
    let rt = OpenClawRuntime::new(config());
    let cmd = rt
        .prepare_chat(request("hi", Some(" "), Some(""), Some(5)), "mlx-pilot-openclaw-1-2".to_string())
        .unwrap();
    assert_eq!(cmd.args[6], "1000");
    assert_eq!(
        cmd.args[8],
        "{\"idempotencyKey\":\"mlx-pilot-openclaw-1-2\",\"message\":\"hi\",\"sessionKey\":\"main\"}"
    );
    assert_eq!(cmd.timeout_ms, 3000);
}

#[test]
fn keys_are_kept_untrimmed_and_quoted() {
    let rt = OpenClawRuntime::new(config());
    let cmd = rt
        .prepare_chat(request("say \"hi\"", Some(" s1 "), Some("k"), Some(10_000_000)), String::new())
        .unwrap();
    assert_eq!(cmd.args[6], "900000");
    assert_eq!(
        cmd.args[8],
        "{\"idempotencyKey\":\"k\",\"message\":\"say \\\"hi\\\"\",\"sessionKey\":\" s1 \"}"
    );
    assert_eq!(cmd.timeout_ms, 902000);
}

#[test]
fn failed_params_are_parse_errors() {
    let rt = OpenClawRuntime::new(config());
    let plan = rt.plan_chat(request("hi", None, Some("k"), None), String::new()).unwrap();
    match plan.command(Err("key must be a string".to_string())) {
        Err(OpenClawError::Parse { details }) => {
            assert_eq!(details, "falha serializando params: key must be a string")
        }
        other => panic!("unexpected {:?}", other),
    }
}

#[test]
fn idempotency_key_format() {
    assert_eq!(generate_idempotency_key(1700000000123, 7), "mlx-pilot-openclaw-1700000000123-7");
    assert_eq!(generate_idempotency_key(0, 0), "mlx-pilot-openclaw-0-0");
    assert_ne!(generate_idempotency_key(12, 3), generate_idempotency_key(1, 23));
}

#[test]
fn timeout_error_whole_seconds() {
    match timeout_error(14500) {
        OpenClawError::Timeout { seconds } => assert_eq!(seconds, 14),
        other => panic!("unexpected {:?}", other),
    }
    match timeout_error(500) {
        OpenClawError::Timeout { seconds } => assert_eq!(seconds, 1),
        other => panic!("unexpected {:?}", other),
    }
}

#[test]
fn error_messages() {
    assert_eq!(OpenClawError::BadRequest("bad".to_string()).message(), "bad");
    assert_eq!(
        OpenClawError::Io { context: "ctx".to_string(), source: "src".to_string() }.message(),
        "ctx: src"
    );
    assert_eq!(
        OpenClawError::CommandFailed { command: "node x".to_string(), stderr: "boom".to_string() }
            .message(),
        "comando falhou (node x): boom"
    );
    assert_eq!(OpenClawError::Parse { details: "d".to_string() }.message(), "d");
    assert_eq!(OpenClawError::Timeout { seconds: 14 }.message(), "operacao expirou apos 14s");
    assert_eq!(
        spawn_error("node x", "not found".to_string()).message(),
        "falha executando node x: not found"
    );
}

#[test]
fn command_preview_joins_arguments() {
    let rt = OpenClawRuntime::new(config());
    let cmd = OpenClawRuntime::status_command();
    assert_eq!(cmd.args, vec!["gateway", "call", "--json", "health"]);
    assert_eq!(cmd.timeout_ms, 12000);
    assert_eq!(rt.command_preview(&cmd.args), "node /opt/openclaw/cli.js gateway call --json health");
}

#[test]
fn parse_json_output_cases() {
    assert_eq!(parse_json_output("  \n ").unwrap_err(), "stdout vazio");
    assert_eq!(parse_json_output(" {\"ok\":true} \n").unwrap().text(), "{\"ok\":true}");
    assert_eq!(
        parse_json_output("warning: old node\n{\"ok\":true}").unwrap().text(),
        "{\"ok\":true}"
    );
    assert_eq!(parse_json_output("[1, 2]").unwrap().text(), "[1, 2]");
    assert_eq!(parse_json_output("nothing here").unwrap_err(), "retorno nao e JSON valido");
}

#[test]
fn extract_takes_last_parsing_object() {
    assert_eq!(
        extract_last_json_object("a {\"x\":1} b {\"y\":2}").unwrap(),
        "{\"y\":2}"
    );
    assert_eq!(
        extract_last_json_object("log {\"a\": {\"b\": 1}}").unwrap(),
        "{\"a\": {\"b\": 1}}"
    );
    assert_eq!(extract_last_json_object("{\"a\":1} trailing"), None);
    assert_eq!(extract_last_json_object("no braces"), None);
}

#[test]
fn command_outcome_failure_reports_stderr() {
    match command_outcome("node x".to_string(), false, b"", b"  boom \n") {
        Err(OpenClawError::CommandFailed { command, stderr }) => {
            assert_eq!(command, "node x");
            assert_eq!(stderr, "boom");
        }
        other => panic!("unexpected {:?}", other),
    }
    match command_outcome("node x".to_string(), false, b"{}", b"") {
        Err(OpenClawError::CommandFailed { stderr, .. }) => assert_eq!(stderr, "sem stderr"),
        other => panic!("unexpected {:?}", other),
    }
}

#[test]
fn command_outcome_parses_stdout() {
    let doc = command_outcome("node x".to_string(), true, b"\n{\"status\":\"ok\"}\n", b"").unwrap();
    assert_eq!(doc.text(), "{\"status\":\"ok\"}");
    match command_outcome("node x".to_string(), true, b"oops", b" warn ") {
        Err(OpenClawError::Parse { details }) => {
            assert_eq!(details, "retorno nao e JSON valido; stderr: warn")
        }
        other => panic!("unexpected {:?}", other),
    }
    match command_outcome("node x".to_string(), true, b"", b"") {
        Err(OpenClawError::Parse { details }) => assert_eq!(details, "stdout vazio; stderr: "),
        other => panic!("unexpected {:?}", other),
    }
}

const REPORT: &str = r#"{
  "runId": " run-1 ",
  "status": "ok",
  "summary": "   ",
  "result": {
    "payloads": [
      {"text": "  first  "},
      {"text": "   "},
      {"image": "x"},
      {"text": 5},
      {"text": "second"}
    ],
    "meta": {
      "durationMs": 1234,
      "agentMeta": {
        "model": "llama",
        "usage": {"input": 10, "output": 20, "total": 30, "cacheRead": "many"}
      },
      "systemPromptReport": {
        "provider": "mlx",
        "model": "ignored",
        "skills": {"entries": [{"name": " web "}, {"name": "web"}, {"name": ""}, {"id": 3}, {"name": "code"}]},
        "tools": {"entries": {"name": "not an array"}}
      }
    }
  }
}"#;

#[test]
fn normalize_report() {
    let doc = parse_json_output(REPORT).unwrap();
    let r = normalize_chat_response(&doc);
    assert_eq!(r.run_id.as_deref(), Some("run-1"));
    assert_eq!(r.status.as_deref(), Some("ok"));
    assert_eq!(r.summary, None);
    assert_eq!(r.payloads, vec!["first", "second"]);
    assert_eq!(r.reply, "first\n\nsecond");
    assert_eq!(r.duration_ms, Some(1234));
    assert_eq!(r.provider.as_deref(), Some("mlx"));
    assert_eq!(r.model.as_deref(), Some("llama"));
    let usage = r.usage.unwrap();
    assert_eq!(usage.input, Some(10));
    assert_eq!(usage.output, Some(20));
    assert_eq!(usage.cache_read, None);
    assert_eq!(usage.cache_write, None);
    assert_eq!(usage.total, Some(30));
    assert_eq!(r.skills, vec!["web", "code"]);
    assert!(r.tools.is_empty());
}

#[test]
fn normalize_empty_report() {
    let doc = parse_json_output("{}").unwrap();
    let r = normalize_chat_response(&doc);
    assert_eq!(r.run_id, None);
    assert!(r.payloads.is_empty());
    assert_eq!(r.reply, "");
    assert!(r.usage.is_none());
    assert!(r.skills.is_empty());
}

#[test]
fn usage_needs_an_object_with_a_count() {
    let doc = parse_json_output(r#"{"a": {"x": 1}, "b": [1], "c": {"total": 9}}"#).unwrap();
    assert!(build_usage(&doc, "/a").is_none());
    assert!(build_usage(&doc, "/b").is_none());
    assert!(build_usage(&doc, "/missing").is_none());
    assert_eq!(build_usage(&doc, "/c").unwrap().total, Some(9));
}

#[test]
fn string_and_number_lookups() {
    let doc = parse_json_output(r#"{"s": " v ", "b": "  ", "n": 7, "neg": -1}"#).unwrap();
    assert_eq!(get_string(&doc, "/s").as_deref(), Some("v"));
    assert_eq!(get_string(&doc, "/b"), None);
    assert_eq!(get_string(&doc, "/n"), None);
    assert_eq!(get_u64(&doc, "/n"), Some(7));
    assert_eq!(get_u64(&doc, "/neg"), None);
    assert_eq!(get_u64(&doc, "/s"), None);
}

#[test]
fn entry_names_are_distinct_and_trimmed() {
    let doc = parse_json_output(r#"{"e": [{"name": "b"}, {"name": " a"}, {"name": "b "}, {"name": "a"}]}"#)
        .unwrap();
    assert_eq!(list_entry_names(&doc, "/e"), vec!["b", "a"]);
    assert!(list_entry_names(&doc, "/nothing").is_empty());
}

#[test]
fn status_reports() {
    let rt = OpenClawRuntime::new(config());
    let missing = rt.status_cli_missing();
    assert!(!missing.available);
    assert_eq!(missing.cli_path, "/opt/openclaw/cli.js");
    assert_eq!(missing.state_dir, "/var/openclaw");
    assert_eq!(missing.session_key, "main");
    assert_eq!(missing.sync_log, "/logs/sync.log");
    assert_eq!(
        missing.error.as_deref(),
        Some("openclaw cli nao encontrado em /opt/openclaw/cli.js")
    );
    let healthy = rt.status_with_health(Ok(parse_json_output("{\"ok\":true}").unwrap()));
    assert!(healthy.available);
    assert_eq!(healthy.health.unwrap().text(), "{\"ok\":true}");
    assert!(healthy.error.is_none());
    let down = rt.status_with_health(Err(timeout_error(12000)));
    assert!(!down.available);
    assert!(down.health.is_none());
    assert_eq!(down.error.as_deref(), Some("operacao expirou apos 12s"));
}

#[test]
fn entry_selection() {
    let raw = vec![
        Some(" a ".to_string()),
        None,
        Some("  ".to_string()),
        Some("a".to_string()),
        Some("b".to_string()),
    ];
    assert_eq!(kept_entries(&raw), vec!["a", "a", "b"]);
    assert_eq!(distinct_entries(&raw), vec!["a", "b"]);
    let doc = parse_json_output(r#"{"xs": [{"k": "1"}, {"j": 2}, {"k": 3}, "s"]}"#).unwrap();
    assert_eq!(entry_texts_of(&doc, "/xs", "k"), vec![Some("1".to_string()), None, None, None]);
    assert!(entry_texts_of(&doc, "/k", "k").is_empty());
}

#[test]
fn present_and_usage_helpers() {
    assert_eq!(present_string(Some("  x ".to_string())).as_deref(), Some("x"));
    assert_eq!(present_string(Some(" \n".to_string())), None);
    assert_eq!(present_string(None), None);
    assert!(usage_from_counts(None, None, None, None, None).is_none());
    let u = usage_from_counts(None, Some(2), None, Some(4), None).unwrap();
    assert_eq!(u.output, Some(2));
    assert_eq!(u.cache_write, Some(4));
    assert_eq!(u.input, None);
}

#[test]
fn command_result_from_text() {
    let doc = command_result("p".to_string(), true, " [1] ", "").unwrap();
    assert_eq!(doc.text(), "[1]");
    match command_result("p".to_string(), false, "[1]", "\u{3000}bad\u{3000}") {
        Err(OpenClawError::CommandFailed { command, stderr }) => {
            assert_eq!(command, "p");
            assert_eq!(stderr, "bad");
        }
        other => panic!("unexpected {:?}", other),
    }
}

#[test]
fn request_counter_keys() {
    let mut counter = RequestCounter::new();
    assert_eq!(counter.next_idempotency_key(5), "mlx-pilot-openclaw-5-1");
    assert_eq!(counter.next_idempotency_key(5), "mlx-pilot-openclaw-5-2");
    assert_eq!(counter.take(), 3);
    assert_eq!(counter.next_idempotency_key(6), "mlx-pilot-openclaw-6-4");
}
