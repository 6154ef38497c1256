use openclaw_runtime::openclaw::{
    LogFileStat, LogReadOutcome, LogStream, LogReadStep, OpenClawError, OpenClawLogQuery, OpenClawRuntime,
    OpenClawRuntimeConfig,
};

fn config() -> OpenClawRuntimeConfig {
    OpenClawRuntimeConfig {
        node_command: "node".to_string(),
        cli_path: "/opt/openclaw/cli.js".to_string(),
        state_dir: "/var/openclaw".to_string(),
        gateway_token: "token".to_string(),
        session_key: "main".to_string(),
        timeout_ms: 600000,
        gateway_log: "/logs/gateway.log".to_string(),
        error_log: "/logs/error.log".to_string(),
        sync_log: "/logs/sync.log".to_string(),
    }
}

fn query(stream: Option<&str>, cursor: Option<u64>, max_bytes: Option<usize>) -> OpenClawLogQuery {
    OpenClawLogQuery { stream: stream.map(|s| s.to_string()), cursor, max_bytes }
}

fn io_parts(e: OpenClawError) -> (String, String) {
    match e {
        OpenClawError::Io { context, source } => (context, source),
        other => panic!("not an I/O error: {:?}", other),
    }
}

#[test]
fn resolve_log_path_maps_each_stream() {
    let rt = OpenClawRuntime::new(config());
    assert_eq!(rt.resolve_log_path("gateway").unwrap(), "/logs/gateway.log");
    assert_eq!(rt.resolve_log_path("error").unwrap(), "/logs/error.log");
    assert_eq!(rt.resolve_log_path("sync").unwrap(), "/logs/sync.log");
}

#[test]
fn resolve_log_path_rejects_other_streams() {
    let rt = OpenClawRuntime::new(config());
    for stream in ["", "Gateway", "audit", "sync "] {
        match rt.resolve_log_path(stream) {
            Err(OpenClawError::BadRequest(m)) => {
                assert_eq!(m, "stream invalido: use gateway, error ou sync")
            }
            other => panic!("unexpected {:?}", other),
        }
    }
}

#[test]
fn plan_log_read_defaults() {
    let rt = OpenClawRuntime::new(config());
    let plan = rt.plan_log_read(query(None, None, None)).unwrap();
    assert_eq!(plan.stream, "gateway");
    assert_eq!(plan.log, LogStream::Gateway);
    assert_eq!(plan.path, "/logs/gateway.log");
    assert_eq!(plan.requested_cursor, 0);
    assert_eq!(plan.max_bytes, 65536);
}

#[test]
fn plan_log_read_lowercases_the_stream() {
    let rt = OpenClawRuntime::new(config());
    let plan = rt.plan_log_read(query(Some("ERROR"), Some(42), Some(4096))).unwrap();
    assert_eq!(plan.stream, "error");
    assert_eq!(plan.log, LogStream::Error);
    assert_eq!(plan.path, "/logs/error.log");
    assert_eq!(plan.requested_cursor, 42);
    assert_eq!(plan.max_bytes, 4096);
}

#[test]
fn plan_log_read_clamps_the_byte_limit() {
    let rt = OpenClawRuntime::new(config());
    assert_eq!(rt.plan_log_read(query(Some("sync"), None, Some(10))).unwrap().max_bytes, 1024);
    assert_eq!(rt.plan_log_read(query(Some("sync"), None, Some(1024))).unwrap().max_bytes, 1024);
    assert_eq!(
        rt.plan_log_read(query(Some("sync"), None, Some(10_000_000))).unwrap().max_bytes,
        262144
    );
    assert_eq!(
        rt.plan_log_read(query(Some("sync"), None, Some(262144))).unwrap().max_bytes,
        262144
    );
}

#[test]
fn plan_log_read_rejects_unknown_stream() {
    let rt = OpenClawRuntime::new(config());
    match rt.plan_log_read(query(Some("kernel"), None, None)) {
        Err(OpenClawError::BadRequest(m)) => {
            assert_eq!(m, "stream invalido: use gateway, error ou sync")
        }
        other => panic!("unexpected {:?}", other),
    }
}

#[test]
fn missing_log_file_gives_empty_chunk() {
    let rt = OpenClawRuntime::new(config());
    let plan = rt.plan_log_read(query(None, Some(77), None)).unwrap();
    match plan.after_stat(LogFileStat::Missing) {
        LogReadStep::Done(Ok(r)) => {
            assert_eq!(r.stream, "gateway");
            assert_eq!(r.path, "/logs/gateway.log");
            assert!(!r.exists);
            assert_eq!(r.cursor, 77);
            assert_eq!(r.next_cursor, 77);
            assert_eq!(r.file_size, 0);
            assert!(!r.truncated);
            assert_eq!(r.content, "");
        }
        other => panic!("unexpected {:?}", other),
    }
}

#[test]
fn failed_stat_is_io_error() {
    let rt = OpenClawRuntime::new(config());
    let plan = rt.plan_log_read(query(Some("error"), None, None)).unwrap();
    match plan.after_stat(LogFileStat::Failed("permission denied".to_string())) {
        LogReadStep::Done(Err(e)) => {
            let (context, source) = io_parts(e);
            assert_eq!(context, "falha ao acessar /logs/error.log");
            assert_eq!(source, "permission denied");
        }
        other => panic!("unexpected {:?}", other),
    }
}

#[test]
fn window_starts_at_cursor() {
    let rt = OpenClawRuntime::new(config());
    let plan = rt.plan_log_read(query(None, Some(10), Some(1024))).unwrap();
    match plan.after_stat(LogFileStat::Found(100)) {
        LogReadStep::Read(w) => {
            assert_eq!(w.cursor(), 10);
            assert_eq!(w.len(), 90);
            assert_eq!(w.file_size(), 100);
            assert!(!w.truncated());
        }
        other => panic!("unexpected {:?}", other),
    }
}

#[test]
fn window_restarts_after_truncation() {
    let rt = OpenClawRuntime::new(config());
    let plan = rt.plan_log_read(query(None, Some(500), Some(1024))).unwrap();
    match plan.after_stat(LogFileStat::Found(100)) {
        LogReadStep::Read(w) => {
            assert_eq!(w.cursor(), 0);
            assert_eq!(w.len(), 100);
            assert!(w.truncated());
        }
        other => panic!("unexpected {:?}", other),
    }
}

#[test]
fn window_is_capped_by_byte_limit() {
    let rt = OpenClawRuntime::new(config());
    let plan = rt.plan_log_read(query(None, Some(0), Some(2000))).unwrap();
    match plan.after_stat(LogFileStat::Found(1_000_000)) {
        LogReadStep::Read(w) => {
            assert_eq!(w.cursor(), 0);
            assert_eq!(w.len(), 2000);
        }
        other => panic!("unexpected {:?}", other),
    }
}

#[test]
fn read_at_end_of_file_gives_empty_chunk() {
    let rt = OpenClawRuntime::new(config());
    let plan = rt.plan_log_read(query(None, Some(100), None)).unwrap();
    match plan.after_stat(LogFileStat::Found(100)) {
        LogReadStep::Done(Ok(r)) => {
            assert!(r.exists);
            assert_eq!(r.cursor, 100);
            assert_eq!(r.next_cursor, 100);
            assert_eq!(r.file_size, 100);
            assert!(!r.truncated);
            assert_eq!(r.content, "");
        }
        other => panic!("unexpected {:?}", other),
    }
}

#[test]
fn empty_file_after_truncation_is_marked() {
    let rt = OpenClawRuntime::new(config());
    let plan = rt.plan_log_read(query(None, Some(5), None)).unwrap();
    match plan.after_stat(LogFileStat::Found(0)) {
        LogReadStep::Done(Ok(r)) => {
            assert_eq!(r.cursor, 0);
            assert_eq!(r.next_cursor, 0);
            assert!(r.truncated);
        }
        other => panic!("unexpected {:?}", other),
    }
}

#[test]
fn bytes_read_become_the_chunk() {
    let rt = OpenClawRuntime::new(config());
    let plan = rt.plan_log_read(query(None, Some(3), None)).unwrap();
    let w = match plan.after_stat(LogFileStat::Found(8)) {
        LogReadStep::Read(w) => w,
        other => panic!("unexpected {:?}", other),
    };
    let r = plan.after_read(w, LogReadOutcome::Bytes(b"lo wo".to_vec())).unwrap();
    assert!(r.exists);
    assert_eq!(r.cursor, 3);
    assert_eq!(r.next_cursor, 8);
    assert_eq!(r.file_size, 8);
    assert_eq!(r.content, "lo wo");
}

#[test]
fn invalid_utf8_is_replaced() {
    let rt = OpenClawRuntime::new(config());
    let plan = rt.plan_log_read(query(None, None, None)).unwrap();
    let w = match plan.after_stat(LogFileStat::Found(3)) {
        LogReadStep::Read(w) => w,
        other => panic!("unexpected {:?}", other),
    };
    let r = plan.after_read(w, LogReadOutcome::Bytes(vec![b'a', 0xff, b'b'])).unwrap();
    assert_eq!(r.content, "a\u{FFFD}b");
}

#[test]
fn read_failures_name_their_step() {
    let rt = OpenClawRuntime::new(config());
    let plan = rt.plan_log_read(query(Some("sync"), None, None)).unwrap();
    let cases = [
        (LogReadOutcome::OpenFailed("e1".to_string()), "falha ao abrir /logs/sync.log", "e1"),
        (
            LogReadOutcome::SeekFailed("e2".to_string()),
            "falha ao buscar offset em /logs/sync.log",
            "e2",
        ),
        (LogReadOutcome::ReadFailed("e3".to_string()), "falha lendo /logs/sync.log", "e3"),
    ];
    for (outcome, context, source) in cases {
        let w = match plan.after_stat(LogFileStat::Found(10)) {
            LogReadStep::Read(w) => w,
            other => panic!("unexpected {:?}", other),
        };
        let (c, s) = io_parts(plan.after_read(w, outcome).unwrap_err());
        assert_eq!(c, context);
        assert_eq!(s, source);
    }
}

#[test]
fn reading_on_from_next_cursor_continues() {
    let rt = OpenClawRuntime::new(config());
    let first = rt.plan_log_read(query(None, Some(0), Some(1024))).unwrap();
    let w = match first.after_stat(LogFileStat::Found(1500)) {
        LogReadStep::Read(w) => w,
        other => panic!("unexpected {:?}", other),
    };
    let chunk = first.after_read(w, LogReadOutcome::Bytes(vec![b'x'; 1024])).unwrap();
    assert_eq!(chunk.next_cursor, 1024);
    let second = rt.plan_log_read(query(None, Some(chunk.next_cursor), Some(1024))).unwrap();
    match second.after_stat(LogFileStat::Found(1500)) {
        LogReadStep::Read(w) => {
            assert_eq!(w.cursor(), 1024);
            assert_eq!(w.len(), 476);
            assert!(!w.truncated());
        }
        other => panic!("unexpected {:?}", other),
    }
}
