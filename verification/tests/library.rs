use notilens::cli::{
    build_cli_payload, parse_command, parse_flags, parse_init_args, positional_args,
    resolve_run_id, split_key_value, start_run_id, CliError, Command, Step,
};
use notilens::client::{resolve_credentials, user_agent, webhook_url, AgentConfig, NotiLens, Options, Run, TrackOptions, VERSION};
use notilens::events::{step_event, RunStep, get_event_type, is_actionable_default, is_event_type_name};
use notilens::fields::{Fields, Val};
use notilens::metrics::{record_metric, reset_metric};
use notilens::payload::{build_payload, gather_meta, make_title};
use notilens::runid::format_run_id;
use notilens::state::{
    agent_prefix, clock_millis, error_update, loop_update, pause_update, pointer_file_name, queued_doc,
    resume_update, retry_update, should_remove, stale_cutoff, start_write, state_file_name,
    timing, wait_update, RunState, StateWrite,
};
use notilens::text::{ends_with, find_char, replace_all, starts_with, str_eq};

fn strings(v: &[&str]) -> Vec<String> {
    v.iter().map(|s| s.to_string()).collect()
}

fn int_of(f: &Fields, k: &str) -> Option<i128> {
    match f.get(k) {
        Some(Val::Int(i)) => Some(*i),
        _ => None,
    }
}

fn text(f: &Fields, k: &str) -> Option<String> {
    match f.get(k) {
        Some(Val::Text(s)) => Some(s.clone()),
        _ => None,
    }
}

fn empty_state() -> RunState {
    RunState::empty()
}

// ── events ───────────────────────────────────────────────────────────────────

#[test]
fn event_types() {
    assert_eq!(get_event_type("task.completed"), "success");
    assert_eq!(get_event_type("output.generated"), "success");
    assert_eq!(get_event_type("input.approved"), "success");
    assert_eq!(get_event_type("task.failed"), "urgent");
    assert_eq!(get_event_type("task.timeout"), "urgent");
    assert_eq!(get_event_type("task.error"), "urgent");
    assert_eq!(get_event_type("task.terminated"), "urgent");
    assert_eq!(get_event_type("output.failed"), "urgent");
    assert_eq!(get_event_type("task.retry"), "warning");
    assert_eq!(get_event_type("task.cancelled"), "warning");
    assert_eq!(get_event_type("input.required"), "warning");
    assert_eq!(get_event_type("input.rejected"), "warning");
    assert_eq!(get_event_type("task.started"), "info");
    assert_eq!(get_event_type("custom.event"), "info");
}

#[test]
fn actionable_defaults() {
    for e in ["task.error", "task.failed", "task.timeout", "task.retry", "task.loop", "output.failed", "input.required", "input.rejected"] {
        assert!(is_actionable_default(e), "{}", e);
    }
    for e in ["task.completed", "task.started", "task.progress", "input.approved", "custom"] {
        assert!(!is_actionable_default(e), "{}", e);
    }
    assert!(is_event_type_name("urgent"));
    assert!(!is_event_type_name("critical"));
}

// ── text ─────────────────────────────────────────────────────────────────────

#[test]
fn text_helpers() {
    assert!(str_eq("abc", "abc"));
    assert!(!str_eq("abc", "abd"));
    assert!(starts_with("--agent", "--"));
    assert!(!starts_with("-a", "--"));
    assert!(ends_with("x.json", ".json"));
    assert!(!ends_with("x.jso", ".json"));
    assert_eq!(find_char("a=b=c", '='), Some(1));
    assert_eq!(find_char("abc", '='), None);
    assert_eq!(replace_all("a/b/c", '/', "_"), "a_b_c");
}

// ── fields ───────────────────────────────────────────────────────────────────

#[test]
fn fields_insert_get_remove() {
    let mut f = Fields::new();
    assert!(f.is_empty());
    f.insert("a".into(), Val::Int(1));
    f.insert("b".into(), Val::text("x"));
    f.insert("a".into(), Val::Int(2));
    assert_eq!(f.to_vec().len(), 2);
    assert_eq!(int_of(&f, "a"), Some(2));
    assert!(matches!(f.remove("b"), Some(Val::Text(s)) if s == "x"));
    assert!(f.remove("b").is_none());
    assert!(!f.contains_key("b"));
    let mut g = Fields::new();
    g.insert("a".into(), Val::Int(9));
    g.insert("c".into(), Val::Bool(true));
    f.extend_from(&g);
    assert_eq!(int_of(&f, "a"), Some(9));
    assert!(matches!(f.get("c"), Some(Val::Bool(true))));
    f.clear();
    assert!(f.is_empty());
}

// ── metrics ──────────────────────────────────────────────────────────────────

#[test]
fn recorded_value_replaces() {
    let mut m = Fields::new();
    record_metric(&mut m, "tokens", Val::Int(512));
    assert_eq!(int_of(&m, "tokens"), Some(512));
    record_metric(&mut m, "tokens", Val::Json("640.0".to_string()));
    assert!(matches!(m.get("tokens"), Some(Val::Json(t)) if t == "640.0"));
    record_metric(&mut m, "model", Val::text("a"));
    record_metric(&mut m, "model", Val::text("b"));
    assert_eq!(text(&m, "model"), Some("b".to_string()));
    record_metric(&mut m, "model", Val::Int(3));
    assert_eq!(int_of(&m, "model"), Some(3));
    assert_eq!(int_of(&m, "tokens"), None);
    assert_eq!(m.to_vec().len(), 2);
}

#[test]
fn reset_one_or_all() {
    let mut m = Fields::new();
    record_metric(&mut m, "a", Val::Int(1));
    record_metric(&mut m, "b", Val::Int(2));
    reset_metric(&mut m, Some("a"));
    assert!(!m.contains_key("a"));
    assert_eq!(int_of(&m, "b"), Some(2));
    reset_metric(&mut m, None);
    assert!(m.is_empty());
}

// ── state ────────────────────────────────────────────────────────────────────

#[test]
fn file_names() {
    assert_eq!(state_file_name("bob", "my/agent", "run_1", '/'), "notilens_bob_my_agent_run_1.json");
    assert_eq!(pointer_file_name("bob", "agent", "a/b\\c"), "notilens_bob_agent_a_b_c.ptr");
    assert_eq!(agent_prefix("bob", "agent"), "notilens_bob_agent_");
}

#[test]
fn stale_files() {
    assert_eq!(stale_cutoff(1000, 100), 900);
    assert_eq!(stale_cutoff(50, 100), 0);
    let p = "notilens_bob_agent_";
    assert!(should_remove("notilens_bob_agent_run_1.json", p, Some(10), 900));
    assert!(should_remove("notilens_bob_agent_email.ptr", p, Some(10), 900));
    assert!(!should_remove("notilens_bob_agent_run_1.json", p, Some(900), 900));
    assert!(!should_remove("notilens_bob_agent_run_1.tmp", p, Some(10), 900));
    assert!(!should_remove("notilens_bob_other_run_1.json", p, Some(10), 900));
    assert!(!should_remove("notilens_bob_agent_run_1.json", p, None, 900));
}

#[test]
fn queued_document() {
    let d = queued_doc("agent", "email", "run_1", 1000);
    assert_eq!(text(&d, "agent"), Some("agent".into()));
    assert_eq!(text(&d, "task"), Some("email".into()));
    assert_eq!(text(&d, "run_id"), Some("run_1".into()));
    assert_eq!(int_of(&d, "queued_at"), Some(1000));
    for k in ["retry_count", "loop_count", "error_count", "pause_count", "wait_count", "pause_total_ms", "wait_total_ms"] {
        assert_eq!(int_of(&d, k), Some(0), "{}", k);
    }
    assert!(!d.contains_key("start_time"));
    assert_eq!(d.to_vec().len(), 11);
}

#[test]
fn start_writes() {
    match start_write(true, "agent", "email", "run_1", 2000) {
        StateWrite::Replace(d) => {
            assert_eq!(int_of(&d, "start_time"), Some(2000));
            assert!(!d.contains_key("queued_at"));
        }
        StateWrite::Merge(_) => panic!("expected a fresh state"),
    }
    match start_write(false, "agent", "email", "run_1", 2000) {
        StateWrite::Merge(u) => {
            assert_eq!(int_of(&u, "start_time"), Some(2000));
            assert_eq!(u.to_vec().len(), 1);
        }
        StateWrite::Replace(_) => panic!("expected a merge"),
    }
}

#[test]
fn counting_updates() {
    let mut s = empty_state();
    s.loop_count = 4;
    s.retry_count = 1;
    s.pause_count = 2;
    s.wait_count = 3;
    s.error_count = 5;
    assert_eq!(int_of(&loop_update(&s), "loop_count"), Some(5));
    assert_eq!(int_of(&retry_update(&s), "retry_count"), Some(2));
    let p = pause_update(&s, 7000);
    assert_eq!(int_of(&p, "paused_at"), Some(7000));
    assert_eq!(int_of(&p, "pause_count"), Some(3));
    let w = wait_update(&s, 8000);
    assert_eq!(int_of(&w, "wait_at"), Some(8000));
    assert_eq!(int_of(&w, "wait_count"), Some(4));
    let e = error_update(&s, "Quota exceeded");
    assert_eq!(text(&e, "last_error"), Some("Quota exceeded".into()));
    assert_eq!(int_of(&e, "error_count"), Some(6));
}

#[test]
fn resume_closes_pause_and_wait() {
    let mut s = empty_state();
    assert!(resume_update(&s, 5000).is_empty());
    s.paused_at = 1000;
    s.pause_total_ms = 200;
    let u = resume_update(&s, 1500);
    assert_eq!(int_of(&u, "pause_total_ms"), Some(700));
    assert!(matches!(u.get("paused_at"), Some(Val::Null)));
    assert!(!u.contains_key("wait_total_ms"));
    s.wait_at = 1200;
    s.wait_total_ms = 10;
    let u = resume_update(&s, 1500);
    assert_eq!(int_of(&u, "wait_total_ms"), Some(310));
    assert!(matches!(u.get("wait_at"), Some(Val::Null)));
}

#[test]
fn timing_of_a_run() {
    let mut s = empty_state();
    s.queued_at = 1000;
    s.start_time = 1500;
    s.pause_total_ms = 100;
    s.paused_at = 2800;
    s.wait_total_ms = 50;
    let t = timing(&s, 3000);
    assert_eq!(t.total_ms, 1500);
    assert_eq!(t.queue_ms, 500);
    assert_eq!(t.pause_ms, 300);
    assert_eq!(t.wait_ms, 50);
    assert_eq!(t.active_ms, 1150);
    let mut s2 = empty_state();
    s2.start_time = 1000;
    s2.pause_total_ms = 5000;
    let t2 = timing(&s2, 2000);
    assert_eq!(t2.active_ms, 0);
    assert_eq!(t2.queue_ms, 0);
    assert_eq!(timing(&empty_state(), 2000).total_ms, 0);
}

// ── payload ──────────────────────────────────────────────────────────────────

#[test]
fn titles() {
    assert_eq!(make_title("bot", "", "custom.event"), "bot | custom.event");
    assert_eq!(make_title("bot", "email", "task.started"), "bot | email | task.started");
}

#[test]
fn run_payload() {
    let mut s = empty_state();
    s.start_time = 1000;
    s.retry_count = 2;
    s.metrics.insert("saved".into(), Val::Int(1));
    let mut run_metrics = Fields::new();
    run_metrics.insert("tokens".into(), Val::Int(640));
    run_metrics.insert("saved".into(), Val::Int(2));
    let mut extra = Fields::new();
    extra.insert("image_url".into(), Val::text("https://img"));
    extra.insert("tags".into(), Val::Int(5));
    extra.insert("is_actionable".into(), Val::Bool(true));
    extra.insert("key".into(), Val::text("value"));
    let p = build_payload("bot", "task.progress", "Working", "run_1", "email", Some(&s), 3000, 3001, &run_metrics, Some(&extra));
    assert_eq!(p.event, "task.progress");
    assert_eq!(p.title, "bot | email | task.progress");
    assert_eq!(p.message, "Working");
    assert_eq!(p.event_type, "info");
    assert_eq!(p.agent, "bot");
    assert_eq!(p.task_id, "email");
    assert!(p.is_actionable);
    assert_eq!(p.image_url, "https://img");
    assert_eq!(p.open_url, "");
    assert_eq!(p.tags, "");
    assert_eq!(p.ts_ms, 3001);
    let m = &p.meta;
    assert_eq!(text(m, "agent"), Some("bot".into()));
    assert_eq!(text(m, "run_id"), Some("run_1".into()));
    assert_eq!(text(m, "task"), Some("email".into()));
    assert_eq!(int_of(m, "total_duration_ms"), Some(2000));
    assert_eq!(int_of(m, "active_ms"), Some(2000));
    assert_eq!(int_of(m, "retry_count"), Some(2));
    assert!(!m.contains_key("queue_ms"));
    assert!(!m.contains_key("loop_count"));
    assert_eq!(int_of(m, "saved"), Some(2));
    assert_eq!(int_of(m, "tokens"), Some(640));
    assert_eq!(text(m, "key"), Some("value".into()));
    for k in ["image_url", "open_url", "download_url", "tags", "is_actionable"] {
        assert!(!m.contains_key(k), "{}", k);
    }
}

#[test]
fn agent_level_payload() {
    let p = build_payload("bot", "task.retry", "again", "", "", None, 0, 5, &Fields::new(), None);
    assert_eq!(p.title, "bot | task.retry");
    assert!(p.is_actionable);
    assert_eq!(p.event_type, "warning");
    assert_eq!(p.meta.to_vec().len(), 1);
    let m = gather_meta("bot", "", "", None, 0, &Fields::new(), None);
    assert_eq!(text(&m, "agent"), Some("bot".into()));
}

// ── client ───────────────────────────────────────────────────────────────────

fn opts(t: &str, s: &str, ttl: u64) -> Option<Options> {
    Some(Options { token: t.into(), secret: s.into(), state_ttl: ttl })
}

#[test]
fn credentials_in_order() {
    let saved = || Some(AgentConfig { token: "ct".into(), secret: "cs".into() });
    let r = resolve_credentials("a", opts("ot", "os", 5), "et".into(), "es".into(), saved()).ok().unwrap();
    assert_eq!((r.token.as_str(), r.secret.as_str(), r.state_ttl), ("ot", "os", 5));
    let r = resolve_credentials("a", opts("", "os", 0), "et".into(), "es".into(), saved()).ok().unwrap();
    assert_eq!((r.token.as_str(), r.secret.as_str(), r.state_ttl), ("et", "os", 86400));
    let r = resolve_credentials("a", None, "".into(), "es".into(), saved()).ok().unwrap();
    assert_eq!((r.token.as_str(), r.secret.as_str()), ("ct", "es"));
    let e = resolve_credentials("bot", None, "".into(), "".into(), None).err().unwrap();
    assert_eq!(e, "NotiLens: token and secret are required. Pass them directly, set NOTILENS_TOKEN/NOTILENS_SECRET env vars, or run: notilens init --agent bot --token TOKEN --secret SECRET");
    assert!(resolve_credentials("bot", opts("t", "", 0), "".into(), "".into(), None).is_err());
}

#[test]
fn client_metrics_and_run() {
    let (tx, rx) = std::sync::mpsc::sync_channel(4);
    let mut nl = NotiLens::with_outbox("bot", Options { token: "t".into(), secret: "s".into(), state_ttl: 60 }, tx);
    assert_eq!(nl.agent(), "bot");
    assert_eq!(nl.state_ttl(), 60);
    nl.metric("tokens", Val::Int(1)).metric("tokens", Val::Int(2));
    assert_eq!(int_of(nl.metrics(), "tokens"), Some(2));
    nl.reset_metrics(Some("tokens"));
    assert!(nl.metrics().is_empty());
    nl.metric("x", Val::Int(1));
    let mut meta = Fields::new();
    meta.insert("open_url".into(), Val::text("https://o"));
    let p = nl.track_payload("custom.event", "hello", Some(TrackOptions { meta }));
    assert!(nl.outbox().try_send(p).is_ok());
    let p = rx.recv().unwrap();
    assert_eq!(p.title, "bot | custom.event");
    assert_eq!(p.open_url, "https://o");
    assert_eq!(int_of(&p.meta, "x"), Some(1));
    assert!(p.ts_ms > 0);

    let mut run = Run::new(&nl, "email", "run_9".to_string(), "/tmp/none.json".to_string());
    assert_eq!(run.label(), "email");
    assert_eq!(run.run_id, "run_9");
    assert_eq!(run.state_file(), "/tmp/none.json");
    run.metric("n", Val::Int(2)).metric("n", Val::Int(5));
    assert_eq!(int_of(run.metrics(), "n"), Some(5));
    let p = run.payload("task.progress", "p", &RunState::empty(), None);
    assert_eq!(p.title, "bot | email | task.progress");
    assert_eq!(text(&p.meta, "run_id"), Some("run_9".into()));
    assert_eq!(int_of(&p.meta, "n"), Some(5));
    run.reset_metrics(None);
    assert!(run.metrics().is_empty());
}

#[test]
fn webhook_and_user_agent() {
    assert_eq!(webhook_url("TOK"), "https://hook.notilens.com/webhook/TOK/send");
    assert_eq!(user_agent(), format!("NotiLens-SDK/{}", VERSION));
}

// ── run ids ──────────────────────────────────────────────────────────────────

#[test]
fn run_id_format() {
    assert_eq!(format_run_id(0, 0, 0), "run_0_00000000_0");
    assert_eq!(format_run_id(1234, 0, 17), "run_1234_000004d2_17");
    let ms: u128 = 1_700_000_000_123;
    let pid: u32 = 4242;
    let suffix = (ms ^ (pid as u128 * 0x9e3779b97f4a7c15)) & 0xFFFF_FFFF;
    assert_eq!(format_run_id(ms, pid, 3), format!("run_{}_{:08x}_3", ms, suffix));
    assert_ne!(format_run_id(ms, pid, 3), format_run_id(ms + 1, pid, 3));
    // Two runs of one process in the same millisecond differ by their sequence number.
    assert_ne!(format_run_id(ms, pid, 3), format_run_id(ms, pid, 4));
    assert_ne!(format_run_id(1, pid, 23), format_run_id(12, pid, 3));
}

// ── command line ─────────────────────────────────────────────────────────────

#[test]
fn positional_split() {
    let (pos, rest) = positional_args(&strings(&["msg", "more", "--agent", "a", "x"]));
    assert_eq!(pos, strings(&["msg", "more"]));
    assert_eq!(rest, strings(&["--agent", "a", "x"]));
    let (pos, rest) = positional_args(&strings(&["--task", "t"]));
    assert!(pos.is_empty());
    assert_eq!(rest.len(), 2);
    let (pos, rest) = positional_args(&strings(&["a", "b"]));
    assert_eq!(pos.len(), 2);
    assert!(rest.is_empty());
}

#[test]
fn flags_parsing() {
    let f = parse_flags(&strings(&[
        "--agent", "a1", "--task", "email", "--type", "urgent", "--meta", "k=v=w", "--meta", "novalue",
        "--image_url", "i", "--open_url", "o", "--download_url", "d", "--tags", "t1,t2",
        "--is_actionable", "false", "--agent", "a2", "stray", "--task",
    ]))
    .ok()
    .unwrap();
    assert_eq!(f.agent, "a2");
    assert_eq!(f.task_label, "email");
    assert_eq!(f.typ, "urgent");
    assert_eq!(text(&f.meta, "k"), Some("v=w".into()));
    assert_eq!(f.meta.to_vec().len(), 1);
    assert_eq!(f.image_url, "i");
    assert_eq!(f.open_url, "o");
    assert_eq!(f.download_url, "d");
    assert_eq!(f.tags, "t1,t2");
    assert_eq!(f.is_actionable, "false");
    assert!(matches!(parse_flags(&strings(&["--task", "t"])), Err(CliError::MissingAgent)));
    assert!(matches!(parse_flags(&strings(&["--agent"])), Err(CliError::MissingAgent)));
}

#[test]
fn active_run() {
    let f = parse_flags(&strings(&["--agent", "a"])).ok().unwrap();
    assert!(matches!(resolve_run_id(&f, "run_1"), Err(CliError::MissingTask)));
    let f = parse_flags(&strings(&["--agent", "a", "--task", "t"])).ok().unwrap();
    assert!(matches!(resolve_run_id(&f, ""), Err(CliError::NoActiveRun)));
    assert_eq!(resolve_run_id(&f, "run_1").ok().unwrap(), "run_1");
}

#[test]
fn init_arguments() {
    let a = parse_init_args(&strings(&["--agent", "a", "--token", "t", "--secret", "s"])).ok().unwrap();
    assert_eq!((a.agent.as_str(), a.token.as_str(), a.secret.as_str()), ("a", "t", "s"));
    assert!(matches!(parse_init_args(&strings(&["--agent", "a", "--token", "t"])), Err(CliError::InitUsage)));
}

#[test]
fn key_values() {
    assert_eq!(split_key_value("tokens=512"), Some(("tokens".to_string(), "512".to_string())));
    assert_eq!(split_key_value("a=b=c"), Some(("a".to_string(), "b=c".to_string())));
    assert_eq!(split_key_value("=x"), Some(("".to_string(), "x".to_string())));
    assert_eq!(split_key_value("none"), None);
}

#[test]
fn command_table() {
    assert!(matches!(parse_command("init"), Some(Command::Init)));
    assert!(matches!(parse_command("task.start"), Some(Command::Start)));
    assert!(matches!(parse_command("metric.reset"), Some(Command::MetricReset)));
    assert!(parse_command("nope").is_none());
    match parse_command("task.stop") {
        Some(Command::RunEvent(e)) => {
            assert_eq!(e.event, "task.stopped");
            assert_eq!(e.fixed_message, Some("Task stopped"));
            assert!(!e.ends_run);
        }
        _ => panic!("task.stop"),
    }
    match parse_command("task.cancel") {
        Some(Command::RunEvent(e)) => {
            assert_eq!(e.event, "task.cancelled");
            assert!(e.fixed_message.is_none());
            assert!(e.ends_run);
        }
        _ => panic!("task.cancel"),
    }
    match parse_command("task.resume") {
        Some(Command::RunEvent(e)) => assert!(matches!(e.step, Step::Resume)),
        _ => panic!("task.resume"),
    }
    match parse_command("input.approve") {
        Some(Command::RunEvent(e)) => assert_eq!(e.event, "input.approved"),
        _ => panic!("input.approve"),
    }
}

#[test]
fn cli_payload() {
    let f = parse_flags(&strings(&[
        "--agent", "bot", "--task", "email", "--type", "success", "--meta", "k=v",
        "--is_actionable", "true", "--tags", "x", "--image_url", "img",
    ]))
    .ok()
    .unwrap();
    let mut s = RunState::empty();
    s.start_time = 100;
    s.metrics.insert("tokens".into(), Val::Int(7));
    let p = build_cli_payload(&f, "task.progress", "hi", "run_1", &s, 600, 601);
    assert_eq!(p.event_type, "success");
    assert!(p.is_actionable);
    assert_eq!(p.tags, "x");
    assert_eq!(p.image_url, "img");
    assert_eq!(p.title, "bot | email | task.progress");
    assert_eq!(int_of(&p.meta, "total_duration_ms"), Some(500));
    assert_eq!(int_of(&p.meta, "tokens"), Some(7));
    assert_eq!(text(&p.meta, "k"), Some("v".into()));
    let g = parse_flags(&strings(&["--agent", "bot", "--type", "loud"])).ok().unwrap();
    let q = build_cli_payload(&g, "task.failed", "x", "", &s, 600, 601);
    assert_eq!(q.event_type, "urgent");
    assert!(q.is_actionable);
    assert!(!q.meta.contains_key("total_duration_ms"));
    assert_eq!(int_of(&q.meta, "tokens"), Some(7));
    assert_eq!(q.title, "bot | task.failed");
}

#[test]
fn runs_keep_separate_state_files() {
    let a = format_run_id(1_700_000_000_000, 7, 0);
    let b = format_run_id(1_700_000_000_000, 7, 1);
    assert_ne!(state_file_name("bob", "agent", &a, '/'), state_file_name("bob", "agent", &b, '/'));
    assert_eq!(state_file_name("bob", "agent", &a, '/'), format!("notilens_bob_agent_{}.json", a));
}

#[test]
fn start_reuses_queued_run() {
    assert_eq!(start_run_id("run_1_0000000a", "run_2_0000000b".to_string()), "run_1_0000000a");
    assert_eq!(start_run_id("", "run_2_0000000b".to_string()), "run_2_0000000b");
}

#[test]
fn queue_then_start_reports_queue_time() {
    // The state a queue writes, read back, then the start time merged in.
    let mut s = RunState::empty();
    let d = queued_doc("bot", "email", "run_1", 1000);
    s.queued_at = int_of(&d, "queued_at").unwrap() as i64;
    match start_write(false, "bot", "email", "run_1", 1600) {
        StateWrite::Merge(u) => s.start_time = int_of(&u, "start_time").unwrap() as i64,
        StateWrite::Replace(_) => panic!("expected a merge"),
    }
    let t = timing(&s, 2000);
    assert_eq!(t.queue_ms, 600);
    assert_eq!(t.total_ms, 400);
    assert_eq!(t.active_ms, 400);
}

#[test]
fn clock_readings() {
    assert_eq!(clock_millis(Some(1_700_000_000_123)), 1_700_000_000_123);
    assert_eq!(clock_millis(None), 0);
    assert_eq!(clock_millis(Some(1u128 << 64)), 0);
    assert_eq!(clock_millis(Some(u64::MAX as u128)), -1);
    assert!(notilens::state::now_ms() > 1_600_000_000_000);
}

#[test]
fn lifecycle_steps() {
    let e = step_event(RunStep::Retry);
    assert_eq!((e.event, e.fixed_message, e.ends_run), ("task.retry", Some("Retrying task"), false));
    let e = step_event(RunStep::Cancel);
    assert_eq!((e.event, e.fixed_message, e.ends_run), ("task.cancelled", None, true));
    let e = step_event(RunStep::Wait);
    assert_eq!((e.event, e.fixed_message, e.ends_run), ("task.waiting", None, false));
    let e = step_event(RunStep::Queue);
    assert_eq!((e.event, e.fixed_message), ("task.queued", Some("Task queued")));
}

#[test]
fn clock_seconds() {
    assert_eq!(notilens::state::clock_secs(Some(42)), 42);
    assert_eq!(notilens::state::clock_secs(None), 0);
    assert!(notilens::state::now_secs() > 1_600_000_000);
}
