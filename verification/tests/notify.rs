use dashahan::notify::{
    applescript_escape, classify, notification_script, notify_message, read_event, ws_target, EventKey, NotifyGate,
    NotifyKind, DEBOUNCE_MS,
};

fn frame(payload_type: &str, extra: &str) -> String {
    format!(
        r#"{{"type":"server-request","rpcId":"r","method":"{payload_type}","payload":{{"type":"{payload_type}","sessionId":"s1"{extra}}}}}"#
    )
}

#[test]
fn classify_done_normal() {
    let raw = frame("session/event", r#","event":{"type":"message.stopped","seq":1,"time":1,"data":{}}"#);
    assert_eq!(
        classify(&raw),
        Some(NotifyKind::Done { failed: false, truncated: false })
    );
}

#[test]
fn classify_done_failed() {
    let raw = frame("session/event", r#","event":{"type":"message.turnError","seq":2,"time":1,"data":{}}"#);
    assert_eq!(
        classify(&raw),
        Some(NotifyKind::Done { failed: true, truncated: false })
    );
}

#[test]
fn classify_done_truncated() {
    let raw = frame("session/event", r#","event":{"type":"message.maxTokens","seq":3,"time":1,"data":{}}"#);
    assert_eq!(
        classify(&raw),
        Some(NotifyKind::Done { failed: false, truncated: true })
    );
}

#[test]
fn classify_approval() {
    let raw = frame(
        "approval/requested",
        r#","approvalId":"a1","toolName":"bash","reason":"run cmd""#,
    );
    assert_eq!(classify(&raw), Some(NotifyKind::Approval { tool: "bash".into() }));
}

#[test]
fn classify_approval_missing_tool() {
    let raw = frame("approval/requested", r#","approvalId":"a1""#);
    assert_eq!(classify(&raw), Some(NotifyKind::Approval { tool: "工具".into() }));
}

#[test]
fn classify_question() {
    let raw = frame("question/requested", r#","questions":[{"label":"y?"}]"#);
    assert_eq!(classify(&raw), Some(NotifyKind::Question));
}

#[test]
fn classify_ignores_other_frames() {
    for raw in [
        frame("session/subscribed", r#","lastSeq":3"#),
        frame("session/jobs", r#","jobs":[]"#),
        frame("approval/resolved", r#","approvalId":"a1","outcome":"allowed-once""#),
        frame("question/resolved", r#","questionRpcId":"q1","outcome":"answered""#),
    ] {
        assert_eq!(classify(&raw), None, "should ignore: {raw}");
    }
}

#[test]
fn classify_garbage_no_panic() {
    for raw in ["", "not json", "{\"type\":\"server-request\"}", "null", "{"] {
        assert_eq!(classify(raw), None, "should be None for: {raw:?}");
    }
}

#[test]
fn classify_other_event_types_none() {
    let raw = frame("session/event", r#","event":{"type":"message.update","seq":4,"time":1,"data":{}}"#);
    assert_eq!(classify(&raw), None);
}

#[test]
fn ws_target_parses() {
    assert_eq!(ws_target("http://127.0.0.1:49598/"), Some("127.0.0.1:49598".into()));
    assert_eq!(ws_target("http://127.0.0.1:49598"), Some("127.0.0.1:49598".into()));
    assert_eq!(ws_target("garbage"), None);
    assert_eq!(ws_target(""), None);
}

#[test]
fn ws_target_edges() {
    assert_eq!(ws_target("http:///x"), None);
    assert_eq!(ws_target("https://127.0.0.1:1/"), None);
    assert_eq!(ws_target("http://h:1/a/b"), Some("h:1".into()));
}

#[test]
fn classify_non_string_tool_uses_default() {
    let raw = frame("approval/requested", r#","toolName":5"#);
    assert_eq!(classify(&raw), Some(NotifyKind::Approval { tool: "工具".into() }));
}

#[test]
fn classify_payload_not_object() {
    assert_eq!(classify(r#"{"payload":[1,2]}"#), None);
    assert_eq!(classify(r#"{"payload":{"type":7}}"#), None);
    assert_eq!(classify(r#"{"payload":{"type":"session/event","event":{"type":1}}}"#), None);
}

#[test]
fn messages_per_kind() {
    assert_eq!(notify_message(&NotifyKind::Done { failed: false, truncated: false }), "对话已完成");
    assert_eq!(notify_message(&NotifyKind::Done { failed: true, truncated: true }), "本轮运行失败");
    assert_eq!(
        notify_message(&NotifyKind::Done { failed: false, truncated: true }),
        "回答被截断（已达输出上限）"
    );
    assert_eq!(notify_message(&NotifyKind::Approval { tool: "bash".into() }), "需要你授权：bash");
    assert_eq!(notify_message(&NotifyKind::Question), "需要你回答");
}

#[test]
fn script_escapes_quotes() {
    assert_eq!(
        notification_script("需要你授权：say \"hi\""),
        "display notification \"需要你授权：say \\\"hi\\\"\" with title \"DASH\""
    );
    assert_eq!(notification_script(""), "display notification \"\" with title \"DASH\"");
}

#[test]
fn script_escapes_backslashes() {
    // A tool name ending in a backslash must not escape the closing quote.
    let msg = notify_message(&NotifyKind::Approval { tool: "a\\".into() });
    assert_eq!(msg, "需要你授权：a\\");
    assert_eq!(
        notification_script(&msg),
        "display notification \"需要你授权：a\\\\\" with title \"DASH\""
    );
    assert_eq!(
        notification_script("x\\\"y"),
        "display notification \"x\\\\\\\"y\" with title \"DASH\""
    );
}

#[test]
fn read_event_kind_and_key() {
    let raw = frame("session/event", r#","event":{"type":"message.stopped","seq":7,"time":1,"data":{}}"#);
    let (kind, key) = read_event(&raw).expect("a notification");
    assert_eq!(kind, NotifyKind::Done { failed: false, truncated: false });
    assert_eq!(key, Some(EventKey { session: Some("s1".into()), seq: "7".into() }));

    let raw = frame("approval/requested", r#","toolName":"bash""#);
    let (kind, key) = read_event(&raw).expect("a notification");
    assert_eq!(kind, NotifyKind::Approval { tool: "bash".into() });
    assert_eq!(key, None);

    assert!(read_event("not json").is_none());
    assert!(read_event(&frame("session/jobs", r#","jobs":[]"#)).is_none());
}

#[test]
fn gate_debounces_ten_seconds() {
    let mut g = NotifyGate::new(true);
    assert!(g.should_notify(false, 1_000, None));
    assert_eq!(g.last, Some(1_000));
    assert!(!g.should_notify(false, 1_000 + DEBOUNCE_MS - 1, None));
    assert_eq!(g.last, Some(1_000));
    assert!(g.should_notify(false, 1_000 + DEBOUNCE_MS, None));
    assert_eq!(g.last, Some(1_000 + DEBOUNCE_MS));
    // A clock reading before the last notification counts as no time passed.
    assert!(!g.should_notify(false, 5, None));
}

#[test]
fn gate_repeated_seq_notifies_once() {
    let key = |seq: &str| Some(EventKey { session: Some("s1".into()), seq: seq.into() });
    let mut g = NotifyGate::new(true);
    assert!(g.should_notify(false, 1_000, key("1")));
    // The same event again, well after the debounce window: still nothing.
    assert!(!g.should_notify(false, 1_000 + 3 * DEBOUNCE_MS, key("1")));
    assert_eq!(g.last, Some(1_000));
    // Another event of the same session, or the same seq elsewhere, is new.
    assert!(g.should_notify(false, 1_000 + 3 * DEBOUNCE_MS, key("2")));
    let other = Some(EventKey { session: Some("s2".into()), seq: "1".into() });
    assert!(g.should_notify(false, 1_000 + 5 * DEBOUNCE_MS, other));
}

#[test]
fn gate_stream_frames_notify_once() {
    let raw = frame("session/event", r#","event":{"type":"message.stopped","seq":1,"time":1,"data":{}}"#);
    let mut g = NotifyGate::new(true);
    let (_, k1) = read_event(&raw).unwrap();
    let (_, k2) = read_event(&raw).unwrap();
    assert!(g.should_notify(false, 0, k1));
    assert!(!g.should_notify(false, 2 * DEBOUNCE_MS, k2));
}

#[test]
fn gate_quiet_when_focused_or_off() {
    let mut g = NotifyGate::new(true);
    assert!(!g.should_notify(true, 50_000, None));
    assert_eq!(g.last, None);
    assert_eq!(g.toggle(), false);
    assert!(!g.should_notify(false, 50_000, None));
    assert_eq!(g.last, None);
    assert_eq!(g.toggle(), true);
    assert!(g.should_notify(false, 50_000, None));
}

#[test]
fn applescript_escape_reads_back() {
    assert_eq!(applescript_escape(""), "");
    assert_eq!(applescript_escape("plain 文字"), "plain 文字");
    assert_eq!(applescript_escape("a\"b"), "a\\\"b");
    assert_eq!(applescript_escape("c:\\dir\\"), "c:\\\\dir\\\\");
}
