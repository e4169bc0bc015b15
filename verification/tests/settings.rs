use dashahan::shared::{
    dialog_answer, dialog_script, dsh_bin, excess_backups, join_path, node_candidates, path_env,
    pick_node, Config, NodeProbe,
};
use dashahan::text::{decimal, find, trim};

#[test]
fn config_defaults() {
    let c = Config::default();
    assert!(c.api_key.is_none());
    assert!(!c.key_asked);
    assert!(c.notify_enabled);
}

#[test]
fn launch_key_skips_empty() {
    let mut c = Config::default();
    assert_eq!(c.launch_api_key(), None);
    c.api_key = Some(String::new());
    assert_eq!(c.launch_api_key(), None);
    c.api_key = Some("sk-1".into());
    assert_eq!(c.launch_api_key(), Some("sk-1".into()));
}

#[test]
fn dialog_answers() {
    assert_eq!(
        dialog_answer(true, "button returned:保存, text returned:sk-abc\n"),
        Some("sk-abc".into())
    );
    assert_eq!(
        dialog_answer(true, "button returned:保存, text returned: sk-abc , gave up:true"),
        Some("sk-abc".into())
    );
    assert_eq!(dialog_answer(true, "button returned:保存, text returned:   "), None);
    assert_eq!(dialog_answer(true, "button returned:保存"), None);
    assert_eq!(dialog_answer(false, "text returned:sk-abc"), None);
}

#[test]
fn dialog_script_text() {
    assert_eq!(
        dialog_script("请输入 Key"),
        "display dialog \"请输入 Key\" default answer \"\" with hidden answer buttons {\"取消\",\"保存\"} default button \"保存\""
    );
}

#[test]
fn node_choice() {
    let p = |is_file, has_npm| NodeProbe { is_file, has_npm };
    assert_eq!(pick_node(&vec![]), None);
    assert_eq!(pick_node(&vec![p(false, false), p(true, false), p(true, true)]), Some(2));
    assert_eq!(pick_node(&vec![p(false, true), p(true, false), p(true, false)]), Some(1));
    assert_eq!(pick_node(&vec![p(false, true), p(false, false)]), None);
    assert_eq!(pick_node(&vec![p(true, true), p(true, true)]), Some(0));
}

#[test]
fn paths() {
    assert_eq!(join_path("/a/b", "c"), "/a/b/c");
    assert_eq!(join_path("/a/b/", "c"), "/a/b/c");
    assert_eq!(join_path("", "c"), "c");
    assert_eq!(
        dsh_bin("/data"),
        "/data/node_modules/@deepseek-ai/dsh/lib/bin.js"
    );
    assert_eq!(
        path_env(Some("/n/bin"), "/data", "/usr/bin:/bin"),
        "/n/bin:/opt/homebrew/bin:/usr/local/bin:/data/node_modules/.bin:/usr/bin:/bin"
    );
    assert_eq!(
        path_env(None, "/data", ""),
        "/opt/homebrew/bin:/usr/local/bin:/data/node_modules/.bin:"
    );
}

#[test]
fn text_helpers() {
    assert_eq!(find("abcabc", "ca"), Some(2));
    assert_eq!(find("abc", "x"), None);
    assert_eq!(find("ab", "abc"), None);
    assert_eq!(find("ab", ""), Some(0));
    assert_eq!(trim(" \t x y \n"), "x y");
    assert_eq!(trim("\u{3000}\u{a0}"), "");
    assert_eq!(decimal(0), "0");
    assert_eq!(decimal(49598), "49598");
    assert_eq!(decimal(u64::MAX), "18446744073709551615");
}

#[test]
fn backups_kept() {
    assert_eq!(excess_backups(0), 0);
    assert_eq!(excess_backups(5), 0);
    assert_eq!(excess_backups(8), 3);
}

#[test]
fn config_file_text_has_no_key() {
    let mut c = Config::default();
    assert_eq!(c.file_text(), "{\n  \"key_asked\": false,\n  \"notify_enabled\": true\n}");
    c.api_key = Some("sk-secret".into());
    c.key_asked = true;
    c.notify_enabled = false;
    let text = c.file_text();
    assert_eq!(text, "{\n  \"key_asked\": true,\n  \"notify_enabled\": false\n}");
    assert!(!text.contains("sk-secret"));
    // The text reads back as JSON with the two switches.
    let v: serde_json::Value = serde_json::from_str(&text).unwrap();
    assert_eq!(v["key_asked"], serde_json::Value::Bool(true));
    assert_eq!(v["notify_enabled"], serde_json::Value::Bool(false));
    assert!(v.get("api_key").is_none());
}

#[test]
fn config_reads_back_what_was_written() {
    for (asked, notify) in [(false, false), (false, true), (true, false), (true, true)] {
        let c = Config { api_key: Some("sk-x".into()), key_asked: asked, notify_enabled: notify };
        let back = Config::from_file_text(&c.file_text());
        assert_eq!(back.api_key, None);
        assert_eq!(back.key_asked, asked);
        assert_eq!(back.notify_enabled, notify);
    }
}

#[test]
fn config_skipped_dialog_stays_recorded() {
    // After a cancelled dialog the mark is written; the next start-up reads it.
    let mut c = Config::from_file_text("");
    assert!(!c.key_asked);
    c.key_asked = true;
    assert!(Config::from_file_text(&c.file_text()).key_asked);
}

#[test]
fn config_reads_older_files_and_defaults() {
    let legacy = Config::from_file_text("{\n  \"api_key\": \"sk-old\",\n  \"key_asked\": true\n}");
    assert_eq!(legacy.api_key, Some("sk-old".into()));
    assert!(legacy.key_asked);
    assert!(legacy.notify_enabled);
    let null_key = Config::from_file_text(r#"{"api_key":null,"key_asked":false,"extra":1}"#);
    assert_eq!(null_key.api_key, None);
    assert!(!null_key.key_asked);
    for bad in ["", "not json", "[]", r#"{"key_asked":"yes"}"#, r#"{"api_key":5}"#] {
        let c = Config::from_file_text(bad);
        assert_eq!(c.api_key, None, "{bad}");
        assert!(!c.key_asked, "{bad}");
        assert!(c.notify_enabled, "{bad}");
    }
}

#[test]
fn node_candidates_bundled_first() {
    let path = vec!["/usr/bin".to_string(), "/home/u/bin/".to_string(), String::new()];
    let versions = vec!["/home/u/.nvm/versions/node/v20.1.0".to_string()];
    let c = node_candidates(Some("/Applications/DASH.app/Contents/Resources"), &path, &versions);
    assert_eq!(
        c,
        vec![
            "/Applications/DASH.app/Contents/Resources/node-dist/bin/node".to_string(),
            "/usr/bin/node".into(),
            "/home/u/bin/node".into(),
            "node".into(),
            "/opt/homebrew/bin/node".into(),
            "/usr/local/bin/node".into(),
            "/home/u/.nvm/versions/node/v20.1.0/bin/node".into(),
        ]
    );
    let lite = node_candidates(None, &vec![], &vec![]);
    assert_eq!(lite, vec!["/opt/homebrew/bin/node".to_string(), "/usr/local/bin/node".into()]);
    // The bundled node, present with npm, is chosen over any other.
    let probes: Vec<NodeProbe> = (0..c.len()).map(|_| NodeProbe { is_file: true, has_npm: true }).collect();
    assert_eq!(pick_node(&probes), Some(0));
}
