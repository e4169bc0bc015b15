use dashahan::boot::BootEvent::{Ack, Answer, Finished, Installed, Key, Launched, NavigateFailed};
use dashahan::boot::{boot_step, BootAction, BootEvent, BootStage};
use dashahan::server::{
    http_status_ok, launch_wait, lines, npm_install_args, not_ready_message, server_url,
    tail_lines, web_args, LaunchWait,
};

#[test]
fn url_and_args() {
    assert_eq!(server_url(49598), "http://127.0.0.1:49598/");
    assert_eq!(web_args(8), vec!["web", "--host", "127.0.0.1", "--port", "8"]);
    assert_eq!(
        npm_install_args("/d", "@deepseek-ai/dsh", "0.1.0-rc.6"),
        vec![
            "install",
            "--prefix",
            "/d",
            "@deepseek-ai/dsh@0.1.0-rc.6",
            "--no-audit",
            "--no-fund",
            "--loglevel=warn",
            "--registry=https://registry.npmjs.org/"
        ]
    );
    assert_eq!(not_ready_message("http://x/"), "服务端口已开但 HTTP 未就绪: http://x/");
}

#[test]
fn wait_decisions() {
    assert_eq!(launch_wait(true, true, 100, 0), LaunchWait::Ready);
    assert_eq!(launch_wait(false, true, 0, 100), LaunchWait::Exited);
    assert_eq!(launch_wait(false, false, 101, 100), LaunchWait::TimedOut);
    assert_eq!(launch_wait(false, false, 100, 100), LaunchWait::Wait);
}

#[test]
fn readiness_check() {
    assert!(http_status_ok(true, "200"));
    assert!(http_status_ok(true, " 200\n"));
    assert!(!http_status_ok(true, "404"));
    assert!(!http_status_ok(false, "200"));
}

#[test]
fn lines_like_std() {
    for s in ["", "a", "a\n", "a\r\nb", "\n", "a\n\nb\r", "x\ry\n\r\n", "\r\n\r\n"] {
        let want: Vec<String> = s.lines().map(|l| l.to_string()).collect();
        assert_eq!(lines(s), want, "for {s:?}");
    }
}

#[test]
fn log_tail() {
    let log: String = (1..=10).map(|i| format!("l{i}\n")).collect();
    assert_eq!(tail_lines(&log), "l10\nl9\nl8\nl7\nl6\nl5\nl4\nl3");
    assert_eq!(tail_lines("a\nb"), "b\na");
    assert_eq!(tail_lines(""), "");
}

fn run(mut stage: BootStage, events: Vec<BootEvent>) -> (BootStage, Vec<String>) {
    let mut seen = Vec::new();
    for e in events {
        let (s, a) = boot_step(stage, e);
        stage = s;
        seen.push(match a {
            BootAction::KillChild => "kill".to_string(),
            BootAction::Progress(m) => format!("progress {m}"),
            BootAction::CheckInstalled => "check".to_string(),
            BootAction::Install => "install".to_string(),
            BootAction::Backup => "backup".to_string(),
            BootAction::Log(m) => format!("log {m}"),
            BootAction::CheckKey => "key?".to_string(),
            BootAction::PromptKey => "prompt".to_string(),
            BootAction::SaveKey(k) => format!("save {k}"),
            BootAction::MarkKeyAsked => "asked".to_string(),
            BootAction::Launch => "launch".to_string(),
            BootAction::Pause => "pause".to_string(),
            BootAction::Navigate(u) => format!("go {u}"),
            BootAction::Fail(m) => format!("fail {m}"),
            BootAction::Idle => "idle".to_string(),
        });
    }
    (stage, seen)
}

#[test]
fn boot_installed_with_key() {
    let (stage, seen) = run(
        BootStage::start(false),
        vec![
            Ack,
            Ack,
            Ack,
            Installed(true),
            Finished(Ok(())),
            Key { stored: true, asked: false },
            Ack,
            Launched(Ok("http://127.0.0.1:5/".into())),
        ],
    );
    assert!(stage.is_over());
    assert_eq!(
        seen,
        vec![
            "kill",
            "progress 正在检查运行环境…",
            "check",
            "backup",
            "key?",
            "progress 正在启动本地服务…",
            "launch",
            "go http://127.0.0.1:5/"
        ]
    );
}

#[test]
fn boot_first_run_prompts_and_retries() {
    let (stage, seen) = run(
        BootStage::start(false),
        vec![
            Ack,
            Ack,
            Ack,
            Installed(false),
            Ack,
            Finished(Ok(())),
            Finished(Err("disk".into())),
            Ack,
            Key { stored: false, asked: false },
            Ack,
            Answer(None),
            Ack,
            Ack,
            Launched(Err("e1".into())),
            Ack,
            Ack,
            Ack,
            Ack,
            Launched(Err("e2".into())),
            Ack,
        ],
    );
    assert!(stage.is_over());
    assert_eq!(
        seen,
        vec![
            "kill",
            "progress 正在检查运行环境…",
            "check",
            "progress 首次运行, 正在安装 dsh (约 1~3 分钟)…",
            "install",
            "backup",
            "log backup 失败: disk",
            "key?",
            "progress 请输入 API Key（可跳过）…",
            "prompt",
            "asked",
            "progress 正在启动本地服务…",
            "launch",
            "log 首次启动异常: e1",
            "kill",
            "pause",
            "progress 服务启动异常, 自动重试…",
            "launch",
            "fail 服务启动失败.\n首次: e1\n重试: e2",
            "idle"
        ]
    );
}

#[test]
fn boot_retry_succeeds_and_key_saved() {
    let (stage, seen) = run(
        BootStage::start(false),
        vec![
            Ack,
            Ack,
            Ack,
            Installed(true),
            Finished(Ok(())),
            Key { stored: false, asked: false },
            Ack,
            Answer(Some("sk-9".into())),
            Ack,
            Ack,
            Launched(Err("e1".into())),
            Ack,
            Ack,
            Ack,
            Ack,
            Launched(Ok("u".into())),
            Ack,
            NavigateFailed("bad".into()),
        ],
    );
    assert!(stage.is_over());
    assert_eq!(seen[7], "save sk-9");
    assert_eq!(seen[15], "log 重试后启动成功");
    assert_eq!(seen[16], "go u");
    assert_eq!(seen[17], "fail 页面加载失败: bad");
}

#[test]
fn boot_install_failure_and_reinstall() {
    let (_, seen) = run(
        BootStage::start(false),
        vec![Ack, Ack, Ack, Installed(false), Ack, Finished(Err("net".into())), Ack],
    );
    assert_eq!(seen[5], "fail 安装失败, 请检查网络后重试.\nnet");
    assert_eq!(seen[6], "idle");

    let (_, seen) = run(
        BootStage::start(true),
        vec![Ack, Ack, Finished(Err("x".into()))],
    );
    assert_eq!(seen, vec!["progress 正在更新 dsh…", "install", "fail 更新失败: x"]);

    let (_, seen) = run(BootStage::start(true), vec![Ack, Ack, Finished(Ok(())), Ack]);
    assert_eq!(seen, vec!["progress 正在更新 dsh…", "install", "kill", "progress 正在检查运行环境…"]);
}

#[test]
fn boot_ignores_unexpected_events() {
    let (_, seen) = run(BootStage::start(false), vec![Installed(true), Ack]);
    assert_eq!(seen, vec!["idle", "kill"]);
}
