use dashahan::update::{offer_step, OfferAction};
use dashahan::update::UpgradeEvent::{Ack, Finished};
use dashahan::state::{menu_command, stop_step, HealGate, MenuCommand, QuitGate, StopStep};
use dashahan::update::{
    available_update, dash_found_text, dash_item_text, dash_update_question, dsh_found_text,
    dsh_item_text, dsh_upgrade_question, plan_dash_update, unpacked_app_ok, upgrade_step,
    DashUpdate, UpgradeAction, UpgradeEvent, UpgradeStage,
};

#[test]
fn version_checks() {
    assert_eq!(available_update("0.1.0-rc.6", "0.1.0"), Some("0.1.0".into()));
    assert_eq!(available_update("0.1.0", "0.1.0"), None);
    assert_eq!(available_update("0.2.0", "0.1.9"), None);
    assert_eq!(available_update("0.9.0", "0.10.0"), Some("0.10.0".into()));
    // What does not parse is never older: no offer.
    assert_eq!(available_update("", "1.0.0"), None);
    assert_eq!(available_update("1.0.0", "v2"), None);
}

fn upgrade(installed: &str, latest: &str, events: Vec<UpgradeEvent>) -> Vec<String> {
    let mut stage = UpgradeStage::Start;
    let mut seen = Vec::new();
    for e in events {
        let (s, a) = upgrade_step(installed, latest, stage, e);
        stage = s;
        seen.push(match a {
            UpgradeAction::Notify(t, m) => format!("notify {t}: {m}"),
            UpgradeAction::Progress(m) => format!("progress {m}"),
            UpgradeAction::Backup => "backup".into(),
            UpgradeAction::Install => "install".into(),
            UpgradeAction::Restart => "restart".into(),
            UpgradeAction::Restore => "restore".into(),
            UpgradeAction::ClearCached => "clear".into(),
            UpgradeAction::Report(t, m) => format!("report {t}: {m}"),
            UpgradeAction::Finish(Ok(m)) => format!("ok {m}"),
            UpgradeAction::Finish(Err(m)) => format!("err {m}"),
            UpgradeAction::Idle => "idle".into(),
        });
    }
    seen
}

#[test]
fn upgrade_success() {
    assert_eq!(
        upgrade("0.1.0", "0.2.0", vec![Ack, Ack, Ack, Finished(Ok(())), Finished(Ok(())), Finished(Ok(())), Ack, Ack]),
        vec![
            "notify 正在升级 dsh: 0.1.0 → v0.2.0, 约 1~3 分钟",
            "progress 正在升级 dsh 0.1.0 → 0.2.0…",
            "backup",
            "install",
            "restart",
            "clear",
            "report dsh 升级完成: dsh 已升级到 v0.2.0",
            "ok dsh 已升级到 v0.2.0"
        ]
    );
}

#[test]
fn upgrade_failures_roll_back() {
    let seen = upgrade("a", "b", vec![Ack, Ack, Ack, Finished(Ok(())), Finished(Err("npm".into())), Ack, Ack]);
    assert_eq!(&seen[4..], &["restore", "report dsh 升级失败: 安装失败, 已自动回滚: npm", "err 安装失败, 已自动回滚: npm"]);
    let seen = upgrade(
        "a",
        "b",
        vec![Ack, Ack, Ack, Finished(Ok(())), Finished(Ok(())), Finished(Err("http".into())), Ack, Finished(Err("x".into())), Ack],
    );
    assert_eq!(
        &seen[5..],
        &[
            "restore",
            "restart",
            "report dsh 升级失败: 升级后启动失败, 已自动回滚: http",
            "err 升级后启动失败, 已自动回滚: http"
        ]
    );
    let seen = upgrade("a", "b", vec![Ack, Ack, Ack, Finished(Err("cp".into())), Ack]);
    assert_eq!(&seen[3..], &["err cp", "idle"]);
    assert_eq!(upgrade("1.0.0", "1.0.0", vec![Ack]), vec!["ok dsh 已是最新版本 v1.0.0"]);
}

#[test]
fn dash_update_plan() {
    match plan_dash_update("0.1.6", "0.1.7", true) {
        DashUpdate::Fetch { asset, url, work_dir, backup_name } => {
            assert_eq!(asset, "DASH-macOS-full.zip");
            assert_eq!(
                url,
                "https://github.com/zzpwestlife/dashahan/releases/download/v0.1.7/DASH-macOS-full.zip"
            );
            assert_eq!(work_dir, "dash-update-0.1.7");
            assert_eq!(backup_name, "DASH-app-0.1.6");
        }
        DashUpdate::Current(_) => panic!("expected a fetch"),
    }
    match plan_dash_update("0.1.6", "0.1.7", false) {
        DashUpdate::Fetch { asset, .. } => assert_eq!(asset, "DASH-macOS-lite.zip"),
        DashUpdate::Current(_) => panic!("expected a fetch"),
    }
    match plan_dash_update("0.1.7", "0.1.7", false) {
        DashUpdate::Current(m) => assert_eq!(m, "DASH 已是最新版本 v0.1.7"),
        DashUpdate::Fetch { .. } => panic!("expected current"),
    }
    assert!(unpacked_app_ok(false, true));
    assert!(!unpacked_app_ok(false, false));
}

#[test]
fn menu_texts() {
    assert_eq!(dsh_item_text(&None), "检查 dsh 更新");
    assert_eq!(dsh_item_text(&Some("0.2.0".into())), "升级 dsh 到 v0.2.0");
    assert_eq!(dash_item_text(&None), "检查 DASH 更新");
    assert_eq!(dash_item_text(&Some("0.1.8".into())), "更新 DASH 到 v0.1.8");
    assert_eq!(dsh_upgrade_question("1"), "升级 dsh 到 v1?\n(将自动备份当前版本, 失败可回滚)");
    assert_eq!(dash_update_question("1"), "更新 DASH 到 v1?\n(将自动下载替换并重启, 失败自动恢复)");
    assert_eq!(dsh_found_text("2"), "v2 可用, 点菜单「升级 dsh」一键升级");
    assert_eq!(dash_found_text("2"), "v2 可用, 点菜单「更新 DASH」一键更新");
}

#[test]
fn menu_ids() {
    assert_eq!(menu_command("update-dsh"), Some(MenuCommand::Reinstall));
    assert_eq!(menu_command("check-dsh-update"), Some(MenuCommand::DshUpdate));
    assert_eq!(menu_command("check-dash-update"), Some(MenuCommand::DashUpdate));
    assert_eq!(menu_command("set-api-key"), Some(MenuCommand::SetApiKey));
    assert_eq!(menu_command("notify-toggle"), Some(MenuCommand::ToggleNotify));
    assert_eq!(menu_command("open-logs"), Some(MenuCommand::OpenLogs));
    assert_eq!(menu_command("reset-conversations"), Some(MenuCommand::ResetConversations));
    assert_eq!(menu_command("quit-app"), Some(MenuCommand::Quit));
    assert_eq!(menu_command("other"), None);
}

#[test]
fn heal_once() {
    let mut g = HealGate::new();
    assert!(g.try_heal());
    assert!(!g.try_heal());
    assert!(!g.try_heal());
    assert_eq!(g.count, 1);
}

#[test]
fn quit_dialog_once() {
    let mut q = QuitGate::new();
    assert!(q.try_open());
    assert!(!q.try_open());
    q.cancelled();
    assert!(q.try_open());
}

#[test]
fn stop_rounds() {
    assert_eq!(stop_step(true, 0), StopStep::Reap);
    assert_eq!(stop_step(false, 19), StopStep::Wait);
    assert_eq!(stop_step(false, 20), StopStep::Kill);
    assert_eq!(stop_step(true, 20), StopStep::Reap);
}

#[test]
fn update_offer_steps() {
    // A version found by the background check is offered without checking.
    assert!(matches!(offer_step(Some("0.2.0".into()), None), OfferAction::Confirm(v) if v == "0.2.0"));
    assert!(matches!(offer_step(Some("0.2.0".into()), Some(None)), OfferAction::Confirm(v) if v == "0.2.0"));
    // Nothing known: check first, then offer what was found or report current.
    assert!(matches!(offer_step(None, None), OfferAction::Check));
    assert!(matches!(offer_step(None, Some(Some("1.0.0".into()))), OfferAction::Confirm(v) if v == "1.0.0"));
    assert!(matches!(offer_step(None, Some(None)), OfferAction::UpToDate));
}
