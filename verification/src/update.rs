//! The two update lines: dsh (npm package, upgraded in place with rollback)
//! and DASH itself (release zip, replaced by a helper script). Version
//! comparison, the upgrade protocol, the release asset and the menu texts.
use vstd::prelude::*;
use crate::text::str_eq;

verus! {

/// How semver orders two version strings: `None` when either does not parse
/// as a semantic version (semver 1.x `Version::parse`), else whether the
/// first orders before the second (semver's `Version` order).
pub uninterp spec fn semver_less(a: Seq<char>, b: Seq<char>) -> Option<bool>;

/// Parses both strings with `semver::Version::parse` and compares them with
/// `Version`'s `<`. Stated here: the result is `semver_less` of the two
/// strings, and a string never orders before itself (the order is total).
/// What `semver_less` is on given strings is not stated.
#[verifier::external_body]
fn compare_versions(a: &str, b: &str) -> (r: Option<bool>)
    ensures
        r == semver_less(a@, b@),
        a@ == b@ ==> r != Some(true),
{
    match (semver::Version::parse(a), semver::Version::parse(b)) {
        (Ok(x), Ok(y)) => Some(x < y),
        _ => None,
    }
}

/// Whether version `a` is older than `b`; a version that does not parse is
/// never older (no update is offered rather than a wrong one).
pub fn version_less(a: &str, b: &str) -> (r: bool)
    ensures
        r == (semver_less(a@, b@) == Some(true)),
        a@ == b@ ==> !r,
{
    match compare_versions(a, b) {
        Some(less) => less,
        None => false,
    }
}

/// The newer version to offer, if `latest` is newer than `installed`.
pub fn available_update(installed: &str, latest: &str) -> (r: Option<String>)
    ensures
        match r {
            Some(v) => semver_less(installed@, latest@) == Some(true) && v@ == latest@,
            None => semver_less(installed@, latest@) != Some(true),
        },
        installed@ == latest@ ==> r is None,
{
    if version_less(installed, latest) {
        Some(String::from_str(latest))
    } else {
        None
    }
}

// ---------------------------------------------------------------- dsh

/// Where the in-place upgrade of dsh stands.
pub enum UpgradeStage {
    Start,
    Announced,
    Progressed,
    BackingUp,
    Installing,
    /// The install failed with this message; the backup is being restored.
    RestoringAfterInstall(String),
    Restarting,
    /// The new version did not come up; the backup is being restored.
    RestoringAfterRestart(String),
    /// The old version is being restarted after the rollback.
    RestartingOld(String),
    Cleared,
    /// The outcome is being shown (notification and alert).
    Reporting(Result<String, String>),
    Done,
}

/// What came of the last action.
pub enum UpgradeEvent {
    Ack,
    Finished(Result<(), String>),
}

/// What the caller does next.
pub enum UpgradeAction {
    /// Post a system notification (title, text).
    Notify(String, String),
    /// Show a progress message on the start page.
    Progress(String),
    /// Copy the installed dsh to the backup directory (`Finished`).
    Backup,
    /// `npm install` dsh at the latest version (`Finished`).
    Install,
    /// Restart dsh web and wait for HTTP 200 (`Finished`).
    Restart,
    /// Put the backup back.
    Restore,
    /// Forget the cached latest version and refresh the menu texts.
    ClearCached,
    /// Notify and alert with this title and text.
    Report(String, String),
    /// The upgrade is over with this result.
    Finish(Result<String, String>),
    /// Nothing to do.
    Idle,
}

/// Views with texts as characters.
pub enum UpgradeStageView {
    Start,
    Announced,
    Progressed,
    BackingUp,
    Installing,
    RestoringAfterInstall(Seq<char>),
    Restarting,
    RestoringAfterRestart(Seq<char>),
    RestartingOld(Seq<char>),
    Cleared,
    Reporting(Result<Seq<char>, Seq<char>>),
    Done,
}

pub enum UpgradeEventView {
    Ack,
    Finished(Result<(), Seq<char>>),
}

pub enum UpgradeActionView {
    Notify(Seq<char>, Seq<char>),
    Progress(Seq<char>),
    Backup,
    Install,
    Restart,
    Restore,
    ClearCached,
    Report(Seq<char>, Seq<char>),
    Finish(Result<Seq<char>, Seq<char>>),
    Idle,
}

pub open spec fn result_view(r: Result<String, String>) -> Result<Seq<char>, Seq<char>> {
    match r {
        Ok(s) => Ok(s@),
        Err(e) => Err(e@),
    }
}

impl View for UpgradeStage {
    type V = UpgradeStageView;

    open spec fn view(&self) -> UpgradeStageView {
        match self {
            UpgradeStage::Start => UpgradeStageView::Start,
            UpgradeStage::Announced => UpgradeStageView::Announced,
            UpgradeStage::Progressed => UpgradeStageView::Progressed,
            UpgradeStage::BackingUp => UpgradeStageView::BackingUp,
            UpgradeStage::Installing => UpgradeStageView::Installing,
            UpgradeStage::RestoringAfterInstall(e) => UpgradeStageView::RestoringAfterInstall(e@),
            UpgradeStage::Restarting => UpgradeStageView::Restarting,
            UpgradeStage::RestoringAfterRestart(e) => UpgradeStageView::RestoringAfterRestart(e@),
            UpgradeStage::RestartingOld(e) => UpgradeStageView::RestartingOld(e@),
            UpgradeStage::Cleared => UpgradeStageView::Cleared,
            UpgradeStage::Reporting(r) => UpgradeStageView::Reporting(result_view(*r)),
            UpgradeStage::Done => UpgradeStageView::Done,
        }
    }
}

impl View for UpgradeEvent {
    type V = UpgradeEventView;

    open spec fn view(&self) -> UpgradeEventView {
        match self {
            UpgradeEvent::Ack => UpgradeEventView::Ack,
            UpgradeEvent::Finished(r) => UpgradeEventView::Finished(
                match r {
                    Ok(()) => Ok(()),
                    Err(e) => Err(e@),
                },
            ),
        }
    }
}

impl View for UpgradeAction {
    type V = UpgradeActionView;

    open spec fn view(&self) -> UpgradeActionView {
        match self {
            UpgradeAction::Notify(t, m) => UpgradeActionView::Notify(t@, m@),
            UpgradeAction::Progress(m) => UpgradeActionView::Progress(m@),
            UpgradeAction::Backup => UpgradeActionView::Backup,
            UpgradeAction::Install => UpgradeActionView::Install,
            UpgradeAction::Restart => UpgradeActionView::Restart,
            UpgradeAction::Restore => UpgradeActionView::Restore,
            UpgradeAction::ClearCached => UpgradeActionView::ClearCached,
            UpgradeAction::Report(t, m) => UpgradeActionView::Report(t@, m@),
            UpgradeAction::Finish(r) => UpgradeActionView::Finish(result_view(*r)),
            UpgradeAction::Idle => UpgradeActionView::Idle,
        }
    }
}

/// The upgrade protocol from `installed` to `latest`: nothing to do when they
/// are equal; else back up, install, restart and check; on a failed install
/// restore the backup, on a failed restart restore and restart the old
/// version; report the outcome. A failed backup ends the upgrade at once with
/// its error and no report.
pub open spec fn upgrade_next(
    installed: Seq<char>,
    latest: Seq<char>,
    s: UpgradeStageView,
    e: UpgradeEventView,
) -> (UpgradeStageView, UpgradeActionView) {
    match (s, e) {
        (UpgradeStageView::Start, UpgradeEventView::Ack) => if installed == latest {
            (
                UpgradeStageView::Done,
                UpgradeActionView::Finish(Ok("dsh 已是最新版本 v"@ + latest)),
            )
        } else {
            (
                UpgradeStageView::Announced,
                UpgradeActionView::Notify(
                    "正在升级 dsh"@,
                    installed + " → v"@ + latest + ", 约 1~3 分钟"@,
                ),
            )
        },
        (UpgradeStageView::Announced, UpgradeEventView::Ack) => (
            UpgradeStageView::Progressed,
            UpgradeActionView::Progress("正在升级 dsh "@ + installed + " → "@ + latest + "…"@),
        ),
        (UpgradeStageView::Progressed, UpgradeEventView::Ack) => (
            UpgradeStageView::BackingUp,
            UpgradeActionView::Backup,
        ),
        (UpgradeStageView::BackingUp, UpgradeEventView::Finished(Ok(()))) => (
            UpgradeStageView::Installing,
            UpgradeActionView::Install,
        ),
        (UpgradeStageView::BackingUp, UpgradeEventView::Finished(Err(m))) => (
            UpgradeStageView::Done,
            UpgradeActionView::Finish(Err(m)),
        ),
        (UpgradeStageView::Installing, UpgradeEventView::Finished(Ok(()))) => (
            UpgradeStageView::Restarting,
            UpgradeActionView::Restart,
        ),
        (UpgradeStageView::Installing, UpgradeEventView::Finished(Err(m))) => (
            UpgradeStageView::RestoringAfterInstall(m),
            UpgradeActionView::Restore,
        ),
        (UpgradeStageView::RestoringAfterInstall(m), UpgradeEventView::Ack) => (
            UpgradeStageView::Reporting(Err("安装失败, 已自动回滚: "@ + m)),
            UpgradeActionView::Report("dsh 升级失败"@, "安装失败, 已自动回滚: "@ + m),
        ),
        (UpgradeStageView::Restarting, UpgradeEventView::Finished(Ok(()))) => (
            UpgradeStageView::Cleared,
            UpgradeActionView::ClearCached,
        ),
        (UpgradeStageView::Restarting, UpgradeEventView::Finished(Err(m))) => (
            UpgradeStageView::RestoringAfterRestart(m),
            UpgradeActionView::Restore,
        ),
        (UpgradeStageView::RestoringAfterRestart(m), UpgradeEventView::Ack) => (
            UpgradeStageView::RestartingOld(m),
            UpgradeActionView::Restart,
        ),
        (UpgradeStageView::RestartingOld(m), UpgradeEventView::Finished(_)) => (
            UpgradeStageView::Reporting(Err("升级后启动失败, 已自动回滚: "@ + m)),
            UpgradeActionView::Report("dsh 升级失败"@, "升级后启动失败, 已自动回滚: "@ + m),
        ),
        (UpgradeStageView::Cleared, UpgradeEventView::Ack) => (
            UpgradeStageView::Reporting(Ok("dsh 已升级到 v"@ + latest)),
            UpgradeActionView::Report("dsh 升级完成"@, "dsh 已升级到 v"@ + latest),
        ),
        (UpgradeStageView::Reporting(r), UpgradeEventView::Ack) => (
            UpgradeStageView::Done,
            UpgradeActionView::Finish(r),
        ),
        _ => (s, UpgradeActionView::Idle),
    }
}

fn concat2(a: &str, b: &str) -> (s: String)
    ensures
        s@ == a@ + b@,
{
    let mut s = String::from_str(a);
    s.append(b);
    s
}

fn concat3(a: &str, b: &str, c: &str) -> (s: String)
    ensures
        s@ == a@ + b@ + c@,
{
    let mut s = String::from_str(a);
    s.append(b);
    s.append(c);
    s
}

/// Advances the dsh upgrade from `installed` to `latest` by one event.
pub fn upgrade_step(installed: &str, latest: &str, stage: UpgradeStage, event: UpgradeEvent) -> (r: (
    UpgradeStage,
    UpgradeAction,
))
    ensures
        (r.0@, r.1@) == upgrade_next(installed@, latest@, stage@, event@),
{
    match (stage, event) {
        (UpgradeStage::Start, UpgradeEvent::Ack) => {
            if str_eq(installed, latest) {
                (
                    UpgradeStage::Done,
                    UpgradeAction::Finish(Ok(concat2("dsh 已是最新版本 v", latest))),
                )
            } else {
                let mut text = concat3(installed, " → v", latest);
                text.append(", 约 1~3 分钟");
                (UpgradeStage::Announced, UpgradeAction::Notify(String::from_str("正在升级 dsh"), text))
            }
        },
        (UpgradeStage::Announced, UpgradeEvent::Ack) => {
            let mut text = concat3("正在升级 dsh ", installed, " → ");
            text.append(latest);
            text.append("…");
            (UpgradeStage::Progressed, UpgradeAction::Progress(text))
        },
        (UpgradeStage::Progressed, UpgradeEvent::Ack) => (UpgradeStage::BackingUp, UpgradeAction::Backup),
        (UpgradeStage::BackingUp, UpgradeEvent::Finished(Ok(()))) => (
            UpgradeStage::Installing,
            UpgradeAction::Install,
        ),
        (UpgradeStage::BackingUp, UpgradeEvent::Finished(Err(m))) => (
            UpgradeStage::Done,
            UpgradeAction::Finish(Err(m)),
        ),
        (UpgradeStage::Installing, UpgradeEvent::Finished(Ok(()))) => (
            UpgradeStage::Restarting,
            UpgradeAction::Restart,
        ),
        (UpgradeStage::Installing, UpgradeEvent::Finished(Err(m))) => (
            UpgradeStage::RestoringAfterInstall(m),
            UpgradeAction::Restore,
        ),
        (UpgradeStage::RestoringAfterInstall(m), UpgradeEvent::Ack) => {
            let msg = concat2("安装失败, 已自动回滚: ", m.as_str());
            let shown = concat2("安装失败, 已自动回滚: ", m.as_str());
            (
                UpgradeStage::Reporting(Err(msg)),
                UpgradeAction::Report(String::from_str("dsh 升级失败"), shown),
            )
        },
        (UpgradeStage::Restarting, UpgradeEvent::Finished(Ok(()))) => (
            UpgradeStage::Cleared,
            UpgradeAction::ClearCached,
        ),
        (UpgradeStage::Restarting, UpgradeEvent::Finished(Err(m))) => (
            UpgradeStage::RestoringAfterRestart(m),
            UpgradeAction::Restore,
        ),
        (UpgradeStage::RestoringAfterRestart(m), UpgradeEvent::Ack) => (
            UpgradeStage::RestartingOld(m),
            UpgradeAction::Restart,
        ),
        (UpgradeStage::RestartingOld(m), UpgradeEvent::Finished(_)) => {
            let msg = concat2("升级后启动失败, 已自动回滚: ", m.as_str());
            let shown = concat2("升级后启动失败, 已自动回滚: ", m.as_str());
            (
                UpgradeStage::Reporting(Err(msg)),
                UpgradeAction::Report(String::from_str("dsh 升级失败"), shown),
            )
        },
        (UpgradeStage::Cleared, UpgradeEvent::Ack) => {
            let msg = concat2("dsh 已升级到 v", latest);
            let shown = concat2("dsh 已升级到 v", latest);
            (
                UpgradeStage::Reporting(Ok(msg)),
                UpgradeAction::Report(String::from_str("dsh 升级完成"), shown),
            )
        },
        (UpgradeStage::Reporting(r), UpgradeEvent::Ack) => (UpgradeStage::Done, UpgradeAction::Finish(r)),
        (s, _) => (s, UpgradeAction::Idle),
    }
}

/// Rollback: once the new version was installed, a failed restart restores
/// the backup and restarts the old version before reporting failure; a
/// failed install restores the backup before reporting.
pub proof fn failed_upgrade_rolls_back(installed: Seq<char>, latest: Seq<char>, m: Seq<char>)
    ensures
        upgrade_next(installed, latest, UpgradeStageView::Installing, UpgradeEventView::Finished(Err(m))).1
            == UpgradeActionView::Restore,
        upgrade_next(installed, latest, UpgradeStageView::Restarting, UpgradeEventView::Finished(Err(m))).1
            == UpgradeActionView::Restore,
        upgrade_next(
            installed,
            latest,
            UpgradeStageView::RestoringAfterRestart(m),
            UpgradeEventView::Ack,
        ).1 == UpgradeActionView::Restart,
{
}

/// Once the restarted new version failed with `m`, the upgrade reports
/// failure, naming `m`, whatever the restart of the old version gave; the
/// report then finishes with that error.
pub proof fn failed_restart_reported(
    installed: Seq<char>,
    latest: Seq<char>,
    m: Seq<char>,
    r: Result<(), Seq<char>>,
)
    ensures
        upgrade_next(installed, latest, UpgradeStageView::RestartingOld(m), UpgradeEventView::Finished(r))
            == (
            UpgradeStageView::Reporting(Err("升级后启动失败, 已自动回滚: "@ + m)),
            UpgradeActionView::Report("dsh 升级失败"@, "升级后启动失败, 已自动回滚: "@ + m),
        ),
        upgrade_next(
            installed,
            latest,
            UpgradeStageView::Reporting(Err("升级后启动失败, 已自动回滚: "@ + m)),
            UpgradeEventView::Ack,
        ) == (
            UpgradeStageView::Done,
            UpgradeActionView::Finish(Err("升级后启动失败, 已自动回滚: "@ + m)),
        ),
{
}

/// Stages an upgrade can be in after its install or the restart of the new
/// version failed: rolling back, restarting the old version, reporting a
/// failure, or over.
pub open spec fn after_failure(s: UpgradeStageView) -> bool {
    ||| s is RestoringAfterInstall
    ||| s is RestoringAfterRestart
    ||| s is RestartingOld
    ||| s matches UpgradeStageView::Reporting(Err(_))
    ||| s is Done
}

/// No run that went through a failed install or restart ends in success:
/// from any such stage, every event leads to such a stage again, the cached
/// latest version is never cleared, and no step finishes with `Ok`.
pub proof fn failed_upgrade_never_succeeds(
    installed: Seq<char>,
    latest: Seq<char>,
    s: UpgradeStageView,
    e: UpgradeEventView,
)
    requires
        after_failure(s),
    ensures
        after_failure(upgrade_next(installed, latest, s, e).0),
        !(upgrade_next(installed, latest, s, e).1 is ClearCached),
        !(upgrade_next(installed, latest, s, e).1 matches UpgradeActionView::Finish(Ok(_))),
{
}

/// Success is reported only after the new version came up: `Finish(Ok)`
/// comes only from reporting a success (or at once when dsh is current), a
/// reported success only from the cleared stage with the latest version in
/// it, and the cleared stage only from a restart that succeeded.
pub proof fn success_only_after_restart(
    installed: Seq<char>,
    latest: Seq<char>,
    s: UpgradeStageView,
    e: UpgradeEventView,
)
    ensures
        upgrade_next(installed, latest, s, e).1 matches UpgradeActionView::Finish(Ok(x)) ==> (s
            == UpgradeStageView::Reporting(Ok(x)) && e is Ack) || (s is Start && installed
            == latest),
        !(s is Reporting) ==> (upgrade_next(installed, latest, s, e).0 matches UpgradeStageView::Reporting(Ok(x))
            ==> s is Cleared && x == "dsh 已升级到 v"@ + latest),
        upgrade_next(installed, latest, s, e).0 is Cleared && !(s is Cleared) ==> s is Restarting
            && e matches UpgradeEventView::Finished(Ok(_)),
{
}

/// A failed install is rolled back (the backup restored) and then reported
/// as a failure naming the error; the report finishes with that error.
pub proof fn failed_install_reported(installed: Seq<char>, latest: Seq<char>, m: Seq<char>)
    ensures
        upgrade_next(installed, latest, UpgradeStageView::Installing, UpgradeEventView::Finished(Err(m)))
            == (UpgradeStageView::RestoringAfterInstall(m), UpgradeActionView::Restore),
        upgrade_next(installed, latest, UpgradeStageView::RestoringAfterInstall(m), UpgradeEventView::Ack)
            == (
            UpgradeStageView::Reporting(Err("安装失败, 已自动回滚: "@ + m)),
            UpgradeActionView::Report("dsh 升级失败"@, "安装失败, 已自动回滚: "@ + m),
        ),
        upgrade_next(
            installed,
            latest,
            UpgradeStageView::Reporting(Err("安装失败, 已自动回滚: "@ + m)),
            UpgradeEventView::Ack,
        ) == (UpgradeStageView::Done, UpgradeActionView::Finish(Err("安装失败, 已自动回滚: "@ + m))),
{
}

/// A failed backup stops the upgrade before anything is installed, with the
/// backup's error.
pub proof fn failed_backup_stops(installed: Seq<char>, latest: Seq<char>, m: Seq<char>)
    ensures
        upgrade_next(installed, latest, UpgradeStageView::BackingUp, UpgradeEventView::Finished(Err(m)))
            == (UpgradeStageView::Done, UpgradeActionView::Finish(Err(m))),
{
}

/// An upgrade to a different version goes: notify, show progress, back up,
/// install, restart, forget the cached offer, report the new version, and
/// finish with it.
pub proof fn upgrade_in_order(installed: Seq<char>, latest: Seq<char>)
    requires
        installed != latest,
    ensures
        upgrade_next(installed, latest, UpgradeStageView::Start, UpgradeEventView::Ack) == (
            UpgradeStageView::Announced,
            UpgradeActionView::Notify("正在升级 dsh"@, installed + " → v"@ + latest + ", 约 1~3 分钟"@),
        ),
        upgrade_next(installed, latest, UpgradeStageView::Announced, UpgradeEventView::Ack) == (
            UpgradeStageView::Progressed,
            UpgradeActionView::Progress("正在升级 dsh "@ + installed + " → "@ + latest + "…"@),
        ),
        upgrade_next(installed, latest, UpgradeStageView::Progressed, UpgradeEventView::Ack) == (
            UpgradeStageView::BackingUp,
            UpgradeActionView::Backup,
        ),
        upgrade_next(installed, latest, UpgradeStageView::BackingUp, UpgradeEventView::Finished(Ok(())))
            == (UpgradeStageView::Installing, UpgradeActionView::Install),
        upgrade_next(installed, latest, UpgradeStageView::Installing, UpgradeEventView::Finished(Ok(())))
            == (UpgradeStageView::Restarting, UpgradeActionView::Restart),
        upgrade_next(installed, latest, UpgradeStageView::Restarting, UpgradeEventView::Finished(Ok(())))
            == (UpgradeStageView::Cleared, UpgradeActionView::ClearCached),
        upgrade_next(installed, latest, UpgradeStageView::Cleared, UpgradeEventView::Ack) == (
            UpgradeStageView::Reporting(Ok("dsh 已升级到 v"@ + latest)),
            UpgradeActionView::Report("dsh 升级完成"@, "dsh 已升级到 v"@ + latest),
        ),
        upgrade_next(
            installed,
            latest,
            UpgradeStageView::Reporting(Ok("dsh 已升级到 v"@ + latest)),
            UpgradeEventView::Ack,
        ) == (UpgradeStageView::Done, UpgradeActionView::Finish(Ok("dsh 已升级到 v"@ + latest))),
{
}

/// An up-to-date dsh is not touched: the upgrade ends at once.
pub proof fn current_dsh_untouched(v: Seq<char>)
    ensures
        upgrade_next(v, v, UpgradeStageView::Start, UpgradeEventView::Ack) == (
        UpgradeStageView::Done,
        UpgradeActionView::Finish(Ok("dsh 已是最新版本 v"@ + v)),
        ),
{
}

// ---------------------------------------------------------------- DASH

/// Which release to fetch for DASH itself.
pub enum DashUpdate {
    /// Already at the latest version: this message, nothing to do.
    Current(String),
    /// Download `asset` from `url`, work in the temporary directory
    /// `work_dir`, and back the running app up as `backup_name`.
    Fetch { asset: String, url: String, work_dir: String, backup_name: String },
}

/// The release asset matching the running app: the full build (with an
/// embedded Node.js) or the lite one.
pub open spec fn asset_spec(embedded_node: bool) -> Seq<char> {
    if embedded_node {
        "DASH-macOS-full.zip"@
    } else {
        "DASH-macOS-lite.zip"@
    }
}

/// The download URL of `asset` of release `v<latest>`.
pub open spec fn release_url_spec(latest: Seq<char>, asset: Seq<char>) -> Seq<char> {
    "https://github.com/zzpwestlife/dashahan/releases/download/v"@ + latest + "/"@ + asset
}

/// Plans the self-update from `local` to `latest`.
pub fn plan_dash_update(local: &str, latest: &str, embedded_node: bool) -> (u: DashUpdate)
    ensures
        local@ == latest@ ==> (u matches DashUpdate::Current(m) && m@ == "DASH 已是最新版本 v"@
            + latest@),
        local@ != latest@ ==> (u matches DashUpdate::Fetch { asset, url, work_dir, backup_name }
            && asset@ == asset_spec(embedded_node) && url@ == release_url_spec(
            latest@,
            asset_spec(embedded_node),
        ) && work_dir@ == "dash-update-"@ + latest@ && backup_name@ == "DASH-app-"@ + local@),
{
    if str_eq(local, latest) {
        return DashUpdate::Current(concat2("DASH 已是最新版本 v", latest));
    }
    let asset = if embedded_node {
        String::from_str("DASH-macOS-full.zip")
    } else {
        String::from_str("DASH-macOS-lite.zip")
    };
    let mut url = concat3("https://github.com/zzpwestlife/dashahan/releases/download/v", latest, "/");
    url.append(asset.as_str());
    DashUpdate::Fetch {
        asset,
        url,
        work_dir: concat2("dash-update-", latest),
        backup_name: concat2("DASH-app-", local),
    }
}

/// Whether the unpacked app has its executable (under either name).
pub fn unpacked_app_ok(has_dashahan_bin: bool, has_dash_bin: bool) -> (ok: bool)
    ensures
        ok == (has_dashahan_bin || has_dash_bin),
{
    has_dashahan_bin || has_dash_bin
}

// ---------------------------------------------------------------- menu

/// Text of the dsh update item: the offer when a newer version is known.
pub open spec fn dsh_item_spec(latest: Option<Seq<char>>) -> Seq<char> {
    match latest {
        Some(v) => "升级 dsh 到 v"@ + v,
        None => "检查 dsh 更新"@,
    }
}

/// Text of the DASH update item: the offer when a newer version is known.
pub open spec fn dash_item_spec(latest: Option<Seq<char>>) -> Seq<char> {
    match latest {
        Some(v) => "更新 DASH 到 v"@ + v,
        None => "检查 DASH 更新"@,
    }
}

pub open spec fn opt_view(o: Option<String>) -> Option<Seq<char>> {
    match o {
        Some(s) => Some(s@),
        None => None,
    }
}

/// Menu text of the dsh update item.
pub fn dsh_item_text(latest: &Option<String>) -> (t: String)
    ensures
        t@ == dsh_item_spec(opt_view(*latest)),
{
    match latest {
        Some(v) => concat2("升级 dsh 到 v", v.as_str()),
        None => String::from_str("检查 dsh 更新"),
    }
}

/// Menu text of the DASH update item.
pub fn dash_item_text(latest: &Option<String>) -> (t: String)
    ensures
        t@ == dash_item_spec(opt_view(*latest)),
{
    match latest {
        Some(v) => concat2("更新 DASH 到 v", v.as_str()),
        None => String::from_str("检查 DASH 更新"),
    }
}

/// Question asked before upgrading dsh to `v`.
pub fn dsh_upgrade_question(v: &str) -> (q: String)
    ensures
        q@ == "升级 dsh 到 v"@ + v@ + "?\n(将自动备份当前版本, 失败可回滚)"@,
{
    concat3("升级 dsh 到 v", v, "?\n(将自动备份当前版本, 失败可回滚)")
}

/// Question asked before updating DASH to `v`.
pub fn dash_update_question(v: &str) -> (q: String)
    ensures
        q@ == "更新 DASH 到 v"@ + v@ + "?\n(将自动下载替换并重启, 失败自动恢复)"@,
{
    concat3("更新 DASH 到 v", v, "?\n(将自动下载替换并重启, 失败自动恢复)")
}

/// Text of the notification sent when the background check finds a new dsh.
pub fn dsh_found_text(v: &str) -> (t: String)
    ensures
        t@ == "v"@ + v@ + " 可用, 点菜单「升级 dsh」一键升级"@,
{
    concat3("v", v, " 可用, 点菜单「升级 dsh」一键升级")
}

/// Text of the notification sent when the background check finds a new DASH.
pub fn dash_found_text(v: &str) -> (t: String)
    ensures
        t@ == "v"@ + v@ + " 可用, 点菜单「更新 DASH」一键更新"@,
{
    concat3("v", v, " 可用, 点菜单「更新 DASH」一键更新")
}

// ---------------------------------------------------------------- offers

/// What a menu update item does next.
pub enum OfferAction {
    /// Ask the user to confirm the update to this version.
    Confirm(String),
    /// No newer version known yet: check for one, then decide again with the
    /// result.
    Check,
    /// The check found nothing newer: tell the user the version is current.
    UpToDate,
}

/// [`OfferAction`] with its text as characters.
pub enum OfferView {
    Confirm(Seq<char>),
    Check,
    UpToDate,
}

impl View for OfferAction {
    type V = OfferView;

    open spec fn view(&self) -> OfferView {
        match self {
            OfferAction::Confirm(v) => OfferView::Confirm(v@),
            OfferAction::Check => OfferView::Check,
            OfferAction::UpToDate => OfferView::UpToDate,
        }
    }
}

/// The update item's decision: a newer version already known (from the
/// background check) is offered at once, without checking again; otherwise a
/// check is made first (`checked` is its outcome once made) and its newer
/// version offered, or "up to date" reported.
pub open spec fn offer_spec(cached: Option<Seq<char>>, checked: Option<Option<Seq<char>>>) -> OfferView {
    match cached {
        Some(v) => OfferView::Confirm(v),
        None => match checked {
            None => OfferView::Check,
            Some(Some(v)) => OfferView::Confirm(v),
            Some(None) => OfferView::UpToDate,
        },
    }
}

/// Decides what the "check / update" menu item does next.
pub fn offer_step(cached: Option<String>, checked: Option<Option<String>>) -> (a: OfferAction)
    ensures
        a@ == offer_spec(
            match cached {
                Some(v) => Some(v@),
                None => None,
            },
            match checked {
                Some(Some(v)) => Some(Some(v@)),
                Some(None) => Some(None),
                None => None,
            },
        ),
{
    match cached {
        Some(v) => OfferAction::Confirm(v),
        None => match checked {
            None => OfferAction::Check,
            Some(Some(v)) => OfferAction::Confirm(v),
            Some(None) => OfferAction::UpToDate,
        },
    }
}

} // verus!
