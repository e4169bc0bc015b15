//! The start-up sequence of the shell as a state machine: install dsh when
//! missing (or reinstall on request), back up the settings, ask once for an
//! API key, launch dsh web with one automatic retry, and load the page.
//! The caller performs each action and feeds back what came of it.
use vstd::prelude::*;

verus! {

/// Where start-up stands.
pub enum BootStage {
    /// Nothing done yet; `reinstall` when started from the menu's "重装 dsh".
    Start { reinstall: bool },
    ReinstallAnnounced,
    Reinstalling,
    ChildStopped,
    CheckAnnounced,
    CheckingInstall,
    InstallAnnounced,
    Installing,
    BackingUp,
    BackupLogged,
    CheckingKey,
    PromptAnnounced,
    Prompting,
    KeyHandled,
    LaunchAnnounced,
    FirstLaunch,
    /// The first launch failed with this message.
    FirstFailed(String),
    RetryStopped(String),
    RetryPaused(String),
    RetryAnnounced(String),
    /// The retry is running; the first failure's message is kept.
    SecondLaunch(String),
    /// The retry succeeded on this URL.
    Relaunched(String),
    /// The page was loaded; dsh web runs.
    Running,
    /// Start-up ended with an error shown to the user.
    Failed,
}

/// What came of the last action.
pub enum BootEvent {
    /// The action was carried out; it has no outcome to report.
    Ack,
    /// Whether the dsh entry point is installed.
    Installed(bool),
    /// Outcome of an install or of the settings backup.
    Finished(Result<(), String>),
    /// Whether a key is stored in the keychain, and whether the dialog was
    /// skipped before.
    Key { stored: bool, asked: bool },
    /// The key typed into the dialog, or nothing when it was cancelled.
    Answer(Option<String>),
    /// Outcome of a launch: the URL, or an error message.
    Launched(Result<String, String>),
    /// Loading the page failed with this message.
    NavigateFailed(String),
}

/// What the caller does next.
pub enum BootAction {
    /// Stop a running dsh web.
    KillChild,
    /// Show a progress message on the start page.
    Progress(String),
    /// Report whether dsh is installed (`Installed`).
    CheckInstalled,
    /// Run `npm install` of the pinned dsh version (`Finished`).
    Install,
    /// Back up the settings (`Finished`).
    Backup,
    /// Append a line to the boot log.
    Log(String),
    /// Report the key status (`Key`).
    CheckKey,
    /// Show the API-key dialog (`Answer`).
    PromptKey,
    /// Store this key in the keychain.
    SaveKey(String),
    /// Record in config.json that the dialog was skipped.
    MarkKeyAsked,
    /// Launch dsh web (`Launched`).
    Launch,
    /// Wait two seconds.
    Pause,
    /// Load this URL in the main window.
    Navigate(String),
    /// Show this start-up error.
    Fail(String),
    /// Nothing to do: the event does not fit the stage, or start-up is over.
    Idle,
}

/// [`BootStage`] with its texts as characters.
pub enum StageView {
    Start { reinstall: bool },
    ReinstallAnnounced,
    Reinstalling,
    ChildStopped,
    CheckAnnounced,
    CheckingInstall,
    InstallAnnounced,
    Installing,
    BackingUp,
    BackupLogged,
    CheckingKey,
    PromptAnnounced,
    Prompting,
    KeyHandled,
    LaunchAnnounced,
    FirstLaunch,
    FirstFailed(Seq<char>),
    RetryStopped(Seq<char>),
    RetryPaused(Seq<char>),
    RetryAnnounced(Seq<char>),
    SecondLaunch(Seq<char>),
    Relaunched(Seq<char>),
    Running,
    Failed,
}

/// [`BootEvent`] with its texts as characters.
pub enum EventView {
    Ack,
    Installed(bool),
    Finished(Result<(), Seq<char>>),
    Key { stored: bool, asked: bool },
    Answer(Option<Seq<char>>),
    Launched(Result<Seq<char>, Seq<char>>),
    NavigateFailed(Seq<char>),
}

/// [`BootAction`] with its texts as characters.
pub enum ActionView {
    KillChild,
    Progress(Seq<char>),
    CheckInstalled,
    Install,
    Backup,
    Log(Seq<char>),
    CheckKey,
    PromptKey,
    SaveKey(Seq<char>),
    MarkKeyAsked,
    Launch,
    Pause,
    Navigate(Seq<char>),
    Fail(Seq<char>),
    Idle,
}

impl View for BootStage {
    type V = StageView;

    open spec fn view(&self) -> StageView {
        match self {
            BootStage::Start { reinstall } => StageView::Start { reinstall: *reinstall },
            BootStage::ReinstallAnnounced => StageView::ReinstallAnnounced,
            BootStage::Reinstalling => StageView::Reinstalling,
            BootStage::ChildStopped => StageView::ChildStopped,
            BootStage::CheckAnnounced => StageView::CheckAnnounced,
            BootStage::CheckingInstall => StageView::CheckingInstall,
            BootStage::InstallAnnounced => StageView::InstallAnnounced,
            BootStage::Installing => StageView::Installing,
            BootStage::BackingUp => StageView::BackingUp,
            BootStage::BackupLogged => StageView::BackupLogged,
            BootStage::CheckingKey => StageView::CheckingKey,
            BootStage::PromptAnnounced => StageView::PromptAnnounced,
            BootStage::Prompting => StageView::Prompting,
            BootStage::KeyHandled => StageView::KeyHandled,
            BootStage::LaunchAnnounced => StageView::LaunchAnnounced,
            BootStage::FirstLaunch => StageView::FirstLaunch,
            BootStage::FirstFailed(e) => StageView::FirstFailed(e@),
            BootStage::RetryStopped(e) => StageView::RetryStopped(e@),
            BootStage::RetryPaused(e) => StageView::RetryPaused(e@),
            BootStage::RetryAnnounced(e) => StageView::RetryAnnounced(e@),
            BootStage::SecondLaunch(e) => StageView::SecondLaunch(e@),
            BootStage::Relaunched(u) => StageView::Relaunched(u@),
            BootStage::Running => StageView::Running,
            BootStage::Failed => StageView::Failed,
        }
    }
}

impl View for BootEvent {
    type V = EventView;

    open spec fn view(&self) -> EventView {
        match self {
            BootEvent::Ack => EventView::Ack,
            BootEvent::Installed(b) => EventView::Installed(*b),
            BootEvent::Finished(r) => EventView::Finished(
                match r {
                    Ok(()) => Ok(()),
                    Err(e) => Err(e@),
                },
            ),
            BootEvent::Key { stored, asked } => EventView::Key { stored: *stored, asked: *asked },
            BootEvent::Answer(a) => EventView::Answer(
                match a {
                    Some(k) => Some(k@),
                    None => None,
                },
            ),
            BootEvent::Launched(r) => EventView::Launched(
                match r {
                    Ok(u) => Ok(u@),
                    Err(e) => Err(e@),
                },
            ),
            BootEvent::NavigateFailed(e) => EventView::NavigateFailed(e@),
        }
    }
}

impl View for BootAction {
    type V = ActionView;

    open spec fn view(&self) -> ActionView {
        match self {
            BootAction::KillChild => ActionView::KillChild,
            BootAction::Progress(m) => ActionView::Progress(m@),
            BootAction::CheckInstalled => ActionView::CheckInstalled,
            BootAction::Install => ActionView::Install,
            BootAction::Backup => ActionView::Backup,
            BootAction::Log(m) => ActionView::Log(m@),
            BootAction::CheckKey => ActionView::CheckKey,
            BootAction::PromptKey => ActionView::PromptKey,
            BootAction::SaveKey(k) => ActionView::SaveKey(k@),
            BootAction::MarkKeyAsked => ActionView::MarkKeyAsked,
            BootAction::Launch => ActionView::Launch,
            BootAction::Pause => ActionView::Pause,
            BootAction::Navigate(u) => ActionView::Navigate(u@),
            BootAction::Fail(m) => ActionView::Fail(m@),
            BootAction::Idle => ActionView::Idle,
        }
    }
}

/// The start-up protocol: next stage and action for a stage and an event.
/// An event that does not fit the stage changes nothing.
pub open spec fn boot_next(s: StageView, e: EventView) -> (StageView, ActionView) {
    match (s, e) {
        (StageView::Start { reinstall }, EventView::Ack) => if reinstall {
            (StageView::ReinstallAnnounced, ActionView::Progress("正在更新 dsh…"@))
        } else {
            (StageView::ChildStopped, ActionView::KillChild)
        },
        (StageView::ReinstallAnnounced, EventView::Ack) => (
            StageView::Reinstalling,
            ActionView::Install,
        ),
        (StageView::Reinstalling, EventView::Finished(Ok(()))) => (
            StageView::ChildStopped,
            ActionView::KillChild,
        ),
        (StageView::Reinstalling, EventView::Finished(Err(m))) => (
            StageView::Failed,
            ActionView::Fail("更新失败: "@ + m),
        ),
        (StageView::ChildStopped, EventView::Ack) => (
            StageView::CheckAnnounced,
            ActionView::Progress("正在检查运行环境…"@),
        ),
        (StageView::CheckAnnounced, EventView::Ack) => (
            StageView::CheckingInstall,
            ActionView::CheckInstalled,
        ),
        (StageView::CheckingInstall, EventView::Installed(true)) => (
            StageView::BackingUp,
            ActionView::Backup,
        ),
        (StageView::CheckingInstall, EventView::Installed(false)) => (
            StageView::InstallAnnounced,
            ActionView::Progress("首次运行, 正在安装 dsh (约 1~3 分钟)…"@),
        ),
        (StageView::InstallAnnounced, EventView::Ack) => (StageView::Installing, ActionView::Install),
        (StageView::Installing, EventView::Finished(Ok(()))) => (
            StageView::BackingUp,
            ActionView::Backup,
        ),
        (StageView::Installing, EventView::Finished(Err(m))) => (
            StageView::Failed,
            ActionView::Fail("安装失败, 请检查网络后重试.\n"@ + m),
        ),
        (StageView::BackingUp, EventView::Finished(Ok(()))) => (
            StageView::CheckingKey,
            ActionView::CheckKey,
        ),
        (StageView::BackingUp, EventView::Finished(Err(m))) => (
            StageView::BackupLogged,
            ActionView::Log("backup 失败: "@ + m),
        ),
        (StageView::BackupLogged, EventView::Ack) => (StageView::CheckingKey, ActionView::CheckKey),
        (StageView::CheckingKey, EventView::Key { stored, asked }) => if !stored && !asked {
            (StageView::PromptAnnounced, ActionView::Progress("请输入 API Key（可跳过）…"@))
        } else {
            (StageView::LaunchAnnounced, ActionView::Progress("正在启动本地服务…"@))
        },
        (StageView::PromptAnnounced, EventView::Ack) => (
            StageView::Prompting,
            ActionView::PromptKey,
        ),
        (StageView::Prompting, EventView::Answer(Some(k))) => (
            StageView::KeyHandled,
            ActionView::SaveKey(k),
        ),
        (StageView::Prompting, EventView::Answer(None)) => (
            StageView::KeyHandled,
            ActionView::MarkKeyAsked,
        ),
        (StageView::KeyHandled, EventView::Ack) => (
            StageView::LaunchAnnounced,
            ActionView::Progress("正在启动本地服务…"@),
        ),
        (StageView::LaunchAnnounced, EventView::Ack) => (StageView::FirstLaunch, ActionView::Launch),
        (StageView::FirstLaunch, EventView::Launched(Ok(url))) => (
            StageView::Running,
            ActionView::Navigate(url),
        ),
        (StageView::FirstLaunch, EventView::Launched(Err(m))) => (
            StageView::FirstFailed(m),
            ActionView::Log("首次启动异常: "@ + m),
        ),
        (StageView::FirstFailed(m), EventView::Ack) => (
            StageView::RetryStopped(m),
            ActionView::KillChild,
        ),
        (StageView::RetryStopped(m), EventView::Ack) => (
            StageView::RetryPaused(m),
            ActionView::Pause,
        ),
        (StageView::RetryPaused(m), EventView::Ack) => (
            StageView::RetryAnnounced(m),
            ActionView::Progress("服务启动异常, 自动重试…"@),
        ),
        (StageView::RetryAnnounced(m), EventView::Ack) => (
            StageView::SecondLaunch(m),
            ActionView::Launch,
        ),
        (StageView::SecondLaunch(first), EventView::Launched(Ok(url))) => (
            StageView::Relaunched(url),
            ActionView::Log("重试后启动成功"@),
        ),
        (StageView::SecondLaunch(first), EventView::Launched(Err(second))) => (
            StageView::Failed,
            ActionView::Fail("服务启动失败.\n首次: "@ + first + "\n重试: "@ + second),
        ),
        (StageView::Relaunched(url), EventView::Ack) => (
            StageView::Running,
            ActionView::Navigate(url),
        ),
        (StageView::Running, EventView::NavigateFailed(m)) => (
            StageView::Failed,
            ActionView::Fail("页面加载失败: "@ + m),
        ),
        _ => (s, ActionView::Idle),
    }
}

fn text(parts: &str, tail: &str) -> (s: String)
    ensures
        s@ == parts@ + tail@,
{
    let mut s = String::from_str(parts);
    s.append(tail);
    s
}

impl BootStage {
    /// The stage before anything was done.
    pub fn start(reinstall: bool) -> (s: BootStage)
        ensures
            s@ == (StageView::Start { reinstall }),
    {
        BootStage::Start { reinstall }
    }

    /// Whether start-up is over (page loaded or error shown).
    pub fn is_over(&self) -> (r: bool)
        ensures
            r == (self@ is Running || self@ is Failed),
    {
        match self {
            BootStage::Running | BootStage::Failed => true,
            _ => false,
        }
    }
}

/// Advances start-up by one event.
pub fn boot_step(stage: BootStage, event: BootEvent) -> (r: (BootStage, BootAction))
    ensures
        (r.0@, r.1@) == boot_next(stage@, event@),
{
    match (stage, event) {
        (BootStage::Start { reinstall }, BootEvent::Ack) => {
            if reinstall {
                (BootStage::ReinstallAnnounced, BootAction::Progress(String::from_str("正在更新 dsh…")))
            } else {
                (BootStage::ChildStopped, BootAction::KillChild)
            }
        },
        (BootStage::ReinstallAnnounced, BootEvent::Ack) => (BootStage::Reinstalling, BootAction::Install),
        (BootStage::Reinstalling, BootEvent::Finished(Ok(()))) => (
            BootStage::ChildStopped,
            BootAction::KillChild,
        ),
        (BootStage::Reinstalling, BootEvent::Finished(Err(m))) => (
            BootStage::Failed,
            BootAction::Fail(text("更新失败: ", m.as_str())),
        ),
        (BootStage::ChildStopped, BootEvent::Ack) => (
            BootStage::CheckAnnounced,
            BootAction::Progress(String::from_str("正在检查运行环境…")),
        ),
        (BootStage::CheckAnnounced, BootEvent::Ack) => (
            BootStage::CheckingInstall,
            BootAction::CheckInstalled,
        ),
        (BootStage::CheckingInstall, BootEvent::Installed(installed)) => {
            if installed {
                (BootStage::BackingUp, BootAction::Backup)
            } else {
                (
                    BootStage::InstallAnnounced,
                    BootAction::Progress(String::from_str("首次运行, 正在安装 dsh (约 1~3 分钟)…")),
                )
            }
        },
        (BootStage::InstallAnnounced, BootEvent::Ack) => (BootStage::Installing, BootAction::Install),
        (BootStage::Installing, BootEvent::Finished(Ok(()))) => (BootStage::BackingUp, BootAction::Backup),
        (BootStage::Installing, BootEvent::Finished(Err(m))) => (
            BootStage::Failed,
            BootAction::Fail(text("安装失败, 请检查网络后重试.\n", m.as_str())),
        ),
        (BootStage::BackingUp, BootEvent::Finished(Ok(()))) => (BootStage::CheckingKey, BootAction::CheckKey),
        (BootStage::BackingUp, BootEvent::Finished(Err(m))) => (
            BootStage::BackupLogged,
            BootAction::Log(text("backup 失败: ", m.as_str())),
        ),
        (BootStage::BackupLogged, BootEvent::Ack) => (BootStage::CheckingKey, BootAction::CheckKey),
        (BootStage::CheckingKey, BootEvent::Key { stored, asked }) => {
            if !stored && !asked {
                (
                    BootStage::PromptAnnounced,
                    BootAction::Progress(String::from_str("请输入 API Key（可跳过）…")),
                )
            } else {
                (
                    BootStage::LaunchAnnounced,
                    BootAction::Progress(String::from_str("正在启动本地服务…")),
                )
            }
        },
        (BootStage::PromptAnnounced, BootEvent::Ack) => (BootStage::Prompting, BootAction::PromptKey),
        (BootStage::Prompting, BootEvent::Answer(Some(k))) => (
            BootStage::KeyHandled,
            BootAction::SaveKey(k),
        ),
        (BootStage::Prompting, BootEvent::Answer(None)) => (
            BootStage::KeyHandled,
            BootAction::MarkKeyAsked,
        ),
        (BootStage::KeyHandled, BootEvent::Ack) => (
            BootStage::LaunchAnnounced,
            BootAction::Progress(String::from_str("正在启动本地服务…")),
        ),
        (BootStage::LaunchAnnounced, BootEvent::Ack) => (BootStage::FirstLaunch, BootAction::Launch),
        (BootStage::FirstLaunch, BootEvent::Launched(Ok(url))) => (
            BootStage::Running,
            BootAction::Navigate(url),
        ),
        (BootStage::FirstLaunch, BootEvent::Launched(Err(m))) => {
            let line = text("首次启动异常: ", m.as_str());
            (BootStage::FirstFailed(m), BootAction::Log(line))
        },
        (BootStage::FirstFailed(m), BootEvent::Ack) => (BootStage::RetryStopped(m), BootAction::KillChild),
        (BootStage::RetryStopped(m), BootEvent::Ack) => (BootStage::RetryPaused(m), BootAction::Pause),
        (BootStage::RetryPaused(m), BootEvent::Ack) => (
            BootStage::RetryAnnounced(m),
            BootAction::Progress(String::from_str("服务启动异常, 自动重试…")),
        ),
        (BootStage::RetryAnnounced(m), BootEvent::Ack) => (BootStage::SecondLaunch(m), BootAction::Launch),
        (BootStage::SecondLaunch(_first), BootEvent::Launched(Ok(url))) => (
            BootStage::Relaunched(url),
            BootAction::Log(String::from_str("重试后启动成功")),
        ),
        (BootStage::SecondLaunch(first), BootEvent::Launched(Err(second))) => {
            let mut msg = String::from_str("服务启动失败.\n首次: ");
            msg.append(first.as_str());
            msg.append("\n重试: ");
            msg.append(second.as_str());
            (BootStage::Failed, BootAction::Fail(msg))
        },
        (BootStage::Relaunched(url), BootEvent::Ack) => (BootStage::Running, BootAction::Navigate(url)),
        (BootStage::Running, BootEvent::NavigateFailed(m)) => (
            BootStage::Failed,
            BootAction::Fail(text("页面加载失败: ", m.as_str())),
        ),
        (s, _) => (s, BootAction::Idle),
    }
}

/// Start-up that ended stays ended: once it failed, no event leads to
/// another action.
pub proof fn failure_is_final(e: EventView)
    ensures
        boot_next(StageView::Failed, e) == (StageView::Failed, ActionView::Idle),
{
}

/// One retry only: when the retried launch fails too, start-up fails with
/// both messages and launches nothing more.
pub proof fn second_launch_failure_ends(first: Seq<char>, second: Seq<char>)
    ensures
        boot_next(StageView::SecondLaunch(first), EventView::Launched(Err(second))) == (
        StageView::Failed,
        ActionView::Fail("服务启动失败.\n首次: "@ + first + "\n重试: "@ + second),
        ),
{
}

/// The API-key dialog is shown only when no key is stored and the dialog was
/// never skipped.
pub proof fn key_prompt_only_when_needed(stored: bool, asked: bool)
    ensures
        boot_next(StageView::CheckingKey, EventView::Key { stored, asked }).0
            == StageView::PromptAnnounced <==> !stored && !asked,
{
}

/// A failed install ends start-up with its message: dsh is not launched.
pub proof fn install_failure_stops_boot(m: Seq<char>)
    ensures
        boot_next(StageView::Installing, EventView::Finished(Err(m))) == (
        StageView::Failed,
        ActionView::Fail("安装失败, 请检查网络后重试.\n"@ + m),
        ),
{
}


/// Launches start-up may still make from a stage.
pub open spec fn launches_left(s: StageView) -> nat {
    match s {
        StageView::FirstLaunch | StageView::FirstFailed(_) | StageView::RetryStopped(_)
        | StageView::RetryPaused(_) | StageView::RetryAnnounced(_) => 1,
        StageView::SecondLaunch(_) | StageView::Relaunched(_) | StageView::Running
        | StageView::Failed => 0,
        _ => 2,
    }
}

/// At most two launches per start-up (the first and one retry): a step that
/// launches uses up one of the launches left, and no step adds any.
pub proof fn at_most_two_launches(s: StageView, e: EventView)
    ensures
        boot_next(s, e).1 is Launch ==> launches_left(s) >= 1 && launches_left(boot_next(s, e).0)
            == launches_left(s) - 1,
        launches_left(boot_next(s, e).0) <= launches_left(s),
{
}

/// A first failed launch is retried, not reported: start-up goes on to stop
/// the child, wait and launch again.
pub proof fn first_launch_failure_retries(m: Seq<char>)
    ensures
        boot_next(StageView::FirstLaunch, EventView::Launched(Err(m))) == (
        StageView::FirstFailed(m),
        ActionView::Log("首次启动异常: "@ + m),
        ),
        boot_next(StageView::FirstFailed(m), EventView::Ack).1 == ActionView::KillChild,
        boot_next(StageView::RetryStopped(m), EventView::Ack).1 == ActionView::Pause,
        boot_next(StageView::RetryAnnounced(m), EventView::Ack).1 == ActionView::Launch,
{
}

/// What start-up does once the key status is known: with no key stored and
/// the dialog never skipped it announces the dialog; in every other case it
/// goes on to launch, without any dialog.
pub proof fn key_check_outcome(stored: bool, asked: bool)
    ensures
        boot_next(StageView::CheckingKey, EventView::Key { stored, asked }) == if !stored && !asked {
            (StageView::PromptAnnounced, ActionView::Progress("请输入 API Key（可跳过）…"@))
        } else {
            (StageView::LaunchAnnounced, ActionView::Progress("正在启动本地服务…"@))
        },
{
}

/// The dialog is reached only through a key check that found no key and no
/// earlier skip: the dialog is shown only from the stage that announced it,
/// and that stage is entered only from the key check with
/// `Key { stored: false, asked: false }`; no step from the key check shows
/// the dialog directly.
pub proof fn dialog_only_after_needed_check(s: StageView, e: EventView)
    ensures
        boot_next(s, e).1 is PromptKey ==> s is PromptAnnounced && e is Ack,
        boot_next(s, e).0 is Prompting && !(s is Prompting) ==> s is PromptAnnounced,
        boot_next(s, e).0 is PromptAnnounced && !(s is PromptAnnounced) ==> s is CheckingKey && e
            == (EventView::Key { stored: false, asked: false }),
        s is CheckingKey ==> !(boot_next(s, e).1 is PromptKey) && !(boot_next(s, e).0 is Prompting),
{
}

/// A normal start-up with dsh installed: stop a stale dsh, announce the
/// check, check the install, back up, check the key, announce and launch,
/// then load the page of the launched dsh web.
pub proof fn boot_in_order(url: Seq<char>)
    ensures
        boot_next(StageView::Start { reinstall: false }, EventView::Ack) == (
            StageView::ChildStopped,
            ActionView::KillChild,
        ),
        boot_next(StageView::ChildStopped, EventView::Ack) == (
            StageView::CheckAnnounced,
            ActionView::Progress("正在检查运行环境…"@),
        ),
        boot_next(StageView::CheckAnnounced, EventView::Ack) == (
            StageView::CheckingInstall,
            ActionView::CheckInstalled,
        ),
        boot_next(StageView::CheckingInstall, EventView::Installed(true)) == (
            StageView::BackingUp,
            ActionView::Backup,
        ),
        boot_next(StageView::BackingUp, EventView::Finished(Ok(()))) == (
            StageView::CheckingKey,
            ActionView::CheckKey,
        ),
        boot_next(StageView::LaunchAnnounced, EventView::Ack) == (
            StageView::FirstLaunch,
            ActionView::Launch,
        ),
        boot_next(StageView::FirstLaunch, EventView::Launched(Ok(url))) == (
            StageView::Running,
            ActionView::Navigate(url),
        ),
{
}

/// dsh is installed before it is used: a missing dsh is announced and
/// installed, and only a finished install goes on to the backup; a reinstall
/// from the menu announces and installs first, then runs the normal start-up,
/// and a failed reinstall ends start-up with its error.
pub proof fn install_before_launch(m: Seq<char>)
    ensures
        boot_next(StageView::CheckingInstall, EventView::Installed(false)) == (
            StageView::InstallAnnounced,
            ActionView::Progress("首次运行, 正在安装 dsh (约 1~3 分钟)…"@),
        ),
        boot_next(StageView::InstallAnnounced, EventView::Ack) == (
            StageView::Installing,
            ActionView::Install,
        ),
        boot_next(StageView::Installing, EventView::Finished(Ok(()))) == (
            StageView::BackingUp,
            ActionView::Backup,
        ),
        boot_next(StageView::Start { reinstall: true }, EventView::Ack) == (
            StageView::ReinstallAnnounced,
            ActionView::Progress("正在更新 dsh…"@),
        ),
        boot_next(StageView::ReinstallAnnounced, EventView::Ack) == (
            StageView::Reinstalling,
            ActionView::Install,
        ),
        boot_next(StageView::Reinstalling, EventView::Finished(Ok(()))) == (
            StageView::ChildStopped,
            ActionView::KillChild,
        ),
        boot_next(StageView::Reinstalling, EventView::Finished(Err(m))) == (
            StageView::Failed,
            ActionView::Fail("更新失败: "@ + m),
        ),
{
}

/// A failed backup is logged and start-up goes on; the dialog's answer is
/// saved to the keychain, or its cancellation recorded, before launching.
pub proof fn backup_and_key_handling(m: Seq<char>, k: Seq<char>)
    ensures
        boot_next(StageView::BackingUp, EventView::Finished(Err(m))) == (
            StageView::BackupLogged,
            ActionView::Log("backup 失败: "@ + m),
        ),
        boot_next(StageView::BackupLogged, EventView::Ack) == (
            StageView::CheckingKey,
            ActionView::CheckKey,
        ),
        boot_next(StageView::PromptAnnounced, EventView::Ack) == (
            StageView::Prompting,
            ActionView::PromptKey,
        ),
        boot_next(StageView::Prompting, EventView::Answer(Some(k))) == (
            StageView::KeyHandled,
            ActionView::SaveKey(k),
        ),
        boot_next(StageView::Prompting, EventView::Answer(None)) == (
            StageView::KeyHandled,
            ActionView::MarkKeyAsked,
        ),
        boot_next(StageView::KeyHandled, EventView::Ack) == (
            StageView::LaunchAnnounced,
            ActionView::Progress("正在启动本地服务…"@),
        ),
{
}

/// A retried launch that succeeds is logged, then its page is loaded; a
/// page that fails to load ends start-up with the error.
pub proof fn retry_success_and_page_failure(url: Seq<char>, first: Seq<char>, m: Seq<char>)
    ensures
        boot_next(StageView::RetryPaused(first), EventView::Ack) == (
            StageView::RetryAnnounced(first),
            ActionView::Progress("服务启动异常, 自动重试…"@),
        ),
        boot_next(StageView::SecondLaunch(first), EventView::Launched(Ok(url))) == (
            StageView::Relaunched(url),
            ActionView::Log("重试后启动成功"@),
        ),
        boot_next(StageView::Relaunched(url), EventView::Ack) == (
            StageView::Running,
            ActionView::Navigate(url),
        ),
        boot_next(StageView::Running, EventView::NavigateFailed(m)) == (
            StageView::Failed,
            ActionView::Fail("页面加载失败: "@ + m),
        ),
{
}

} // verus!
