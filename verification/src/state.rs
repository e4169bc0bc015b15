//! Shared flags of the running app: the one-shot self-heal, the single quit
//! confirmation, the graceful stop of dsh web, and the menu's commands.
use vstd::prelude::*;
use crate::text::str_eq;

verus! {

/// Number of 100 ms waits for dsh web to exit after SIGTERM before SIGKILL.
pub const TERM_WAIT_ROUNDS: u32 = 20;

/// Self-heal after a plugin load failure: allowed once per run, so a page
/// that keeps failing cannot loop.
pub struct HealGate {
    pub count: u8,
}

impl HealGate {
    pub fn new() -> (g: HealGate)
        ensures
            g.count == 0,
    {
        HealGate { count: 0 }
    }

    /// Claims the self-heal: true the first time only (count 0 becomes 1).
    pub fn try_heal(&mut self) -> (allowed: bool)
        ensures
            (allowed, final(self).count) == heal_claim(old(self).count),
    {
        if self.count == 0 {
            self.count = 1;
            true
        } else {
            false
        }
    }
}

/// A self-heal claim on the count: allowed when it is 0, which becomes 1.
pub open spec fn heal_claim(count: u8) -> (bool, u8) {
    if count == 0 {
        (true, 1)
    } else {
        (false, count)
    }
}

/// At most once per run: after any claim the count is no longer 0, and a
/// claim on a count that is not 0 is refused and changes nothing.
pub proof fn heal_at_most_once(count: u8)
    ensures
        heal_claim(count).1 != 0,
        count != 0 ==> heal_claim(count) == (false, count),
{
}

/// The quit confirmation dialog: ⌘Q, the menu item and the tray item may all
/// ask for it; only one dialog is on screen at a time.
pub struct QuitGate {
    pub pending: bool,
}

impl QuitGate {
    pub fn new() -> (g: QuitGate)
        ensures
            !g.pending,
    {
        QuitGate { pending: false }
    }

    /// Claims the dialog: true when none is showing (and marks one showing).
    pub fn try_open(&mut self) -> (open: bool)
        ensures
            (open, final(self).pending) == quit_claim(old(self).pending),
    {
        if self.pending {
            false
        } else {
            self.pending = true;
            true
        }
    }

    /// The user cancelled: a later request may show the dialog again. (On
    /// confirmation the flag stays set while the app exits.)
    pub fn cancelled(&mut self)
        ensures
            !final(self).pending,
    {
        self.pending = false;
    }
}

/// A request for the dialog: granted when none is pending; pending after.
pub open spec fn quit_claim(pending: bool) -> (bool, bool) {
    (!pending, true)
}

/// One dialog at a time: after any request the dialog is pending, and every
/// further request is turned away (changing nothing) until a cancellation.
pub proof fn one_quit_dialog(pending: bool)
    ensures
        quit_claim(pending).1,
        quit_claim(quit_claim(pending).1) == (false, true),
{
}

/// What to do while stopping dsh web gracefully.
#[derive(PartialEq, Eq, Structural, Debug, Clone, Copy)]
pub enum StopStep {
    /// The child has exited: reap it.
    Reap,
    /// Wait 100 ms and look again.
    Wait,
    /// Still running after all rounds: SIGKILL, then reap.
    Kill,
}

/// The decision after `round` waits since SIGTERM.
pub open spec fn stop_step_spec(exited: bool, round: u32) -> StopStep {
    if exited {
        StopStep::Reap
    } else if round < TERM_WAIT_ROUNDS {
        StopStep::Wait
    } else {
        StopStep::Kill
    }
}

/// Decides one round of the graceful stop of dsh web.
pub fn stop_step(exited: bool, round: u32) -> (s: StopStep)
    ensures
        s == stop_step_spec(exited, round),
{
    if exited {
        StopStep::Reap
    } else if round < TERM_WAIT_ROUNDS {
        StopStep::Wait
    } else {
        StopStep::Kill
    }
}

/// The menu's commands.
#[derive(PartialEq, Eq, Structural, Debug, Clone, Copy)]
pub enum MenuCommand {
    /// "重装 dsh": reinstall the pinned dsh, then start again.
    Reinstall,
    /// "检查 dsh 更新" / "升级 dsh 到 vX".
    DshUpdate,
    /// "检查 DASH 更新" / "更新 DASH 到 vX".
    DashUpdate,
    /// "设置 API Key".
    SetApiKey,
    /// "对话完成通知" switch.
    ToggleNotify,
    /// "打开日志目录".
    OpenLogs,
    /// "清空对话历史".
    ResetConversations,
    /// "退出 大傻憨" (and ⌘Q).
    Quit,
}

/// The command of the menu item with identifier `id`.
pub open spec fn menu_command_spec(id: Seq<char>) -> Option<MenuCommand> {
    if id == "update-dsh"@ {
        Some(MenuCommand::Reinstall)
    } else if id == "check-dsh-update"@ {
        Some(MenuCommand::DshUpdate)
    } else if id == "check-dash-update"@ {
        Some(MenuCommand::DashUpdate)
    } else if id == "set-api-key"@ {
        Some(MenuCommand::SetApiKey)
    } else if id == "notify-toggle"@ {
        Some(MenuCommand::ToggleNotify)
    } else if id == "open-logs"@ {
        Some(MenuCommand::OpenLogs)
    } else if id == "reset-conversations"@ {
        Some(MenuCommand::ResetConversations)
    } else if id == "quit-app"@ {
        Some(MenuCommand::Quit)
    } else {
        None
    }
}

/// Maps a menu event's item identifier to its command.
pub fn menu_command(id: &str) -> (c: Option<MenuCommand>)
    ensures
        c == menu_command_spec(id@),
{
    if str_eq(id, "update-dsh") {
        Some(MenuCommand::Reinstall)
    } else if str_eq(id, "check-dsh-update") {
        Some(MenuCommand::DshUpdate)
    } else if str_eq(id, "check-dash-update") {
        Some(MenuCommand::DashUpdate)
    } else if str_eq(id, "set-api-key") {
        Some(MenuCommand::SetApiKey)
    } else if str_eq(id, "notify-toggle") {
        Some(MenuCommand::ToggleNotify)
    } else if str_eq(id, "open-logs") {
        Some(MenuCommand::OpenLogs)
    } else if str_eq(id, "reset-conversations") {
        Some(MenuCommand::ResetConversations)
    } else if str_eq(id, "quit-app") {
        Some(MenuCommand::Quit)
    } else {
        None
    }
}

} // verus!
