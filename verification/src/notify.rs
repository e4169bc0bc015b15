//! Conversation notifications: where the event stream lives, which event
//! frames deserve a notification, the text shown, and when one may be sent
//! (switch on, window not in front, at most one per debounce window).
use vstd::prelude::*;
use crate::json::{as_str, get, json_get, json_get_opt, json_str, json_text, parse_json, Json};
use crate::text::{str_eq, starts_with};

verus! {

/// Minimum spacing between two notifications, in milliseconds.
pub const DEBOUNCE_MS: u64 = 10000;

// ---------------------------------------------------------------- target

/// Index of the first `c` in `s`, or the length of `s` when there is none.
pub open spec fn index_of_char(s: Seq<char>, c: char) -> int
    decreases s.len(),
{
    if s.len() == 0 {
        0
    } else if s[0] == c {
        0
    } else {
        1 + index_of_char(s.skip(1), c)
    }
}

proof fn lemma_index_of_char(s: Seq<char>, c: char, i: int)
    requires
        0 <= i <= s.len(),
        i == s.len() || s[i] == c,
        forall|j: int| 0 <= j < i ==> s[j] != c,
    ensures
        index_of_char(s, c) == i,
    decreases i,
{
    if i > 0 {
        lemma_index_of_char(s.skip(1), c, i - 1);
    }
}

/// "host:port" of a dsh web URL: the text after "http://" up to the first
/// '/', when that text is not empty.
pub open spec fn ws_target_spec(url: Seq<char>) -> Option<Seq<char>> {
    if url.len() >= 7 && url.take(7) == "http://"@ {
        let rest = url.skip(7);
        let host_port = rest.take(index_of_char(rest, '/'));
        if host_port.len() > 0 {
            Some(host_port)
        } else {
            None
        }
    } else {
        None
    }
}

/// Extracts "host:port" (the WebSocket handshake target) from the dsh web URL.
pub fn ws_target(dsh_url: &str) -> (r: Option<String>)
    ensures
        match r {
            Some(t) => ws_target_spec(dsh_url@) == Some(t@),
            None => ws_target_spec(dsh_url@) is None,
        },
{
    proof {
        reveal_strlit("http://");
    }
    if !starts_with(dsh_url, "http://") {
        return None;
    }
    let n = dsh_url.unicode_len();
    let rest = dsh_url.substring_char(7, n);
    let m = rest.unicode_len();
    let mut i: usize = 0;
    while i < m && rest.get_char(i) != '/'
        invariant
            m == rest@.len(),
            i <= m,
            forall|j: int| 0 <= j < i ==> rest@[j] != '/',
        decreases m - i,
    {
        i = i + 1;
    }
    proof {
        lemma_index_of_char(rest@, '/', i as int);
        assert(rest@ =~= dsh_url@.skip(7));
    }
    if i == 0 {
        return None;
    }
    let host_port = rest.substring_char(0, i);
    assert(host_port@ =~= rest@.take(i as int));
    Some(String::from_str(host_port))
}

// ---------------------------------------------------------------- frames

/// Kind of notification an event frame asks for.
#[derive(Debug, PartialEq, Eq)]
pub enum NotifyKind {
    /// Conversation finished (`message.stopped`), failed (`message.turnError`)
    /// or was cut at the output limit (`message.maxTokens`).
    Done { failed: bool, truncated: bool },
    /// A tool asks for authorisation (`approval/requested`).
    Approval { tool: String },
    /// The agent asks a question (`question/requested`).
    Question,
}

/// [`NotifyKind`] with its text as characters.
pub enum NotifyView {
    Done { failed: bool, truncated: bool },
    Approval { tool: Seq<char> },
    Question,
}

impl View for NotifyKind {
    type V = NotifyView;

    open spec fn view(&self) -> NotifyView {
        match self {
            NotifyKind::Done { failed, truncated } => NotifyView::Done {
                failed: *failed,
                truncated: *truncated,
            },
            NotifyKind::Approval { tool } => NotifyView::Approval { tool: tool@ },
            NotifyKind::Question => NotifyView::Question,
        }
    }
}

/// Tool name shown when an approval request names none.
pub open spec fn default_tool() -> Seq<char> {
    "工具"@
}

/// The notification that the frame `v` asks for: only the three kinds of
/// `payload.type` below are recognised, everything else is dropped.
pub open spec fn classify_spec(v: Json) -> Option<NotifyView> {
    let payload = json_get(v, "payload"@);
    match json_str(json_get_opt(payload, "type"@)) {
        None => None,
        Some(t) => if t == "session/event"@ {
            match json_str(json_get_opt(json_get_opt(payload, "event"@), "type"@)) {
                Some(et) => if et == "message.stopped"@ {
                    Some(NotifyView::Done { failed: false, truncated: false })
                } else if et == "message.turnError"@ {
                    Some(NotifyView::Done { failed: true, truncated: false })
                } else if et == "message.maxTokens"@ {
                    Some(NotifyView::Done { failed: false, truncated: true })
                } else {
                    None
                },
                None => None,
            }
        } else if t == "approval/requested"@ {
            Some(
                NotifyView::Approval {
                    tool: match json_str(json_get_opt(payload, "toolName"@)) {
                        Some(name) => name,
                        None => default_tool(),
                    },
                },
            )
        } else if t == "question/requested"@ {
            Some(NotifyView::Question)
        } else {
            None
        },
    }
}

/// View of an optional notification kind.
pub open spec fn kind_view(k: Option<NotifyKind>) -> Option<NotifyView> {
    match k {
        Some(x) => Some(x@),
        None => None,
    }
}

/// Classifies a parsed event frame: which notification, if any, it asks for.
pub fn classify_json(frame: &Json) -> (r: Option<NotifyKind>)
    ensures
        kind_view(r) == classify_spec(*frame),
{
    let payload = match get(frame, "payload") {
        Some(p) => p,
        None => return None,
    };
    let t = match as_str(get(payload, "type")) {
        Some(t) => t,
        None => return None,
    };
    if str_eq(t.as_str(), "session/event") {
        let event = match get(payload, "event") {
            Some(e) => e,
            None => return None,
        };
        let et = match as_str(get(event, "type")) {
            Some(et) => et,
            None => return None,
        };
        if str_eq(et.as_str(), "message.stopped") {
            Some(NotifyKind::Done { failed: false, truncated: false })
        } else if str_eq(et.as_str(), "message.turnError") {
            Some(NotifyKind::Done { failed: true, truncated: false })
        } else if str_eq(et.as_str(), "message.maxTokens") {
            Some(NotifyKind::Done { failed: false, truncated: true })
        } else {
            None
        }
    } else if str_eq(t.as_str(), "approval/requested") {
        let tool = match as_str(get(payload, "toolName")) {
            Some(name) => name.clone(),
            None => String::from_str("工具"),
        };
        Some(NotifyKind::Approval { tool })
    } else if str_eq(t.as_str(), "question/requested") {
        Some(NotifyKind::Question)
    } else {
        None
    }
}


/// The notification that the text frame `raw` asks for, if it is JSON.
pub open spec fn classify_text_spec(raw: Seq<char>) -> Option<NotifyView> {
    match json_text(raw) {
        Some(v) => classify_spec(v),
        None => None,
    }
}

/// Classifies a text frame of the event stream: text that is not JSON, and
/// frames of any other kind, ask for no notification.
pub fn classify(raw: &str) -> (r: Option<NotifyKind>)
    ensures
        kind_view(r) == classify_text_spec(raw@),
{
    match parse_json(raw) {
        Some(v) => classify_json(&v),
        None => None,
    }
}

// ---------------------------------------------------------------- message

/// The notification text for a kind: a failure wins over a truncation.
pub open spec fn message_spec(k: NotifyView) -> Seq<char> {
    match k {
        NotifyView::Done { failed, truncated } => if failed {
            "本轮运行失败"@
        } else if truncated {
            "回答被截断（已达输出上限）"@
        } else {
            "对话已完成"@
        },
        NotifyView::Approval { tool } => "需要你授权："@ + tool,
        NotifyView::Question => "需要你回答"@,
    }
}

/// The text shown in the notification for `kind`.
pub fn notify_message(kind: &NotifyKind) -> (msg: String)
    ensures
        msg@ == message_spec(kind@),
{
    match kind {
        NotifyKind::Done { failed, truncated } => {
            if *failed {
                String::from_str("本轮运行失败")
            } else if *truncated {
                String::from_str("回答被截断（已达输出上限）")
            } else {
                String::from_str("对话已完成")
            }
        },
        NotifyKind::Approval { tool } => {
            let mut msg = String::from_str("需要你授权：");
            msg.append(tool.as_str());
            msg
        },
        NotifyKind::Question => String::from_str("需要你回答"),
    }
}

/// The text of each kind of notification, as the design fixes it: a failed
/// turn is always announced as a failure, whether or not it was also cut at
/// the output limit; a cut answer that did not fail as truncated; any other
/// finished turn as completed; an approval names its tool.
pub proof fn notification_texts(truncated: bool, tool: Seq<char>)
    ensures
        message_spec(NotifyView::Done { failed: true, truncated }) == "本轮运行失败"@,
        message_spec(NotifyView::Done { failed: false, truncated: true })
            == "回答被截断（已达输出上限）"@,
        message_spec(NotifyView::Done { failed: false, truncated: false }) == "对话已完成"@,
        message_spec(NotifyView::Approval { tool }) == "需要你授权："@ + tool,
        message_spec(NotifyView::Question) == "需要你回答"@,
{
}

/// `s` written inside an AppleScript string literal: a double quote and a
/// backslash each get a backslash in front, so the literal reads back as `s`.
pub open spec fn escape_applescript(s: Seq<char>) -> Seq<char>
    decreases s.len(),
{
    if s.len() == 0 {
        Seq::empty()
    } else {
        escape_applescript(s.drop_last()) + if s.last() == '"' {
            seq!['\\', '"']
        } else if s.last() == '\\' {
            seq!['\\', '\\']
        } else {
            seq![s.last()]
        }
    }
}

/// What an AppleScript string literal whose text (between the quotes) is `t`
/// stands for: a backslash takes the next character as it is; a bare double
/// quote would end the literal early and a lone trailing backslash would
/// swallow the closing quote, so neither reads back.
pub open spec fn read_applescript(t: Seq<char>) -> Option<Seq<char>>
    decreases t.len(),
{
    if t.len() == 0 {
        Some(Seq::empty())
    } else if t[0] == '\\' {
        if t.len() >= 2 {
            match read_applescript(t.skip(2)) {
                Some(r) => Some(seq![t[1]] + r),
                None => None,
            }
        } else {
            None
        }
    } else if t[0] == '"' {
        None
    } else {
        match read_applescript(t.skip(1)) {
            Some(r) => Some(seq![t[0]] + r),
            None => None,
        }
    }
}

proof fn lemma_read_escaped(p: Seq<char>, t: Seq<char>)
    ensures
        read_applescript(escape_applescript(p) + t) == match read_applescript(t) {
            Some(r) => Some(p + r),
            None => None,
        },
    decreases p.len(),
{
    if p.len() == 0 {
        assert(escape_applescript(p) + t =~= t);
        match read_applescript(t) {
            Some(r) => assert(p + r =~= r),
            None => {},
        }
    } else {
        let c = p.last();
        let piece = if c == '"' {
            seq!['\\', '"']
        } else if c == '\\' {
            seq!['\\', '\\']
        } else {
            seq![c]
        };
        let u = piece + t;
        lemma_read_escaped(p.drop_last(), u);
        assert(escape_applescript(p) + t =~= escape_applescript(p.drop_last()) + u);
        if c == '"' || c == '\\' {
            assert(u.skip(2) =~= t);
            assert(u[0] == '\\' && u[1] == c);
        } else {
            assert(u.skip(1) =~= t);
            assert(u[0] == c);
        }
        match read_applescript(t) {
            Some(r) => {
                assert(read_applescript(u) == Some(seq![c] + r));
                assert(p.drop_last() + (seq![c] + r) =~= p + r);
            },
            None => {},
        }
    }
}

/// The notification literal reads back as the message: whatever `s` holds
/// (quotes, backslashes), its escaped form between two double quotes is read
/// by AppleScript as exactly `s`.
pub proof fn applescript_literal_reads_back(s: Seq<char>)
    ensures
        read_applescript(escape_applescript(s)) == Some(s),
{
    lemma_read_escaped(s, Seq::empty());
    assert(escape_applescript(s) + Seq::<char>::empty() =~= escape_applescript(s));
    assert(s + Seq::<char>::empty() =~= s);
}

/// The AppleScript that shows `msg` as a system notification titled "DASH".
pub open spec fn script_spec(msg: Seq<char>) -> Seq<char> {
    "display notification \""@ + escape_applescript(msg) + "\" with title \"DASH\""@
}

/// `s` escaped for an AppleScript string literal.
pub fn applescript_escape(s: &str) -> (out: String)
    ensures
        out@ == escape_applescript(s@),
{
    proof {
        reveal_strlit("\\\"");
        reveal_strlit("\\\\");
    }
    let mut out = String::new();
    let n = s.unicode_len();
    let mut i: usize = 0;
    while i < n
        invariant
            n == s@.len(),
            i <= n,
            "\\\""@ == seq!['\\', '"'],
            "\\\\"@ == seq!['\\', '\\'],
            out@ == escape_applescript(s@.take(i as int)),
        decreases n - i,
    {
        let c = s.get_char(i);
        proof {
            assert(s@.take(i + 1).drop_last() =~= s@.take(i as int));
            assert(s@.take(i + 1).last() == c);
        }
        if c == '"' {
            out.append("\\\"");
        } else if c == '\\' {
            out.append("\\\\");
        } else {
            let one = s.substring_char(i, i + 1);
            assert(one@ =~= seq![c]);
            out.append(one);
        }
        i = i + 1;
    }
    assert(s@.take(n as int) =~= s@);
    out
}

/// The script shows exactly the message: it is a `display notification`
/// command titled "DASH" whose string literal reads back as `msg`, whatever
/// quotes or backslashes `msg` holds.
pub proof fn notification_script_shows_message(msg: Seq<char>)
    ensures
        exists|t: Seq<char>|
            script_spec(msg) == "display notification \""@ + t + "\" with title \"DASH\""@ && #[trigger] read_applescript(t)
                == Some(msg),
{
    applescript_literal_reads_back(msg);
    assert(read_applescript(escape_applescript(msg)) == Some(msg));
}

/// Builds the `osascript -e` argument that posts the notification `msg`.
pub fn notification_script(msg: &str) -> (script: String)
    ensures
        script@ == script_spec(msg@),
{
    let mut script = String::from_str("display notification \"");
    let escaped = applescript_escape(msg);
    script.append(escaped.as_str());
    script.append("\" with title \"DASH\"");
    script
}

// ---------------------------------------------------------------- gate

/// Identity of a session event for de-duplication: the frame's session id
/// (when it has one) and the event's `seq` number as written.
#[derive(Debug, PartialEq, Eq)]
pub struct EventKey {
    pub session: Option<String>,
    pub seq: String,
}

impl View for EventKey {
    type V = (Option<Seq<char>>, Seq<char>);

    open spec fn view(&self) -> (Option<Seq<char>>, Seq<char>) {
        (
            match self.session {
                Some(s) => Some(s@),
                None => None,
            },
            self.seq@,
        )
    }
}

/// The key of frame `v`: `payload.sessionId` (a string, if any) and
/// `payload.event.seq` (a number); none when the event carries no number seq.
pub open spec fn event_key_spec(v: Json) -> Option<(Option<Seq<char>>, Seq<char>)> {
    let payload = json_get(v, "payload"@);
    match json_get_opt(json_get_opt(payload, "event"@), "seq"@) {
        Some(Json::Number(n)) => Some((json_str(json_get_opt(payload, "sessionId"@)), n@)),
        _ => None,
    }
}

/// Reads the de-duplication key of a parsed frame.
pub fn event_key(frame: &Json) -> (k: Option<EventKey>)
    ensures
        match k {
            Some(key) => event_key_spec(*frame) == Some(key@),
            None => event_key_spec(*frame) is None,
        },
{
    let payload = match get(frame, "payload") {
        Some(p) => p,
        None => return None,
    };
    let event = match get(payload, "event") {
        Some(e) => e,
        None => return None,
    };
    let seq = match get(event, "seq") {
        Some(Json::Number(n)) => n.clone(),
        _ => return None,
    };
    let session = match as_str(get(payload, "sessionId")) {
        Some(s) => Some(s.clone()),
        None => None,
    };
    Some(EventKey { session, seq })
}

/// A frame's notification together with its de-duplication key.
pub open spec fn event_spec(v: Json) -> Option<(NotifyView, Option<(Option<Seq<char>>, Seq<char>)>)> {
    match classify_spec(v) {
        Some(k) => Some((k, event_key_spec(v))),
        None => None,
    }
}

/// [`event_spec`] of the text frame `raw`, when it is JSON.
pub open spec fn event_text_spec(raw: Seq<char>) -> Option<(NotifyView, Option<(Option<Seq<char>>, Seq<char>)>)> {
    match json_text(raw) {
        Some(v) => event_spec(v),
        None => None,
    }
}

/// View of what [`read_event`] returns.
pub open spec fn event_view(e: Option<(NotifyKind, Option<EventKey>)>) -> Option<(NotifyView, Option<(Option<Seq<char>>, Seq<char>)>)> {
    match e {
        Some((k, key)) => Some((k@, key_view(key))),
        None => None,
    }
}

/// Reads a text frame of the event stream once: the notification it asks
/// for, with the key its event is de-duplicated by.
pub fn read_event(raw: &str) -> (r: Option<(NotifyKind, Option<EventKey>)>)
    ensures
        event_view(r) == event_text_spec(raw@),
{
    let v = match parse_json(raw) {
        Some(v) => v,
        None => return None,
    };
    match classify_json(&v) {
        Some(kind) => {
            let key = event_key(&v);
            Some((kind, key))
        },
        None => None,
    }
}

/// Whether a notification may be sent now: the menu switch, the time of the
/// last notification sent (milliseconds on a monotonic clock), and the keys
/// of the events already notified.
pub struct NotifyGate {
    pub enabled: bool,
    pub last: Option<u64>,
    pub seen: Vec<EventKey>,
}

/// [`NotifyGate`] with the keys as views.
pub struct GateView {
    pub enabled: bool,
    pub last: Option<u64>,
    pub seen: Seq<(Option<Seq<char>>, Seq<char>)>,
}

impl View for NotifyGate {
    type V = GateView;

    open spec fn view(&self) -> GateView {
        GateView {
            enabled: self.enabled,
            last: self.last,
            seen: self.seen@.map_values(|k: EventKey| k@),
        }
    }
}

/// Whether a frame with de-duplication key `key` that asks for a
/// notification at `now` gets one: its event was not notified before, the
/// switch is on, the window is not focused, and no notification went out in
/// the last `DEBOUNCE_MS` (a clock reading before the last one counts as no
/// time).
pub open spec fn fires(g: GateView, focused: bool, now: u64, key: Option<(Option<Seq<char>>, Seq<char>)>) -> bool {
    &&& match key {
        Some(k) => !g.seen.contains(k),
        None => true,
    }
    &&& g.enabled
    &&& !focused
    &&& match g.last {
        Some(t) => now >= t + DEBOUNCE_MS,
        None => true,
    }
}

/// The state after a call of `should_notify`: a notification records its
/// time and its event's key.
pub open spec fn gate_after(g: GateView, focused: bool, now: u64, key: Option<(Option<Seq<char>>, Seq<char>)>) -> GateView {
    if fires(g, focused, now, key) {
        GateView {
            enabled: g.enabled,
            last: Some(now),
            seen: match key {
                Some(k) => g.seen.push(k),
                None => g.seen,
            },
        }
    } else {
        g
    }
}

/// View of an optional de-duplication key.
pub open spec fn key_view(k: Option<EventKey>) -> Option<(Option<Seq<char>>, Seq<char>)> {
    match k {
        Some(x) => Some(x@),
        None => None,
    }
}

fn same_session(a: &Option<String>, b: &Option<String>) -> (r: bool)
    ensures
        r == (match a {
            Some(s) => Some(s@),
            None => None,
        } == match b {
            Some(s) => Some(s@),
            None => None,
        }),
{
    match (a, b) {
        (Some(x), Some(y)) => str_eq(x.as_str(), y.as_str()),
        (None, None) => true,
        _ => false,
    }
}

fn same_key(a: &EventKey, b: &EventKey) -> (r: bool)
    ensures
        r == (a@ == b@),
{
    same_session(&a.session, &b.session) && str_eq(a.seq.as_str(), b.seq.as_str())
}

impl NotifyGate {
    /// A gate with the switch as given, nothing notified yet.
    pub fn new(enabled: bool) -> (g: NotifyGate)
        ensures
            g@ == (GateView { enabled, last: None, seen: Seq::empty() }),
    {
        let g = NotifyGate { enabled, last: None, seen: Vec::new() };
        assert(g@.seen =~= Seq::<(Option<Seq<char>>, Seq<char>)>::empty());
        g
    }

    /// Flips the menu switch and returns its new state.
    pub fn toggle(&mut self) -> (enabled: bool)
        ensures
            enabled == !old(self)@.enabled,
            final(self)@ == (GateView { enabled, ..old(self)@ }),
    {
        self.enabled = !self.enabled;
        self.enabled
    }

    /// Whether the event with this key was notified already.
    fn notified(&self, key: &EventKey) -> (r: bool)
        ensures
            r == self@.seen.contains(key@),
    {
        let n = self.seen.len();
        let mut i: usize = 0;
        while i < n
            invariant
                n == self.seen@.len(),
                i <= n,
                forall|j: int| 0 <= j < i ==> self.seen@[j]@ != key@,
            decreases n - i,
        {
            if same_key(&self.seen[i], key) {
                assert(self@.seen[i as int] == key@);
                return true;
            }
            i = i + 1;
        }
        assert(!self@.seen.contains(key@)) by {
            if self@.seen.contains(key@) {
                let j = choose|j: int| 0 <= j < self@.seen.len() && self@.seen[j] == key@;
                assert(self.seen@[j]@ == key@);
            }
        }
        false
    }

    /// Decides whether to send a notification at `now` for a frame with the
    /// de-duplication key `key` (window focus as given); when it does, records
    /// the time and the key.
    pub fn should_notify(&mut self, focused: bool, now: u64, key: Option<EventKey>) -> (send: bool)
        ensures
            send == fires(old(self)@, focused, now, key_view(key)),
            final(self)@ == gate_after(old(self)@, focused, now, key_view(key)),
    {
        let dup = match &key {
            Some(k) => self.notified(k),
            None => false,
        };
        if dup || !self.enabled || focused {
            return false;
        }
        match self.last {
            Some(t) => {
                if now.saturating_sub(t) < DEBOUNCE_MS {
                    return false;
                }
            },
            None => {},
        }
        self.last = Some(now);
        match key {
            Some(k) => {
                let ghost old_seen = self.seen@;
                self.seen.push(k);
                assert(self@.seen =~= old_seen.map_values(|k: EventKey| k@).push(key_view(key).unwrap()));
            },
            None => {},
        }
        true
    }
}

/// Notification rate: after a notification at `t1`, no call before
/// `t1 + DEBOUNCE_MS` posts another, and a call that posts none keeps the
/// recorded state; so two notifications are always `DEBOUNCE_MS` apart or
/// more.
pub proof fn notifications_are_spaced(
    g: GateView,
    f1: bool,
    t1: u64,
    k1: Option<(Option<Seq<char>>, Seq<char>)>,
    f2: bool,
    t2: u64,
    k2: Option<(Option<Seq<char>>, Seq<char>)>,
)
    requires
        fires(g, f1, t1, k1),
    ensures
        fires(gate_after(g, f1, t1, k1), f2, t2, k2) ==> t2 >= t1 + DEBOUNCE_MS,
        !fires(gate_after(g, f1, t1, k1), f2, t2, k2) ==> gate_after(
            gate_after(g, f1, t1, k1),
            f2,
            t2,
            k2,
        ) == gate_after(g, f1, t1, k1),
{
}

/// De-duplication: once an event was notified, a frame with the same key
/// never notifies again, whatever the time, and every later state keeps the
/// key.
pub proof fn event_notified_once(
    g: GateView,
    f: bool,
    t: u64,
    k: (Option<Seq<char>>, Seq<char>),
    f2: bool,
    t2: u64,
    k2: Option<(Option<Seq<char>>, Seq<char>)>,
)
    requires
        gate_after(g, f, t, Some(k)).seen.contains(k) || fires(g, f, t, Some(k)),
    ensures
        gate_after(g, f, t, Some(k)).seen.contains(k),
        !fires(gate_after(g, f, t, Some(k)), f2, t2, Some(k)),
        gate_after(gate_after(g, f, t, Some(k)), f2, t2, k2).seen.contains(k),
{
    let g1 = gate_after(g, f, t, Some(k));
    if fires(g, f, t, Some(k)) {
        assert(g1.seen == g.seen.push(k));
        assert(g1.seen[g.seen.len() as int] == k);
    }
    let g2 = gate_after(g1, f2, t2, k2);
    if fires(g1, f2, t2, k2) {
        let i = choose|i: int| 0 <= i < g1.seen.len() && g1.seen[i] == k;
        match k2 {
            Some(x) => assert(g2.seen[i] == k),
            None => {},
        }
    }
}

/// With the switch off, or the window focused, no notification is posted
/// and the recorded state stays as it was.
pub proof fn quiet_when_off_or_focused(
    g: GateView,
    focused: bool,
    now: u64,
    key: Option<(Option<Seq<char>>, Seq<char>)>,
)
    requires
        !g.enabled || focused,
    ensures
        !fires(g, focused, now, key),
        gate_after(g, focused, now, key) == g,
{
}

} // verus!
