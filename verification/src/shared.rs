//! Settings and environment decisions shared by start-up and the menu: the
//! persisted configuration, reading the API-key dialog's answer, choosing a
//! Node.js installation, and the paths and PATH handed to child processes.
use vstd::prelude::*;
use crate::boot::{boot_next, ActionView, EventView, StageView};
use crate::json::{
    bool_member_text, bool_members_text, bool_object_text, bool_text, get, holds_bools,
    json_get, json_get_opt, json_text, parse_json, plain_keys, Json,
};
use crate::server::strings_view;
use crate::text::{find, find_spec, join, join_with, trim, trim_spec};

verus! {

/// Persisted settings (config.json). The API key itself lives in the
/// keychain; `api_key` is only read when present.
pub struct Config {
    pub api_key: Option<String>,
    /// The start-up dialog asking for a key was shown and skipped.
    pub key_asked: bool,
    /// Menu switch "对话完成通知" (conversation notifications), on by default.
    pub notify_enabled: bool,
}

impl Default for Config {
    fn default() -> (c: Config)
        ensures
            c.api_key is None,
            !c.key_asked,
            c.notify_enabled,
    {
        Config { api_key: None, key_asked: false, notify_enabled: true }
    }
}

/// The key handed to dsh as DEEPSEEK_API_KEY: the stored key unless empty.
pub open spec fn launch_key_spec(c: Config) -> Option<Seq<char>> {
    match c.api_key {
        Some(k) => if k@.len() > 0 {
            Some(k@)
        } else {
            None
        },
        None => None,
    }
}

impl Config {
    /// The key to pass to the dsh process, if a non-empty one is stored.
    pub fn launch_api_key(&self) -> (k: Option<String>)
        ensures
            match k {
                Some(s) => launch_key_spec(*self) == Some(s@),
                None => launch_key_spec(*self) is None,
            },
    {
        match &self.api_key {
            Some(key) => {
                if key.as_str().unicode_len() > 0 {
                    Some(key.clone())
                } else {
                    None
                }
            },
            None => None,
        }
    }
}

/// The members config.json holds for `c`: the two switches; the API key is
/// never written (it lives in the keychain).
pub open spec fn config_members(c: Config) -> Seq<(Seq<char>, bool)> {
    seq![("key_asked"@, c.key_asked), ("notify_enabled"@, c.notify_enabled)]
}

/// What config.json holds for `c`, pretty-printed as `serde_json` writes it.
pub open spec fn config_text_spec(c: Config) -> Seq<char> {
    bool_object_text(config_members(c))
}

fn push_bool(out: &mut String, b: bool)
    ensures
        final(out)@ == old(out)@ + bool_text(b),
{
    if b {
        out.append("true");
    } else {
        out.append("false");
    }
}

/// A stored configuration as values: the key (if any), the skipped-dialog
/// mark and the notification switch.
pub open spec fn config_view(c: Config) -> (Option<Seq<char>>, bool, bool) {
    (
        match c.api_key {
            Some(k) => Some(k@),
            None => None,
        },
        c.key_asked,
        c.notify_enabled,
    )
}

/// The `api_key` member: absent or null is no key, a string is the key,
/// anything else makes the file unreadable.
pub open spec fn key_field(x: Option<Json>) -> Option<Option<Seq<char>>> {
    match x {
        None => Some(None),
        Some(Json::Null) => Some(None),
        Some(Json::Str(s)) => Some(Some(s@)),
        _ => None,
    }
}

/// A switch member: absent is `default`, a boolean is itself, anything else
/// makes the file unreadable.
pub open spec fn flag_field(x: Option<Json>, default: bool) -> Option<bool> {
    match x {
        None => Some(default),
        Some(Json::Bool(b)) => Some(b),
        _ => None,
    }
}

/// The configuration a parsed config.json stands for: an object whose known
/// members have the right types (others are ignored); nothing otherwise.
pub open spec fn config_from_json(v: Json) -> Option<(Option<Seq<char>>, bool, bool)> {
    match v {
        Json::Object(_) => match (
            key_field(json_get(v, "api_key"@)),
            flag_field(json_get(v, "key_asked"@), false),
            flag_field(json_get(v, "notify_enabled"@), true),
        ) {
            (Some(k), Some(a), Some(n)) => Some((k, a, n)),
            _ => None,
        },
        _ => None,
    }
}

/// The configuration read from the text of config.json: the defaults (no key,
/// dialog not skipped, notifications on) when the text is not a readable
/// configuration.
pub open spec fn config_read_spec(raw: Seq<char>) -> (Option<Seq<char>>, bool, bool) {
    match json_text(raw) {
        Some(v) => match config_from_json(v) {
            Some(c) => c,
            None => (None, false, true),
        },
        None => (None, false, true),
    }
}

fn flag_member(v: &Json, key: &str, default: bool) -> (r: Option<bool>)
    ensures
        r == flag_field(json_get(*v, key@), default),
{
    match get(v, key) {
        None => Some(default),
        Some(Json::Bool(b)) => Some(*b),
        Some(_) => None,
    }
}

impl Config {
    /// The text written to config.json.
    pub fn file_text(&self) -> (text: String)
        ensures
            text@ == config_text_spec(*self),
    {
        let mut text = String::from_str("{\n");
        text.append("  \"");
        text.append("key_asked");
        text.append("\": ");
        push_bool(&mut text, self.key_asked);
        text.append(",\n");
        text.append("  \"");
        text.append("notify_enabled");
        text.append("\": ");
        push_bool(&mut text, self.notify_enabled);
        text.append("\n}");
        proof {
            let ms = config_members(*self);
            assert(ms.skip(1).len() == 1);
            assert(ms.skip(1)[0] == ms[1]);
            assert(bool_members_text(ms) == bool_member_text(ms[0]) + ",\n"@ + bool_members_text(ms.skip(1)));
            assert(text@ =~= config_text_spec(*self));
        }
        text
    }

    /// The configuration held by a parsed config.json, when it is one.
    pub fn from_json(v: &Json) -> (c: Option<Config>)
        ensures
            match c {
                Some(c) => config_from_json(*v) == Some(config_view(c)),
                None => config_from_json(*v) is None,
            },
    {
        match v {
            Json::Object(_) => {},
            _ => return None,
        }
        let api_key = match get(v, "api_key") {
            None => None,
            Some(Json::Null) => None,
            Some(Json::Str(s)) => Some(s.clone()),
            Some(_) => return None,
        };
        let key_asked = match flag_member(v, "key_asked", false) {
            Some(b) => b,
            None => return None,
        };
        let notify_enabled = match flag_member(v, "notify_enabled", true) {
            Some(b) => b,
            None => return None,
        };
        Some(Config { api_key, key_asked, notify_enabled })
    }

    /// Reads the text of config.json (see [`config_read_spec`]). A read gives
    /// back what [`Config::file_text`] wrote: the two switches, and no key.
    pub fn from_file_text(raw: &str) -> (c: Config)
        ensures
            config_view(c) == config_read_spec(raw@),
            forall|w: Config|
                #[trigger] config_text_spec(w) == raw@ ==> config_view(c) == (
                    None::<Seq<char>>,
                    w.key_asked,
                    w.notify_enabled,
                ),
    {
        let parsed = parse_json(raw);
        proof {
            reveal_strlit("key_asked");
            reveal_strlit("notify_enabled");
            reveal_strlit("api_key");
            assert forall|w: Config| #[trigger] config_text_spec(w) == raw@ implies
                config_from_json(parsed.unwrap()) == Some((None::<Seq<char>>, w.key_asked, w.notify_enabled))
                && parsed is Some by {
                let ms = config_members(w);
                assert(plain_keys(ms)) by {
                    assert forall|i: int, j: int| 0 <= i < j < ms.len() implies ms[i].0 != ms[j].0 by {
                        assert(ms[i].0.len() != ms[j].0.len());
                    }
                }
                assert(holds_bools(parsed, ms));
                assert(ms[0].0 == "key_asked"@);
                assert(ms[1].0 == "notify_enabled"@);
                assert(json_get_opt(parsed, "key_asked"@) == Some(Json::Bool(w.key_asked)));
                assert(json_get_opt(parsed, "notify_enabled"@) == Some(Json::Bool(w.notify_enabled)));
                assert(forall|i: int| 0 <= i < ms.len() ==> #[trigger] ms[i].0 != "api_key"@) by {
                    assert("api_key"@.len() == 7);
                }
                assert(json_get_opt(parsed, "api_key"@) is None);
            }
        }
        match parsed {
            Some(v) => match Config::from_json(&v) {
                Some(c) => c,
                None => Config::default(),
            },
            None => Config::default(),
        }
    }
}

/// The settings file holds no key: two configurations that differ only in
/// their API key are written as the same text.
pub proof fn config_text_has_no_key(a: Config, b: Config)
    requires
        a.key_asked == b.key_asked,
        a.notify_enabled == b.notify_enabled,
    ensures
        config_text_spec(a) == config_text_spec(b),
{
}

/// The configuration recorded after the API-key dialog was skipped.
pub open spec fn skip_recorded(c: Config) -> Config {
    Config { key_asked: true, ..c }
}

/// The API-key dialog is shown at most once. A cancelled dialog makes
/// start-up record the skip; the settings are then written with the mark set
/// (by `file_text`), and any reading that gives back what was written (as
/// `Config::from_file_text` does) finds the mark, so a later start-up with
/// still no key stored goes on to launch without the dialog.
pub proof fn key_dialog_at_most_once(before: Config, read: Config)
    requires
        forall|w: Config|
            #[trigger] config_text_spec(w) == config_text_spec(skip_recorded(before))
                ==> read.key_asked == w.key_asked,
    ensures
        boot_next(StageView::Prompting, EventView::Answer(None)).1 == ActionView::MarkKeyAsked,
        read.key_asked,
        boot_next(StageView::CheckingKey, EventView::Key { stored: false, asked: read.key_asked })
            == (StageView::LaunchAnnounced, ActionView::Progress("正在启动本地服务…"@)),
{
    assert(config_text_spec(skip_recorded(before)) == config_text_spec(skip_recorded(before)));
}

// ---------------------------------------------------------------- dialog


/// The AppleScript of the API-key dialog showing `message`: hidden answer,
/// buttons "取消" (cancel) and "保存" (save, the default). The message is
/// put in as it is.
pub open spec fn dialog_script_spec(message: Seq<char>) -> Seq<char> {
    "display dialog \""@ + message
        + "\" default answer \"\" with hidden answer buttons {\"取消\",\"保存\"} default button \"保存\""@
}

/// Builds the `osascript -e` argument of the API-key dialog.
pub fn dialog_script(message: &str) -> (script: String)
    ensures
        script@ == dialog_script_spec(message@),
{
    let mut script = String::from_str("display dialog \"");
    script.append(message);
    script.append(
        "\" default answer \"\" with hidden answer buttons {\"取消\",\"保存\"} default button \"保存\"",
    );
    script
}

/// The key typed into the macOS dialog, read from `osascript`'s output, which
/// looks like "button returned:保存, text returned:sk-xxxx[, gave up:true]":
/// nothing when the dialog was cancelled (non-zero exit) or the text is
/// missing or blank, else the text after "text returned:" up to the next
/// ", ", trimmed.
pub open spec fn dialog_answer_spec(success: bool, out: Seq<char>) -> Option<Seq<char>> {
    if !success {
        None
    } else {
        match find_spec(out, "text returned:"@) {
            None => None,
            Some(i) => {
                let rest = out.skip(i + "text returned:"@.len());
                let end = match find_spec(rest, ", "@) {
                    Some(e) => e,
                    None => rest.len() as int,
                };
                let v = trim_spec(rest.take(end));
                if v.len() == 0 {
                    None
                } else {
                    Some(v)
                }
            },
        }
    }
}

/// Reads the dialog's answer from `osascript`'s exit status and output.
pub fn dialog_answer(success: bool, out: &str) -> (r: Option<String>)
    ensures
        match r {
            Some(s) => dialog_answer_spec(success, out@) == Some(s@),
            None => dialog_answer_spec(success, out@) is None,
        },
{
    if !success {
        return None;
    }
    let needle = "text returned:";
    let idx = match find(out, needle) {
        Some(i) => i,
        None => return None,
    };
    let n = out.unicode_len();
    let start = idx + needle.unicode_len();
    let rest = out.substring_char(start, n);
    assert(rest@ =~= out@.skip(start as int));
    let m = rest.unicode_len();
    let end = match find(rest, ", ") {
        Some(e) => e,
        None => m,
    };
    let head = rest.substring_char(0, end);
    assert(head@ =~= rest@.take(end as int));
    let val = trim(head);
    if val.unicode_len() == 0 {
        None
    } else {
        Some(String::from_str(val))
    }
}

// ---------------------------------------------------------------- node

/// What was found at one candidate location of the `node` executable.
pub struct NodeProbe {
    /// The path names an existing file.
    pub is_file: bool,
    /// An npm CLI was found next to it.
    pub has_npm: bool,
}

/// Index of the first probe with `is_file` (and `has_npm`, when `need_npm`).
pub open spec fn first_node(ps: Seq<NodeProbe>, need_npm: bool) -> Option<int>
    decreases ps.len(),
{
    if ps.len() == 0 {
        None
    } else {
        match first_node(ps.drop_last(), need_npm) {
            Some(i) => Some(i),
            None => if ps.last().is_file && (ps.last().has_npm || !need_npm) {
                Some(ps.len() - 1)
            } else {
                None
            },
        }
    }
}

/// The Node.js to use among candidates probed in search order: the first one
/// that comes with npm (recent Homebrew node formulas ship without it); when
/// none does, the first existing one (enough to run dsh web).
pub open spec fn pick_node_spec(ps: Seq<NodeProbe>) -> Option<int> {
    match first_node(ps, true) {
        Some(i) => Some(i),
        None => first_node(ps, false),
    }
}

/// Whether a probe may be chosen: an existing file, with npm when `need_npm`.
pub open spec fn usable(p: NodeProbe, need_npm: bool) -> bool {
    p.is_file && (p.has_npm || !need_npm)
}

proof fn lemma_first_node_least(ps: Seq<NodeProbe>, need_npm: bool)
    ensures
        match first_node(ps, need_npm) {
            Some(j) => 0 <= j < ps.len() && usable(ps[j], need_npm) && forall|k: int|
                0 <= k < j ==> !usable(#[trigger] ps[k], need_npm),
            None => forall|k: int| 0 <= k < ps.len() ==> !usable(#[trigger] ps[k], need_npm),
        },
    decreases ps.len(),
{
    if ps.len() > 0 {
        let q = ps.drop_last();
        lemma_first_node_least(q, need_npm);
        assert forall|k: int| 0 <= k < q.len() implies q[k] == ps[k] by {}
    }
}

/// The Node.js chosen, in terms of the probes alone: when some candidate is
/// an existing file with npm, the earliest such one (none before it has
/// both); when none has npm, the earliest existing file; none when no
/// candidate exists.
pub proof fn pick_node_choice(ps: Seq<NodeProbe>)
    ensures
        (exists|i: int| 0 <= i < ps.len() && #[trigger] ps[i].is_file && ps[i].has_npm) ==> match pick_node_spec(ps) {
            Some(j) => 0 <= j < ps.len() && ps[j].is_file && ps[j].has_npm && forall|k: int|
                0 <= k < j ==> !(#[trigger] ps[k].is_file && ps[k].has_npm),
            None => false,
        },
        (forall|i: int| 0 <= i < ps.len() ==> !(#[trigger] ps[i].is_file && ps[i].has_npm)) ==> match pick_node_spec(ps) {
            Some(j) => 0 <= j < ps.len() && ps[j].is_file && forall|k: int|
                0 <= k < j ==> !(#[trigger] ps[k].is_file),
            None => forall|k: int| 0 <= k < ps.len() ==> !(#[trigger] ps[k].is_file),
        },
{
    lemma_first_node_least(ps, true);
    lemma_first_node_least(ps, false);
    if exists|i: int| 0 <= i < ps.len() && #[trigger] ps[i].is_file && ps[i].has_npm {
        let i = choose|i: int| 0 <= i < ps.len() && #[trigger] ps[i].is_file && ps[i].has_npm;
        assert(usable(ps[i], true));
    }
    match first_node(ps, false) {
        Some(j) => {
            assert forall|k: int| 0 <= k < j implies !(#[trigger] ps[k].is_file) by {
                assert(!usable(ps[k], false));
            }
        },
        None => {
            assert forall|k: int| 0 <= k < ps.len() implies !(#[trigger] ps[k].is_file) by {
                assert(!usable(ps[k], false));
            }
        },
    }
    match first_node(ps, true) {
        Some(j) => {
            assert forall|k: int| 0 <= k < j implies !(#[trigger] ps[k].is_file && ps[k].has_npm) by {
                assert(!usable(ps[k], true));
            }
        },
        None => {},
    }
}

/// Chooses the Node.js installation from the probes of the candidates.
pub fn pick_node(probes: &Vec<NodeProbe>) -> (r: Option<usize>)
    ensures
        match r {
            Some(i) => pick_node_spec(probes@) == Some(i as int),
            None => pick_node_spec(probes@) is None,
        },
{
    let n = probes.len();
    let mut with_npm: Option<usize> = None;
    let mut fallback: Option<usize> = None;
    let mut i: usize = 0;
    while i < n
        invariant
            n == probes@.len(),
            i <= n,
            match with_npm {
                Some(k) => first_node(probes@.take(i as int), true) == Some(k as int),
                None => first_node(probes@.take(i as int), true) is None,
            },
            match fallback {
                Some(k) => first_node(probes@.take(i as int), false) == Some(k as int),
                None => first_node(probes@.take(i as int), false) is None,
            },
        decreases n - i,
    {
        assert(probes@.take(i + 1).drop_last() =~= probes@.take(i as int));
        let p = &probes[i];
        if p.is_file {
            if with_npm.is_none() && p.has_npm {
                with_npm = Some(i);
            }
            if fallback.is_none() {
                fallback = Some(i);
            }
        }
        i = i + 1;
    }
    assert(probes@.take(n as int) =~= probes@);
    match with_npm {
        Some(k) => Some(k),
        None => fallback,
    }
}

// ---------------------------------------------------------------- paths

/// `rel` joined under the directory `base` (relative `rel`), as a path join:
/// no separator added after an empty base or one that already ends with '/'.
pub open spec fn join_path_spec(base: Seq<char>, rel: Seq<char>) -> Seq<char> {
    if base.len() == 0 {
        rel
    } else if base.last() == '/' {
        base + rel
    } else {
        base + "/"@ + rel
    }
}

/// Joins the relative path `rel` under `base`.
pub fn join_path(base: &str, rel: &str) -> (p: String)
    ensures
        p@ == join_path_spec(base@, rel@),
{
    let n = base.unicode_len();
    let mut p = String::from_str(base);
    if n > 0 && base.get_char(n - 1) != '/' {
        p.append("/");
    }
    p.append(rel);
    p
}

/// Location of the dsh entry point under the data directory.
pub open spec fn dsh_bin_spec(data_dir: Seq<char>) -> Seq<char> {
    join_path_spec(data_dir, "node_modules/@deepseek-ai/dsh/lib/bin.js"@)
}

/// Path of the installed dsh entry point (`node_modules/@deepseek-ai/dsh/lib/bin.js`).
pub fn dsh_bin(data_dir: &str) -> (p: String)
    ensures
        p@ == dsh_bin_spec(data_dir@),
{
    join_path(data_dir, "node_modules/@deepseek-ai/dsh/lib/bin.js")
}

/// `rel` joined to each directory of `dirs`.
pub open spec fn joined_all(dirs: Seq<Seq<char>>, rel: Seq<char>) -> Seq<Seq<char>> {
    dirs.map_values(|d: Seq<char>| join_path_spec(d, rel))
}

/// The Node.js executables tried, in order: the one bundled with the full
/// build (`node-dist/bin/node` in the resource directory, when there is
/// one), `node` in each PATH directory, the Homebrew and /usr/local ones,
/// then `bin/node` in each nvm and mise version directory.
pub open spec fn node_candidates_spec(
    resource_dir: Option<Seq<char>>,
    path_dirs: Seq<Seq<char>>,
    version_dirs: Seq<Seq<char>>,
) -> Seq<Seq<char>> {
    let bundled = match resource_dir {
        Some(r) => seq![join_path_spec(r, "node-dist/bin/node"@)],
        None => Seq::empty(),
    };
    bundled + joined_all(path_dirs, "node"@) + seq!["/opt/homebrew/bin/node"@, "/usr/local/bin/node"@]
        + joined_all(version_dirs, "bin/node"@)
}

fn push_joined(out: &mut Vec<String>, dirs: &Vec<String>, rel: &str)
    ensures
        strings_view(final(out)@) == strings_view(old(out)@) + joined_all(strings_view(dirs@), rel@),
{
    let ghost start = strings_view(out@);
    let n = dirs.len();
    let mut i: usize = 0;
    while i < n
        invariant
            n == dirs@.len(),
            i <= n,
            strings_view(out@) == start + joined_all(strings_view(dirs@.take(i as int)), rel@),
        decreases n - i,
    {
        let p = join_path(dirs[i].as_str(), rel);
        let ghost before = out@;
        out.push(p);
        proof {
            assert(strings_view(out@) =~= strings_view(before).push(p@));
            assert(joined_all(strings_view(dirs@.take(i + 1)), rel@) =~= joined_all(
                strings_view(dirs@.take(i as int)),
                rel@,
            ).push(join_path_spec(dirs@[i as int]@, rel@)));
            assert(strings_view(out@) =~= start + joined_all(strings_view(dirs@.take(i + 1)), rel@));
        }
        i = i + 1;
    }
    assert(dirs@.take(n as int) =~= dirs@);
}

/// The candidates to probe for Node.js, in search order (see
/// [`node_candidates_spec`]).
pub fn node_candidates(
    resource_dir: Option<&str>,
    path_dirs: &Vec<String>,
    version_dirs: &Vec<String>,
) -> (c: Vec<String>)
    ensures
        strings_view(c@) == node_candidates_spec(
            match resource_dir {
                Some(r) => Some(r@),
                None => None,
            },
            strings_view(path_dirs@),
            strings_view(version_dirs@),
        ),
{
    let mut c: Vec<String> = Vec::new();
    match resource_dir {
        Some(r) => c.push(join_path(r, "node-dist/bin/node")),
        None => {},
    }
    let ghost bundled = strings_view(c@);
    push_joined(&mut c, path_dirs, "node");
    let ghost with_path = strings_view(c@);
    c.push(String::from_str("/opt/homebrew/bin/node"));
    c.push(String::from_str("/usr/local/bin/node"));
    proof {
        assert(strings_view(c@) =~= with_path + seq!["/opt/homebrew/bin/node"@, "/usr/local/bin/node"@]);
    }
    push_joined(&mut c, version_dirs, "bin/node");
    proof {
        let spec_bundled = match resource_dir {
            Some(r) => seq![join_path_spec(r@, "node-dist/bin/node"@)],
            None => Seq::<Seq<char>>::empty(),
        };
        assert(bundled =~= spec_bundled);
    }
    c
}

/// The search order, position by position: the bundled node (when there is
/// a resource directory), then `node` in each PATH directory in PATH order,
/// then /opt/homebrew/bin/node and /usr/local/bin/node, then `bin/node` in
/// each version directory in the order given; nothing else.
pub proof fn node_candidate_order(
    resource_dir: Option<Seq<char>>,
    path_dirs: Seq<Seq<char>>,
    version_dirs: Seq<Seq<char>>,
)
    ensures
        ({
            let c = node_candidates_spec(resource_dir, path_dirs, version_dirs);
            let b: int = if resource_dir is Some {
                1
            } else {
                0
            };
            let pl = path_dirs.len() as int;
            &&& c.len() == b + pl + 2 + version_dirs.len()
            &&& resource_dir matches Some(r) ==> c[0] == join_path_spec(r, "node-dist/bin/node"@)
            &&& forall|i: int| 0 <= i < pl ==> c[b + i] == join_path_spec(#[trigger] path_dirs[i], "node"@)
            &&& c[b + pl] == "/opt/homebrew/bin/node"@
            &&& c[b + pl + 1] == "/usr/local/bin/node"@
            &&& forall|i: int|
                0 <= i < version_dirs.len() ==> c[b + pl + 2 + i] == join_path_spec(
                    #[trigger] version_dirs[i],
                    "bin/node"@,
                )
        }),
{
}

proof fn lemma_first_node_at_start(ps: Seq<NodeProbe>, need_npm: bool)
    requires
        ps.len() >= 1,
        ps[0].is_file,
        ps[0].has_npm || !need_npm,
    ensures
        first_node(ps, need_npm) == Some(0int),
    decreases ps.len(),
{
    if ps.len() > 1 {
        assert(ps.drop_last()[0] == ps[0]);
        lemma_first_node_at_start(ps.drop_last(), need_npm);
    } else {
        assert(ps.drop_last().len() == 0);
        assert(first_node(ps.drop_last(), need_npm) is None);
        assert(ps.last() == ps[0]);
    }
}

/// The full build's own Node.js comes first: when a resource directory is
/// given, the first candidate is its `node-dist/bin/node`, and when that file
/// exists and comes with npm it is the one chosen, whatever else is installed.
pub proof fn bundled_node_first(
    resource_dir: Seq<char>,
    path_dirs: Seq<Seq<char>>,
    version_dirs: Seq<Seq<char>>,
    probes: Seq<NodeProbe>,
)
    requires
        probes.len() == node_candidates_spec(Some(resource_dir), path_dirs, version_dirs).len(),
        probes[0].is_file,
        probes[0].has_npm,
    ensures
        node_candidates_spec(Some(resource_dir), path_dirs, version_dirs)[0] == join_path_spec(
            resource_dir,
            "node-dist/bin/node"@,
        ),
        pick_node_spec(probes) == Some(0int),
{
    lemma_first_node_at_start(probes, true);
}

/// Directories put in front of the inherited PATH for child processes: the
/// directory of the chosen node (when there is one), Homebrew's and
/// /usr/local's bin, and the local `node_modules/.bin`.
pub open spec fn path_dirs(node_dir: Option<Seq<char>>, data_dir: Seq<char>) -> Seq<Seq<char>> {
    let fixed = seq![
        "/opt/homebrew/bin"@,
        "/usr/local/bin"@,
        join_path_spec(data_dir, "node_modules/.bin"@),
    ];
    match node_dir {
        Some(d) => seq![d] + fixed,
        None => fixed,
    }
}

/// PATH for child processes: `path_dirs` then the inherited PATH.
pub open spec fn path_env_spec(node_dir: Option<Seq<char>>, data_dir: Seq<char>, old: Seq<char>) -> Seq<char> {
    join_with(path_dirs(node_dir, data_dir).push(old), ":"@)
}

/// Builds the PATH value handed to npm and dsh.
pub fn path_env(node_dir: Option<&str>, data_dir: &str, old_path: &str) -> (p: String)
    ensures
        p@ == path_env_spec(
            match node_dir {
                Some(d) => Some(d@),
                None => None,
            },
            data_dir@,
            old_path@,
        ),
{
    let bin = join_path(data_dir, "node_modules/.bin");
    let mut parts: Vec<String> = Vec::new();
    match node_dir {
        Some(d) => parts.push(String::from_str(d)),
        None => {},
    }
    parts.push(String::from_str("/opt/homebrew/bin"));
    parts.push(String::from_str("/usr/local/bin"));
    parts.push(bin);
    parts.push(String::from_str(old_path));
    let ghost views = parts@.map_values(|s: String| s@);
    assert(views =~= path_dirs(
        match node_dir {
            Some(d) => Some(d@),
            None => None,
        },
        data_dir@,
    ).push(old_path@));
    join(&parts, ":")
}


// ---------------------------------------------------------------- backups

/// Number of settings snapshots kept in ~/DASH-backup.
pub const BACKUPS_KEPT: usize = 5;

/// How many of `count` snapshots (oldest first) to delete so that at most
/// `BACKUPS_KEPT` stay.
pub fn excess_backups(count: usize) -> (n: usize)
    ensures
        n == if count > BACKUPS_KEPT {
            count - BACKUPS_KEPT
        } else {
            0
        },
{
    if count > BACKUPS_KEPT {
        count - BACKUPS_KEPT
    } else {
        0
    }
}

} // verus!
