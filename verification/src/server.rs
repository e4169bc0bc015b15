//! Launching `dsh web`: its command line, the URL the window loads, the
//! wait for the port to open, the npm install command line and the HTTP
//! readiness check.
use vstd::prelude::*;
use crate::text::{decimal, decimal_spec, join, join_with, str_eq, trim, trim_spec};

verus! {

/// How long to wait for the dsh web port to open, in milliseconds.
pub const LAUNCH_TIMEOUT_MS: u64 = 45000;

/// Interval between two checks of the port, in milliseconds.
pub const LAUNCH_POLL_MS: u64 = 400;

/// Number of one-second tries of the HTTP readiness check.
pub const HTTP_READY_TRIES: u32 = 15;

/// The URL of dsh web on `port`: "http://127.0.0.1:<port>/".
pub open spec fn server_url_spec(port: u16) -> Seq<char> {
    "http://127.0.0.1:"@ + decimal_spec(port as nat) + "/"@
}

/// URL that the window loads once dsh web listens on `port`.
pub fn server_url(port: u16) -> (url: String)
    ensures
        url@ == server_url_spec(port),
{
    let mut url = String::from_str("http://127.0.0.1:");
    let p = decimal(port as u64);
    url.append(p.as_str());
    url.append("/");
    url
}

/// Arguments after the dsh entry point: `web --host 127.0.0.1 --port <port>`.
pub open spec fn web_args_spec(port: u16) -> Seq<Seq<char>> {
    seq!["web"@, "--host"@, "127.0.0.1"@, "--port"@, decimal_spec(port as nat)]
}

/// View of a list of strings.
pub open spec fn strings_view(v: Seq<String>) -> Seq<Seq<char>> {
    v.map_values(|s: String| s@)
}

/// Command-line arguments of `dsh web` after the entry point.
pub fn web_args(port: u16) -> (args: Vec<String>)
    ensures
        strings_view(args@) == web_args_spec(port),
{
    let mut args: Vec<String> = Vec::new();
    args.push(String::from_str("web"));
    args.push(String::from_str("--host"));
    args.push(String::from_str("127.0.0.1"));
    args.push(String::from_str("--port"));
    args.push(decimal(port as u64));
    assert(strings_view(args@) =~= web_args_spec(port));
    args
}

/// What to do while waiting for dsh web to listen.
#[derive(PartialEq, Eq, Structural, Debug, Clone, Copy)]
pub enum LaunchWait {
    /// The port accepts connections: keep the child, load the URL.
    Ready,
    /// The child exited first: report it with the log tail.
    Exited,
    /// The deadline passed: kill the child, report a timeout.
    TimedOut,
    /// Check again after `LAUNCH_POLL_MS`.
    Wait,
}

/// The decision at time `now`: an open port wins, then an exited child, then
/// a passed deadline.
pub open spec fn launch_wait_spec(port_open: bool, exited: bool, now: u64, deadline: u64) -> LaunchWait {
    if port_open {
        LaunchWait::Ready
    } else if exited {
        LaunchWait::Exited
    } else if now > deadline {
        LaunchWait::TimedOut
    } else {
        LaunchWait::Wait
    }
}

/// Decides one round of the wait for the dsh web port.
pub fn launch_wait(port_open: bool, exited: bool, now: u64, deadline: u64) -> (w: LaunchWait)
    ensures
        w == launch_wait_spec(port_open, exited, now, deadline),
{
    if port_open {
        LaunchWait::Ready
    } else if exited {
        LaunchWait::Exited
    } else if now > deadline {
        LaunchWait::TimedOut
    } else {
        LaunchWait::Wait
    }
}

/// Arguments of npm that install `pkg@version` into `prefix`, quietly, from
/// the official registry (bypassing a mirror configured in ~/.npmrc).
pub open spec fn npm_install_args_spec(prefix: Seq<char>, pkg: Seq<char>, version: Seq<char>) -> Seq<Seq<char>> {
    seq![
        "install"@,
        "--prefix"@,
        prefix,
        pkg + "@"@ + version,
        "--no-audit"@,
        "--no-fund"@,
        "--loglevel=warn"@,
        "--registry=https://registry.npmjs.org/"@,
    ]
}

/// Command-line arguments of the npm CLI for installing dsh.
pub fn npm_install_args(prefix: &str, pkg: &str, version: &str) -> (args: Vec<String>)
    ensures
        strings_view(args@) == npm_install_args_spec(prefix@, pkg@, version@),
{
    let mut spec = String::from_str(pkg);
    spec.append("@");
    spec.append(version);
    let mut args: Vec<String> = Vec::new();
    args.push(String::from_str("install"));
    args.push(String::from_str("--prefix"));
    args.push(String::from_str(prefix));
    args.push(spec);
    args.push(String::from_str("--no-audit"));
    args.push(String::from_str("--no-fund"));
    args.push(String::from_str("--loglevel=warn"));
    args.push(String::from_str("--registry=https://registry.npmjs.org/"));
    assert(strings_view(args@) =~= npm_install_args_spec(prefix@, pkg@, version@));
    args
}

/// Whether one try of the readiness check saw the page: curl succeeded and
/// printed the status code 200 (surrounding white space ignored).
pub fn http_status_ok(success: bool, curl_output: &str) -> (ok: bool)
    ensures
        ok == (success && trim_spec(curl_output@) == "200"@),
{
    success && str_eq(trim(curl_output), "200")
}



/// Error of an upgrade restart whose port opened but whose page never
/// answered 200.
pub fn not_ready_message(url: &str) -> (m: String)
    ensures
        m@ == "服务端口已开但 HTTP 未就绪: "@ + url@,
{
    let mut m = String::from_str("服务端口已开但 HTTP 未就绪: ");
    m.append(url);
    m
}

/// Number of log lines shown when dsh web fails to come up.
pub const TAIL_LINES: usize = 8;

/// `s` cut at every '\n' (always at least one piece; the last one is what
/// follows the last '\n').
pub open spec fn segments(s: Seq<char>) -> Seq<Seq<char>>
    decreases s.len(),
{
    if s.len() == 0 {
        seq![Seq::empty()]
    } else {
        let prev = segments(s.drop_last());
        if s.last() == '\n' {
            prev.push(Seq::empty())
        } else {
            prev.update(prev.len() - 1, prev.last().push(s.last()))
        }
    }
}

/// A line ended by "\r\n" loses its '\r'.
pub open spec fn strip_cr(l: Seq<char>) -> Seq<char> {
    if l.len() > 0 && l.last() == '\r' {
        l.drop_last()
    } else {
        l
    }
}

/// The lines of `s` as `str::lines` gives them: every piece followed by a
/// '\n' (without a '\r' before that '\n'), then the rest when not empty.
pub open spec fn lines_spec(s: Seq<char>) -> Seq<Seq<char>> {
    let segs = segments(s);
    let ended = segs.drop_last().map_values(|l: Seq<char>| strip_cr(l));
    if segs.last().len() == 0 {
        ended
    } else {
        ended.push(segs.last())
    }
}

/// The last `TAIL_LINES` lines of a log, newest first, one per line.
pub open spec fn tail_spec(log: Seq<char>) -> Seq<char> {
    let ls = lines_spec(log).reverse();
    join_with(ls.take(if ls.len() < TAIL_LINES { ls.len() as int } else { TAIL_LINES as int }), "\n"@)
}

/// Splits a text into lines as `str::lines` does.
pub fn lines(text: &str) -> (ls: Vec<String>)
    ensures
        ls@.map_values(|l: String| l@) == lines_spec(text@),
{
    let n = text.unicode_len();
    let mut ls: Vec<String> = Vec::new();
    let mut start: usize = 0;
    let mut i: usize = 0;
    proof {
        assert(text@.take(0) =~= Seq::<char>::empty());
        assert(segments(Seq::<char>::empty()) =~= seq![Seq::<char>::empty()]);
    }
    while i < n
        invariant
            n == text@.len(),
            start <= i <= n,
            segments(text@.take(i as int)).len() >= 1,
            ls@.map_values(|l: String| l@) == segments(text@.take(i as int)).drop_last().map_values(
                |l: Seq<char>| strip_cr(l),
            ),
            segments(text@.take(i as int)).last() == text@.subrange(start as int, i as int),
        decreases n - i,
    {
        let ghost before = segments(text@.take(i as int));
        let c = text.get_char(i);
        proof {
            assert(text@.take(i + 1).drop_last() =~= text@.take(i as int));
            assert(text@.take(i + 1).last() == c);
        }
        if c == '\n' {
            let seg = text.substring_char(start, i);
            let k = seg.unicode_len();
            let line = if k > 0 && seg.get_char(k - 1) == '\r' {
                seg.substring_char(0, k - 1)
            } else {
                seg
            };
            proof {
                assert(line@ =~= strip_cr(seg@));
                assert(seg@ =~= before.last());
            }
            let ghost old_ls = ls@;
            let item = String::from_str(line);
            ls.push(item);
            proof {
                assert(ls@ =~= old_ls.push(item));
                assert(ls@.map_values(|l: String| l@) =~= old_ls.map_values(|l: String| l@).push(item@));
                let after = segments(text@.take(i + 1));
                assert(after =~= before.push(Seq::empty()));
                assert(after.drop_last() =~= before);
                assert(before =~= before.drop_last().push(before.last()));
                assert(ls@.map_values(|l: String| l@) =~= after.drop_last().map_values(
                    |l: Seq<char>| strip_cr(l),
                ));
            }
            start = i + 1;
            proof {
                assert(text@.subrange(start as int, i + 1) =~= Seq::<char>::empty());
            }
        } else {
            proof {
                let after = segments(text@.take(i + 1));
                assert(after =~= before.update(before.len() - 1, before.last().push(c)));
                assert(after.drop_last() =~= before.drop_last());
                assert(after.last() =~= text@.subrange(start as int, i + 1));
            }
        }
        i = i + 1;
    }
    assert(text@.take(n as int) =~= text@);
    let last = text.substring_char(start, n);
    if last.unicode_len() > 0 {
        ls.push(String::from_str(last));
        proof {
            let segs = segments(text@);
            assert(ls@.map_values(|l: String| l@) =~= segs.drop_last().map_values(
                |l: Seq<char>| strip_cr(l),
            ).push(segs.last()));
        }
    }
    ls
}

/// The last lines of a log for an error message: at most `TAIL_LINES`,
/// newest first, joined with '\n'.
pub fn tail_lines(log: &str) -> (t: String)
    ensures
        t@ == tail_spec(log@),
{
    let ls = lines(log);
    let n = ls.len();
    let k = if n < TAIL_LINES {
        n
    } else {
        TAIL_LINES
    };
    let ghost views = ls@.map_values(|l: String| l@);
    let mut picked: Vec<String> = Vec::new();
    let mut j: usize = 0;
    while j < k
        invariant
            n == ls@.len(),
            k <= n,
            j <= k,
            views == ls@.map_values(|l: String| l@),
            picked@.map_values(|l: String| l@) =~= views.reverse().take(j as int),
        decreases k - j,
    {
        let ghost old_picked = picked@;
        let item = ls[n - 1 - j].clone();
        picked.push(item);
        proof {
            assert(picked@ =~= old_picked.push(item));
            assert(picked@.map_values(|l: String| l@) =~= old_picked.map_values(|l: String| l@).push(item@));
            assert(views.reverse()[j as int] == views[n - 1 - j]);
            assert(picked@.map_values(|l: String| l@) =~= views.reverse().take(j + 1));
        }
        j = j + 1;
    }
    join(&picked, "\n")
}

} // verus!
