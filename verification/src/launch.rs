//! What the running application asks of the system: the commands that open
//! a resource or a link in the browser, what their results are reported as,
//! when the automatic refresh is due, and how refresh times are shown.
use vstd::prelude::*;

use crate::domain::resource::strs;
use crate::domain::resource_id::{canonical_name_spec, repo_name_spec, IdView, ResourceId, ResourceKind};
use crate::text::{decimal, is_ws, push_str, trim};

verus! {

/// The arguments of the `gh` command that opens `id` in the browser: the
/// pull request or issue view when the kind is known, else `gh browse`.
pub open spec fn open_args_spec(id: IdView) -> Seq<Seq<char>> {
    let number = decimal(id.number as nat);
    let repo = repo_name_spec(id);
    match id.kind_hint {
        Some(ResourceKind::PullRequest) => seq!["pr"@, "view"@, number, "-R"@, repo, "--web"@],
        Some(ResourceKind::Issue) => seq!["issue"@, "view"@, number, "-R"@, repo, "--web"@],
        None => seq!["browse"@, number, "-R"@, repo],
    }
}

/// The arguments of the `gh` command that opens `id` in the browser (see
/// `open_args_spec`).
pub fn open_command_args(id: &ResourceId) -> (v: Vec<String>)
    ensures
        strs(v@) == open_args_spec(id@),
{
    let repo = id.repo_name_with_owner();
    let number = crate::text::u64_to_string(id.number);
    let mut v: Vec<String> = Vec::new();
    match id.kind_hint {
        Some(ResourceKind::PullRequest) => {
            v.push(crate::text::owned("pr"));
            v.push(crate::text::owned("view"));
            v.push(number);
            v.push(crate::text::owned("-R"));
            v.push(repo);
            v.push(crate::text::owned("--web"));
        },
        Some(ResourceKind::Issue) => {
            v.push(crate::text::owned("issue"));
            v.push(crate::text::owned("view"));
            v.push(number);
            v.push(crate::text::owned("-R"));
            v.push(repo);
            v.push(crate::text::owned("--web"));
        },
        None => {
            v.push(crate::text::owned("browse"));
            v.push(number);
            v.push(crate::text::owned("-R"));
            v.push(repo);
        },
    }
    proof {
        assert(strs(v@) =~= open_args_spec(id@));
    }
    v
}

/// The operating system the application runs on, as far as opening a link
/// depends on it.
#[derive(Debug, Clone, Copy, PartialEq, Eq, Structural)]
pub enum Platform {
    MacOs,
    Windows,
    Other,
}

/// The words of `s`, as `split_whitespace` gives them.
pub open spec fn words(s: Seq<char>) -> Seq<Seq<char>>
    decreases s.len(),
{
    if s.len() == 0 {
        Seq::empty()
    } else if is_ws(s.last()) {
        words(s.drop_last())
    } else {
        let prior = words(s.drop_last());
        if s.len() >= 2 && !is_ws(s[s.len() - 2]) && prior.len() > 0 {
            prior.update(prior.len() - 1, prior.last().push(s.last()))
        } else {
            prior.push(seq![s.last()])
        }
    }
}

/// The program and arguments that open `url`: the command in `BROWSER`
/// when it is set and not blank, its words split, with the URL added last;
/// else the system's opener.
pub open spec fn url_open_spec(url: Seq<char>, browser: Option<Seq<char>>, platform: Platform) -> (Seq<char>, Seq<Seq<char>>) {
    match browser {
        Some(b) if trim(b).len() > 0 => {
            let w = words(trim(b));
            (w[0], w.drop_first().push(url))
        },
        _ => match platform {
            Platform::MacOs => ("open"@, seq![url]),
            Platform::Windows => ("cmd"@, seq!["/C"@, "start"@, Seq::empty(), url]),
            Platform::Other => ("xdg-open"@, seq![url]),
        },
    }
}

proof fn lemma_words_nonempty(s: Seq<char>)
    requires
        s.len() > 0,
        !is_ws(s.last()),
    ensures
        words(s).len() > 0,
{
}

/// The words of `v` (see `words`).
fn split_words(v: &Vec<char>) -> (r: Vec<String>)
    ensures
        strs(r@) == words(v@),
{
    let mut r: Vec<String> = Vec::new();
    let mut i: usize = 0;
    proof {
        assert(strs(r@) =~= words(v@.subrange(0, 0)));
    }
    while i < v.len()
        invariant
            i <= v@.len(),
            strs(r@) == words(v@.subrange(0, i as int)),
        decreases v.len() - i,
    {
        let c = v[i];
        let ghost prefix = v@.subrange(0, i + 1);
        proof {
            assert(prefix.drop_last() =~= v@.subrange(0, i as int));
            assert(prefix.last() == c);
        }
        if crate::text::is_whitespace(c) {
        } else if i >= 1 && !crate::text::is_whitespace(v[i - 1]) && r.len() > 0 {
            let ghost before = r@;
            let mut last = r.pop().unwrap();
            last.push(c);
            r.push(last);
            proof {
                assert(prefix[prefix.len() - 2] == v@[i - 1]);
                assert(strs(r@) =~= strs(before).update(strs(before).len() - 1, strs(before).last().push(c)));
            }
        } else {
            let ghost before = r@;
            let mut w = String::new();
            w.push(c);
            r.push(w);
            proof {
                if i >= 1 {
                    assert(prefix[prefix.len() - 2] == v@[i - 1]);
                }
                assert(strs(r@) =~= strs(before).push(seq![c]));
            }
        }
        i = i + 1;
    }
    proof {
        assert(v@.subrange(0, i as int) =~= v@);
    }
    r
}

/// The program and arguments that open `url` (see `url_open_spec`), given
/// the value of `BROWSER` and the platform.
pub fn url_open_command(url: &str, browser: Option<&str>, platform: Platform) -> (r: (String, Vec<String>))
    ensures
        (r.0@, strs(r.1@)) == url_open_spec(
            url@,
            match browser {
                Some(b) => Some(b@),
                None => None,
            },
            platform,
        ),
{
    if let Some(b) = browser {
        let all = crate::text::chars_of(b);
        let (start, end) = crate::text::trim_bounds(all.as_slice());
        if start < end {
            let t = crate::text::slice_to_vec(all.as_slice(), start, end);
            proof {
                assert(t@.last() == all@[end - 1]);
                lemma_words_nonempty(t@);
            }
            let mut parts = split_words(&t);
            let ghost w = strs(parts@);
            let program = parts.remove(0);
            parts.push(crate::text::owned(url));
            proof {
                assert(strs(parts@) =~= w.drop_first().push(url@));
            }
            return (program, parts);
        }
    }
    let mut args: Vec<String> = Vec::new();
    let program = match platform {
        Platform::MacOs => {
            args.push(crate::text::owned(url));
            crate::text::owned("open")
        },
        Platform::Windows => {
            args.push(crate::text::owned("/C"));
            args.push(crate::text::owned("start"));
            args.push(String::new());
            args.push(crate::text::owned(url));
            crate::text::owned("cmd")
        },
        Platform::Other => {
            args.push(crate::text::owned(url));
            crate::text::owned("xdg-open")
        },
    };
    proof {
        assert(strs(args@) =~= url_open_spec(
            url@,
            match browser {
                Some(b) => Some(b@),
                None => None,
            },
            platform,
        ).1);
    }
    (program, args)
}

/// How a command the application ran ended.
#[derive(Debug, Clone, PartialEq, Eq)]
pub enum CommandRun {
    /// It exited with success.
    Succeeded,
    /// It exited with failure, printing this on its error output.
    Failed(String),
    /// It could not be started, for this reason.
    NotStarted(String),
}

/// What opening `url` with `program` is reported as: `Ok` with a status
/// message when it worked, `Err` with the error otherwise.
pub open spec fn url_open_report_spec(url: Seq<char>, program: Seq<char>, run: CommandRun) -> Result<Seq<char>, Seq<char>> {
    match run {
        CommandRun::Succeeded => Ok("opened "@ + url),
        CommandRun::Failed(stderr) => if trim(stderr@).len() == 0 {
            Err("`"@ + program + "` failed to open URL without an error message"@)
        } else {
            Err("`"@ + program + "` failed to open URL: "@ + trim(stderr@))
        },
        CommandRun::NotStarted(e) => Err("failed to execute `"@ + program + "` for URL open: "@ + e@),
    }
}

/// What opening a link is reported as (see `url_open_report_spec`).
pub fn url_open_report(url: &str, program: &str, run: &CommandRun) -> (r: Result<String, String>)
    ensures
        match r {
            Ok(s) => url_open_report_spec(url@, program@, *run) == Ok::<Seq<char>, Seq<char>>(s@),
            Err(s) => url_open_report_spec(url@, program@, *run) == Err::<Seq<char>, Seq<char>>(s@),
        },
{
    let mut s = String::new();
    match run {
        CommandRun::Succeeded => {
            push_str(&mut s, "opened ");
            push_str(&mut s, url);
            Ok(s)
        },
        CommandRun::Failed(stderr) => {
            let details = crate::text::trim_str(stderr.as_str());
            push_str(&mut s, "`");
            push_str(&mut s, program);
            if details.as_str().is_empty() {
                push_str(&mut s, "` failed to open URL without an error message");
            } else {
                push_str(&mut s, "` failed to open URL: ");
                push_str(&mut s, details.as_str());
            }
            Err(s)
        },
        CommandRun::NotStarted(e) => {
            push_str(&mut s, "failed to execute `");
            push_str(&mut s, program);
            push_str(&mut s, "` for URL open: ");
            push_str(&mut s, e.as_str());
            Err(s)
        },
    }
}

/// What opening `id` in the browser with `gh` is reported as.
pub open spec fn web_open_report_spec(id: IdView, run: CommandRun) -> Result<Seq<char>, Seq<char>> {
    match run {
        CommandRun::Succeeded => Ok("opened "@ + canonical_name_spec(id)),
        CommandRun::Failed(stderr) => if trim(stderr@).len() == 0 {
            Err("`gh` web open failed without an error message"@)
        } else {
            Err("`gh` web open failed: "@ + trim(stderr@))
        },
        CommandRun::NotStarted(e) => Err("failed to execute `gh` web open: "@ + e@),
    }
}

/// What opening a resource in the browser is reported as (see `web_open_report_spec`).
pub fn web_open_report(id: &ResourceId, run: &CommandRun) -> (r: Result<String, String>)
    ensures
        match r {
            Ok(s) => web_open_report_spec(id@, *run) == Ok::<Seq<char>, Seq<char>>(s@),
            Err(s) => web_open_report_spec(id@, *run) == Err::<Seq<char>, Seq<char>>(s@),
        },
{
    let mut s = String::new();
    match run {
        CommandRun::Succeeded => {
            push_str(&mut s, "opened ");
            push_str(&mut s, id.canonical_name().as_str());
            Ok(s)
        },
        CommandRun::Failed(stderr) => {
            let details = crate::text::trim_str(stderr.as_str());
            if details.as_str().is_empty() {
                push_str(&mut s, "`gh` web open failed without an error message");
            } else {
                push_str(&mut s, "`gh` web open failed: ");
                push_str(&mut s, details.as_str());
            }
            Err(s)
        },
        CommandRun::NotStarted(e) => {
            push_str(&mut s, "failed to execute `gh` web open: ");
            push_str(&mut s, e.as_str());
            Err(s)
        },
    }
}

/// Nanoseconds in a second.
pub const NANOS_PER_SECOND: u128 = 1_000_000_000;

/// Whether the automatic refresh is due: only against live GitHub, only
/// with an interval of at least a whole second, and once that long has
/// passed. Durations are in nanoseconds.
pub fn auto_refresh_due(live_refresh: bool, refresh_interval: u128, elapsed: u128) -> (b: bool)
    ensures
        b == (live_refresh && refresh_interval >= NANOS_PER_SECOND && elapsed >= refresh_interval),
{
    live_refresh && refresh_interval >= NANOS_PER_SECOND && elapsed >= refresh_interval
}

/// Two decimal digits of `n`, with a leading zero.
pub open spec fn two_digits(n: nat) -> Seq<char> {
    seq![crate::text::digit_char(n / 10), crate::text::digit_char(n % 10)]
}

/// The time of day (UTC) a refresh happened at, `HH:MM:SS UTC`, from the
/// seconds since the Unix epoch.
pub open spec fn refresh_label_spec(seconds: u64) -> Seq<char> {
    let s = seconds as nat % 86400;
    two_digits(s / 3600) + seq![':'] + two_digits((s % 3600) / 60) + seq![':'] + two_digits(s % 60) + " UTC"@
}

fn push_two_digits(s: &mut String, n: u64)
    requires
        n < 100,
    ensures
        final(s)@ == old(s)@ + two_digits(n as nat),
{
    s.push(crate::text::digit_to_char(n / 10));
    s.push(crate::text::digit_to_char(n % 10));
    proof {
        assert(final(s)@ =~= old(s)@ + two_digits(n as nat));
    }
}

/// The time of day a refresh happened at (see `refresh_label_spec`).
pub fn refresh_label(seconds_since_epoch: u64) -> (s: String)
    ensures
        s@ == refresh_label_spec(seconds_since_epoch),
{
    let secs = seconds_since_epoch % 86400;
    let mut s = String::new();
    push_two_digits(&mut s, secs / 3600);
    s.push(':');
    push_two_digits(&mut s, (secs % 3600) / 60);
    s.push(':');
    push_two_digits(&mut s, secs % 60);
    push_str(&mut s, " UTC");
    proof {
        assert(s@ =~= refresh_label_spec(seconds_since_epoch));
    }
    s
}

} // verus!
