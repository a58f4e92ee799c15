//! The Herdr plugin: which clicked links it opens, the keys its state files
//! are named by, and how it reads Herdr's answers. Running Herdr and the
//! viewer, and the state files themselves, are outside the library.
use vstd::prelude::*;

use crate::domain::resource::{opt_str, strs};
use crate::domain::resource_id::{parse_spec, web_url_spec, ResourceId};
use crate::github::dto::JsonValue;
use crate::github::json::{path_of, text_at, text_at_path};
use crate::github::gh_cli::or_else;
use crate::paths::{join_path, path_join};
use crate::text::{push_str, starts_with, trim};
use vstd::string::StringSliceAdditionalSpecFns;

verus! {

/// The plugin id used when Herdr does not name one.
pub const DEFAULT_PLUGIN_ID: &'static str = "dutifuldev.ghzinga";

/// The entrypoint of the viewer pane.
pub const VIEWER_ENTRYPOINT: &'static str = "viewer";

/// The plugin's usage line.
pub const PLUGIN_USAGE: &'static str = "usage: gzg herdr-plugin <open|viewer>";

/// What the plugin's command line asks for.
#[derive(Debug, Clone, Copy, PartialEq, Eq, Structural)]
pub enum PluginCommand {
    /// Open the clicked link in the viewer pane.
    Open,
    /// Run as the viewer.
    Viewer,
    /// Print `PLUGIN_USAGE` and exit with status 0.
    Help,
    /// Print `PLUGIN_USAGE` to standard error and exit with status 2.
    Usage,
}

/// The command that the plugin's arguments name: the first argument picks
/// `open`, `viewer` or help (`help`, `--help`, `-h`); anything else, or no
/// argument, is a usage error.
pub open spec fn plugin_command_spec(args: Seq<Seq<char>>) -> PluginCommand {
    if args.len() == 0 {
        PluginCommand::Usage
    } else if args[0] == "open"@ {
        PluginCommand::Open
    } else if args[0] == "viewer"@ {
        PluginCommand::Viewer
    } else if args[0] == "help"@ || args[0] == "--help"@ || args[0] == "-h"@ {
        PluginCommand::Help
    } else {
        PluginCommand::Usage
    }
}

/// The command that the plugin's arguments name (see `plugin_command_spec`);
/// the caller runs it.
pub fn run_command(args: &[String]) -> (c: PluginCommand)
    ensures
        c == plugin_command_spec(strs(args@)),
{
    if args.len() == 0 {
        return PluginCommand::Usage;
    }
    let first = args[0].as_str();
    proof {
        assert(strs(args@)[0] == first@);
    }
    if crate::text::str_eq(first, "open") {
        PluginCommand::Open
    } else if crate::text::str_eq(first, "viewer") {
        PluginCommand::Viewer
    } else if crate::text::str_eq(first, "help") || crate::text::str_eq(first, "--help")
        || crate::text::str_eq(first, "-h") {
        PluginCommand::Help
    } else {
        PluginCommand::Usage
    }
}

/// The canonical web address of the issue or pull request a clicked GitHub
/// link points at; any other link is refused.
pub open spec fn normalize_url_spec(input: Seq<char>) -> Result<Seq<char>, Seq<char>> {
    let t = trim(input);
    let refused = "unsupported GitHub issue/PR URL: "@ + input;
    if !starts_with(t, "https://github.com/"@) {
        Err(refused)
    } else {
        match parse_spec(t, None) {
            Ok(id) => match id.kind_hint {
                Some(k) => Ok(web_url_spec(id, k)),
                None => Err(refused),
            },
            Err(_) => Err(refused),
        }
    }
}

/// The canonical web address of a clicked issue or pull request link (see
/// `normalize_url_spec`).
pub fn normalize_github_issue_or_pr_url(input: &str) -> (r: Result<String, String>)
    ensures
        match r {
            Ok(s) => normalize_url_spec(input@) == Ok::<Seq<char>, Seq<char>>(s@),
            Err(e) => normalize_url_spec(input@) == Err::<Seq<char>, Seq<char>>(e@),
        },
{
    let trimmed = crate::text::trim_str(input);
    let mut refused = crate::text::owned("unsupported GitHub issue/PR URL: ");
    push_str(&mut refused, input);
    let t = crate::text::chars_of(trimmed.as_str());
    let prefix = crate::text::chars_of("https://github.com/");
    if !crate::text::chars_start_with(t.as_slice(), prefix.as_slice()) {
        return Err(refused);
    }
    match ResourceId::parse(trimmed.as_str()) {
        Ok(id) => match id.kind_hint {
            Some(k) => Ok(id.web_url_for_kind(k)),
            None => Err(refused),
        },
        Err(_) => Err(refused),
    }
}

/// A pane id with every character other than an ASCII letter, digit, `_`
/// or `-` replaced by `_`, fit for a file name.
pub open spec fn pane_key_spec(pane: Seq<char>) -> Seq<char> {
    pane.map_values(|c: char| if ('a' <= c <= 'z') || ('A' <= c <= 'Z') || ('0' <= c <= '9') || c == '_' || c == '-' { c } else { '_' })
}

/// The state-file key of a pane (see `pane_key_spec`).
pub fn state_key_for_pane(pane_id: &str) -> (s: String)
    ensures
        s@ == pane_key_spec(pane_id@),
{
    let v = crate::text::chars_of(pane_id);
    let mut s = String::new();
    let mut i: usize = 0;
    while i < v.len()
        invariant
            i <= v@.len(),
            s@ == pane_key_spec(v@.subrange(0, i as int)),
        decreases v.len() - i,
    {
        let c = v[i];
        let kept = ('a' <= c && c <= 'z') || ('A' <= c && c <= 'Z') || ('0' <= c && c <= '9') || c == '_' || c == '-';
        s.push(if kept { c } else { '_' });
        proof {
            assert(pane_key_spec(v@.subrange(0, i + 1)) =~= pane_key_spec(v@.subrange(0, i as int)).push(
                if kept { c } else { '_' },
            ));
        }
        i = i + 1;
    }
    proof {
        assert(v@.subrange(0, i as int) =~= v@);
    }
    s
}

/// The 64-bit FNV-1a hash of `bytes`.
pub open spec fn fnv1a(bytes: Seq<u8>) -> u64
    decreases bytes.len(),
{
    if bytes.len() == 0 {
        0xcbf29ce484222325u64
    } else {
        let h = fnv1a(bytes.drop_last()) ^ (bytes.last() as u64);
        ((h as nat * 0x100000001b3nat) % 0x1_0000_0000_0000_0000nat) as u64
    }
}

pub open spec fn hex_digit(d: nat) -> char {
    if d < 10 {
        ((d + 48) as u32) as char
    } else {
        ((d + 87) as u32) as char
    }
}

/// The last `count` hexadecimal digits of `n`, in lower case.
pub open spec fn hex_digits(n: nat, count: nat) -> Seq<char>
    decreases count,
{
    if count == 0 {
        Seq::empty()
    } else {
        hex_digits(n / 16, (count - 1) as nat).push(hex_digit(n % 16))
    }
}

fn hex_char(d: u64) -> (c: char)
    requires
        d < 16,
    ensures
        c == hex_digit(d as nat),
{
    if d < 10 {
        ((d + 48) as u8) as char
    } else {
        ((d + 87) as u8) as char
    }
}

fn push_hex(s: &mut String, n: u64, count: u64)
    ensures
        final(s)@ == old(s)@ + hex_digits(n as nat, count as nat),
    decreases count,
{
    if count > 0 {
        push_hex(s, n / 16, count - 1);
        s.push(hex_char(n % 16));
        proof {
            assert(old(s)@ + hex_digits(n as nat, count as nat) =~= old(s)@ + hex_digits((n / 16) as nat, (count - 1) as nat) + seq![hex_digit((n % 16) as nat)]);
        }
    } else {
        proof {
            assert(old(s)@ + hex_digits(n as nat, 0) =~= old(s)@);
        }
    }
}

/// A key for `input` that stays the same from run to run: the FNV-1a hash
/// of its UTF-8 bytes, as sixteen lower-case hexadecimal digits.
pub fn stable_key_for_text(input: &str) -> (s: String)
    ensures
        s@ == hex_digits(fnv1a(input.spec_bytes()) as nat, 16),
{
    let bytes = input.as_bytes();
    let mut hash: u64 = 0xcbf29ce484222325u64;
    let mut i: usize = 0;
    while i < bytes.len()
        invariant
            i <= bytes@.len(),
            bytes@ == input.spec_bytes(),
            hash == fnv1a(bytes@.subrange(0, i as int)),
        decreases bytes.len() - i,
    {
        proof {
            assert(bytes@.subrange(0, i + 1).drop_last() =~= bytes@.subrange(0, i as int));
        }
        hash = hash ^ (bytes[i] as u64);
        hash = hash.wrapping_mul(0x100000001b3u64);
        i = i + 1;
    }
    proof {
        assert(bytes@.subrange(0, i as int) =~= bytes@);
    }
    let mut s = String::new();
    push_hex(&mut s, hash, 16);
    s
}

/// The stable key of a text (see `stable_key_for_text`).
pub open spec fn text_key(s: &str) -> Seq<char> {
    hex_digits(fnv1a(s.spec_bytes()) as nat, 16)
}

/// The key of the Herdr instance: by its socket path when set, else by its
/// session name when set, else `default`.
pub open spec fn scope_key_spec(socket: Option<&str>, session: Option<&str>) -> Seq<char> {
    match socket {
        Some(s) if s@.len() > 0 => "socket_"@ + text_key(s),
        _ => match session {
            Some(s) if s@.len() > 0 => "session_"@ + text_key(s),
            _ => "default"@,
        },
    }
}

/// The key of the Herdr instance, given `HERDR_SOCKET_PATH` and
/// `HERDR_SESSION` (see `scope_key_spec`).
pub fn herdr_scope_key(socket: Option<&str>, session: Option<&str>) -> (s: String)
    ensures
        s@ == scope_key_spec(socket, session),
{
    if let Some(x) = socket {
        if !x.is_empty() {
            let mut s = crate::text::owned("socket_");
            push_str(&mut s, stable_key_for_text(x).as_str());
            return s;
        }
    }
    if let Some(x) = session {
        if !x.is_empty() {
            let mut s = crate::text::owned("session_");
            push_str(&mut s, stable_key_for_text(x).as_str());
            return s;
        }
    }
    crate::text::owned("default")
}

/// The state key of a pane within a Herdr instance.
pub fn herdr_source_key(scope_key: &str, source_pane: &str) -> (s: String)
    ensures
        s@ == scope_key@ + seq!['_'] + pane_key_spec(source_pane@),
{
    let mut s = crate::text::owned(scope_key);
    s.push('_');
    push_str(&mut s, state_key_for_pane(source_pane).as_str());
    s
}

/// The file that records which session a viewer pane shows.
pub fn viewer_session_file(state_dir: &str, source_key: &str) -> (p: String)
    ensures
        p@ == path_join(state_dir@, source_key@ + ".session"@),
{
    let mut name = crate::text::owned(source_key);
    push_str(&mut name, ".session");
    join_path(state_dir, name.as_str())
}

/// Whether Herdr's answer to a focus request names a viewer pane of
/// `plugin_id`; an answer that is not JSON names none.
pub open spec fn focuses_viewer_spec(response: Option<JsonValue>, plugin_id: Seq<char>) -> bool {
    match response {
        Some(v) => text_at(v, seq!["result"@, "plugin_pane"@, "plugin_id"@]) == Some(plugin_id)
            && text_at(v, seq!["result"@, "plugin_pane"@, "entrypoint"@]) == Some(VIEWER_ENTRYPOINT@),
        None => false,
    }
}

/// Whether Herdr's answer names a viewer pane of `plugin_id` (see `focuses_viewer_spec`).
pub fn plugin_focuses_viewer(response: &Option<JsonValue>, plugin_id: &str) -> (b: bool)
    ensures
        b == focuses_viewer_spec(*response, plugin_id@),
{
    match response {
        Some(v) => {
            let pid = path_of(&["result", "plugin_pane", "plugin_id"]);
            let entry = path_of(&["result", "plugin_pane", "entrypoint"]);
            proof {
                assert(crate::domain::resource::strs(pid@) =~= seq!["result"@, "plugin_pane"@, "plugin_id"@]);
                assert(crate::domain::resource::strs(entry@) =~= seq!["result"@, "plugin_pane"@, "entrypoint"@]);
            }
            let a = match text_at_path(v, &pid) {
                Some(t) => crate::text::str_eq(t.as_str(), plugin_id),
                None => false,
            };
            let b = match text_at_path(v, &entry) {
                Some(t) => crate::text::str_eq(t.as_str(), VIEWER_ENTRYPOINT),
                None => false,
            };
            a && b
        },
        None => false,
    }
}

/// The pane Herdr opened, from its answer: under `pane`, else directly.
pub open spec fn opened_pane_spec(response: Option<JsonValue>) -> Option<Seq<char>> {
    match response {
        Some(v) => or_else(
            text_at(v, seq!["result"@, "plugin_pane"@, "pane"@, "pane_id"@]),
            text_at(v, seq!["result"@, "plugin_pane"@, "pane_id"@]),
        ),
        None => None,
    }
}

/// The pane Herdr opened (see `opened_pane_spec`).
pub fn plugin_pane_id_from_response(response: &Option<JsonValue>) -> (r: Option<String>)
    ensures
        opt_str(r) == opened_pane_spec(*response),
{
    match response {
        Some(v) => {
            let nested = path_of(&["result", "plugin_pane", "pane", "pane_id"]);
            let direct = path_of(&["result", "plugin_pane", "pane_id"]);
            proof {
                assert(crate::domain::resource::strs(nested@) =~= seq!["result"@, "plugin_pane"@, "pane"@, "pane_id"@]);
                assert(crate::domain::resource::strs(direct@) =~= seq!["result"@, "plugin_pane"@, "pane_id"@]);
            }
            match text_at_path(v, &nested) {
                Some(p) => Some(p),
                None => text_at_path(v, &direct),
            }
        },
        None => None,
    }
}

/// What opening a clicked link works with: the link's canonical target, the
/// pane it was clicked in, the plugin id, the viewer program, the plugin's
/// state directory and the scope key of the Herdr instance.
#[derive(Debug, Clone)]
pub struct OpenContext {
    pub target: String,
    pub source_pane: String,
    pub plugin_id: String,
    pub viewer_bin: String,
    pub state_dir: String,
    pub scope_key: String,
}

pub struct OpenContextView {
    pub target: Seq<char>,
    pub source_pane: Seq<char>,
    pub plugin_id: Seq<char>,
    pub viewer_bin: Seq<char>,
    pub state_dir: Seq<char>,
    pub scope_key: Seq<char>,
}

impl View for OpenContext {
    type V = OpenContextView;

    open spec fn view(&self) -> OpenContextView {
        OpenContextView {
            target: self.target@,
            source_pane: self.source_pane@,
            plugin_id: self.plugin_id@,
            viewer_bin: self.viewer_bin@,
            state_dir: self.state_dir@,
            scope_key: self.scope_key@,
        }
    }
}

/// Where opening a clicked link stands.
#[derive(Debug, Clone, PartialEq, Eq)]
pub enum OpenState {
    /// Waiting for the session recorded for the clicked pane.
    AwaitSession,
    /// Waiting to hear whether the focused pane is a viewer of ours.
    AwaitFocus(Option<String>),
    /// Waiting for the viewer pane recorded for the clicked pane.
    AwaitStoredPane,
    /// Waiting to hear whether the recorded pane still is a viewer of ours.
    AwaitPaneCheck,
    /// Waiting for the id of the newly opened viewer pane.
    AwaitOpened,
    /// Finished.
    Done,
}

pub enum OpenStateView {
    AwaitSession,
    AwaitFocus(Option<Seq<char>>),
    AwaitStoredPane,
    AwaitPaneCheck,
    AwaitOpened,
    Done,
}

impl View for OpenState {
    type V = OpenStateView;

    open spec fn view(&self) -> OpenStateView {
        match self {
            OpenState::AwaitSession => OpenStateView::AwaitSession,
            OpenState::AwaitFocus(s) => OpenStateView::AwaitFocus(opt_str(*s)),
            OpenState::AwaitStoredPane => OpenStateView::AwaitStoredPane,
            OpenState::AwaitPaneCheck => OpenStateView::AwaitPaneCheck,
            OpenState::AwaitOpened => OpenStateView::AwaitOpened,
            OpenState::Done => OpenStateView::Done,
        }
    }
}

/// What the outside work reported.
#[derive(Debug, Clone)]
pub enum OpenEvent {
    /// The first line of the clicked pane's session file, if any.
    SessionRead(Option<String>),
    /// Whether focusing the clicked pane showed a viewer of ours.
    FocusChecked(bool),
    /// The first line of the pane file, if any.
    StoredPaneRead(Option<String>),
    /// Whether the recorded pane exists and focusing it showed a viewer of ours.
    StoredPaneChecked(bool),
    /// The id of the opened pane, if Herdr's answer named one.
    PaneOpened(Option<String>),
}

pub enum OpenEventView {
    SessionRead(Option<Seq<char>>),
    FocusChecked(bool),
    StoredPaneRead(Option<Seq<char>>),
    StoredPaneChecked(bool),
    PaneOpened(Option<Seq<char>>),
}

impl View for OpenEvent {
    type V = OpenEventView;

    open spec fn view(&self) -> OpenEventView {
        match self {
            OpenEvent::SessionRead(s) => OpenEventView::SessionRead(opt_str(*s)),
            OpenEvent::FocusChecked(b) => OpenEventView::FocusChecked(*b),
            OpenEvent::StoredPaneRead(p) => OpenEventView::StoredPaneRead(opt_str(*p)),
            OpenEvent::StoredPaneChecked(b) => OpenEventView::StoredPaneChecked(*b),
            OpenEvent::PaneOpened(p) => OpenEventView::PaneOpened(opt_str(*p)),
        }
    }
}

/// The outside work to do next.
#[derive(Debug, Clone, PartialEq, Eq)]
pub enum OpenAction {
    /// Read the first line of this session file.
    ReadSession(String),
    /// Focus this pane and tell whether it is a viewer of ours.
    CheckFocus(String),
    /// Ask the viewer session to open the target (then exit with its status).
    OpenInSession { session: String, target: String },
    /// Ask the session of the current context to open the target.
    OpenHere { target: String },
    /// Read the first line of this pane file.
    ReadStoredPane(String),
    /// Check that this pane exists and focus it, telling whether it is a viewer of ours.
    CheckStoredPane(String),
    /// Run Herdr with these arguments to open a viewer pane.
    OpenPane(Vec<String>),
    /// Write each line to its file, then exit with status 0.
    Record { pane_file: String, pane_line: String, session_file: String, session_line: String },
    /// Warn that Herdr's answer named no pane, then exit with status 0.
    WarnNoPane,
    /// Nothing: the event does not belong to the state.
    Nothing,
}

pub enum OpenActionView {
    ReadSession(Seq<char>),
    CheckFocus(Seq<char>),
    OpenInSession { session: Seq<char>, target: Seq<char> },
    OpenHere { target: Seq<char> },
    ReadStoredPane(Seq<char>),
    CheckStoredPane(Seq<char>),
    OpenPane(Seq<Seq<char>>),
    Record { pane_file: Seq<char>, pane_line: Seq<char>, session_file: Seq<char>, session_line: Seq<char> },
    WarnNoPane,
    Nothing,
}

impl View for OpenAction {
    type V = OpenActionView;

    open spec fn view(&self) -> OpenActionView {
        match self {
            OpenAction::ReadSession(p) => OpenActionView::ReadSession(p@),
            OpenAction::CheckFocus(p) => OpenActionView::CheckFocus(p@),
            OpenAction::OpenInSession { session, target } => OpenActionView::OpenInSession { session: session@, target: target@ },
            OpenAction::OpenHere { target } => OpenActionView::OpenHere { target: target@ },
            OpenAction::ReadStoredPane(p) => OpenActionView::ReadStoredPane(p@),
            OpenAction::CheckStoredPane(p) => OpenActionView::CheckStoredPane(p@),
            OpenAction::OpenPane(args) => OpenActionView::OpenPane(strs(args@)),
            OpenAction::Record { pane_file, pane_line, session_file, session_line } => OpenActionView::Record {
                pane_file: pane_file@,
                pane_line: pane_line@,
                session_file: session_file@,
                session_line: session_line@,
            },
            OpenAction::WarnNoPane => OpenActionView::WarnNoPane,
            OpenAction::Nothing => OpenActionView::Nothing,
        }
    }
}

/// The state key of `pane` in the Herdr instance of scope `scope`.
pub open spec fn source_key_spec(scope: Seq<char>, pane: Seq<char>) -> Seq<char> {
    scope + seq!['_'] + pane_key_spec(pane)
}

/// The file recording the session a pane's viewer shows.
pub open spec fn session_file_spec(c: OpenContextView, pane: Seq<char>) -> Seq<char> {
    path_join(c.state_dir, source_key_spec(c.scope_key, pane) + ".session"@)
}

/// The file recording the viewer pane opened from the clicked pane.
pub open spec fn pane_file_spec(c: OpenContextView) -> Seq<char> {
    path_join(c.state_dir, source_key_spec(c.scope_key, c.source_pane) + ".pane"@)
}

/// The session a viewer opened from the clicked pane shows.
pub open spec fn viewer_session_spec(c: OpenContextView) -> Seq<char> {
    "herdr-ghzinga-"@ + source_key_spec(c.scope_key, c.source_pane)
}

/// The Herdr arguments that open a viewer pane to the right of the clicked
/// pane, focused, showing the target in the viewer session.
pub open spec fn open_pane_args_spec(c: OpenContextView) -> Seq<Seq<char>> {
    seq![
        "plugin"@, "pane"@, "open"@, "--plugin"@, c.plugin_id, "--entrypoint"@, "viewer"@,
        "--placement"@, "split"@, "--target-pane"@, c.source_pane, "--direction"@, "right"@,
        "--env"@, "GHZINGA_TARGET="@ + c.target, "--env"@, "GHZINGA_SESSION="@ + viewer_session_spec(c),
        "--env"@, "GHZINGA_BIN="@ + c.viewer_bin, "--focus"@,
    ]
}

/// One step of opening a clicked link: a viewer of ours in focus opens the
/// target in its recorded session (or in the current context's session when
/// none is recorded); else the viewer pane recorded for the clicked pane is
/// reused when it still is one of ours; else a new viewer pane is opened and
/// recorded, with a warning when Herdr's answer names no pane.
pub open spec fn open_step_spec(c: OpenContextView, s: OpenStateView, e: OpenEventView) -> (OpenStateView, OpenActionView) {
    match (s, e) {
        (OpenStateView::AwaitSession, OpenEventView::SessionRead(session)) => (
            OpenStateView::AwaitFocus(session),
            OpenActionView::CheckFocus(c.source_pane),
        ),
        (OpenStateView::AwaitFocus(session), OpenEventView::FocusChecked(ours)) => if ours {
            (OpenStateView::Done, match session {
                Some(name) => OpenActionView::OpenInSession { session: name, target: c.target },
                None => OpenActionView::OpenHere { target: c.target },
            })
        } else {
            (OpenStateView::AwaitStoredPane, OpenActionView::ReadStoredPane(pane_file_spec(c)))
        },
        (OpenStateView::AwaitStoredPane, OpenEventView::StoredPaneRead(pane)) => match pane {
            Some(p) => (OpenStateView::AwaitPaneCheck, OpenActionView::CheckStoredPane(p)),
            None => (OpenStateView::AwaitOpened, OpenActionView::OpenPane(open_pane_args_spec(c))),
        },
        (OpenStateView::AwaitPaneCheck, OpenEventView::StoredPaneChecked(ours)) => if ours {
            (OpenStateView::Done, OpenActionView::OpenInSession { session: viewer_session_spec(c), target: c.target })
        } else {
            (OpenStateView::AwaitOpened, OpenActionView::OpenPane(open_pane_args_spec(c)))
        },
        (OpenStateView::AwaitOpened, OpenEventView::PaneOpened(pane)) => (OpenStateView::Done, match pane {
            Some(p) => OpenActionView::Record {
                pane_file: pane_file_spec(c),
                pane_line: p.push('\n'),
                session_file: session_file_spec(c, p),
                session_line: viewer_session_spec(c).push('\n'),
            },
            None => OpenActionView::WarnNoPane,
        }),
        _ => (s, OpenActionView::Nothing),
    }
}

/// The state key of `pane` in this context's Herdr instance.
fn source_key_of(c: &OpenContext, pane: &str) -> (k: String)
    ensures
        k@ == source_key_spec(c.scope_key@, pane@),
{
    herdr_source_key(c.scope_key.as_str(), pane)
}

fn viewer_session_of(c: &OpenContext) -> (s: String)
    ensures
        s@ == viewer_session_spec(c@),
{
    let mut s = crate::text::owned("herdr-ghzinga-");
    let key = source_key_of(c, c.source_pane.as_str());
    push_str(&mut s, key.as_str());
    proof {
        reveal_strlit("herdr-ghzinga-");
    }
    s
}

fn with_prefix(prefix: &str, value: &str) -> (s: String)
    ensures
        s@ == prefix@ + value@,
{
    let mut s = crate::text::owned(prefix);
    push_str(&mut s, value);
    s
}

/// The Herdr arguments that open a viewer pane (see `open_pane_args_spec`).
pub fn open_pane_args(c: &OpenContext) -> (args: Vec<String>)
    ensures
        strs(args@) == open_pane_args_spec(c@),
{
    let mut args: Vec<String> = Vec::new();
    args.push(crate::text::owned("plugin"));
    args.push(crate::text::owned("pane"));
    args.push(crate::text::owned("open"));
    args.push(crate::text::owned("--plugin"));
    args.push(c.plugin_id.clone());
    args.push(crate::text::owned("--entrypoint"));
    args.push(crate::text::owned(VIEWER_ENTRYPOINT));
    args.push(crate::text::owned("--placement"));
    args.push(crate::text::owned("split"));
    args.push(crate::text::owned("--target-pane"));
    args.push(c.source_pane.clone());
    args.push(crate::text::owned("--direction"));
    args.push(crate::text::owned("right"));
    args.push(crate::text::owned("--env"));
    args.push(with_prefix("GHZINGA_TARGET=", c.target.as_str()));
    args.push(crate::text::owned("--env"));
    let session = viewer_session_of(c);
    args.push(with_prefix("GHZINGA_SESSION=", session.as_str()));
    args.push(crate::text::owned("--env"));
    args.push(with_prefix("GHZINGA_BIN=", c.viewer_bin.as_str()));
    args.push(crate::text::owned("--focus"));
    proof {
        reveal_strlit("viewer");
        assert(strs(args@) =~= open_pane_args_spec(c@));
    }
    args
}

/// How opening a clicked link begins: by reading the session recorded for
/// the clicked pane.
pub fn open_start(c: &OpenContext) -> (r: (OpenState, OpenAction))
    ensures
        r.0@ == OpenStateView::AwaitSession,
        r.1@ == OpenActionView::ReadSession(session_file_spec(c@, c.source_pane@)),
{
    let key = source_key_of(c, c.source_pane.as_str());
    let mut name = key;
    push_str(&mut name, ".session");
    (OpenState::AwaitSession, OpenAction::ReadSession(join_path(c.state_dir.as_str(), name.as_str())))
}

/// One step of opening a clicked link (see `open_step_spec`).
pub fn open_step(c: &OpenContext, state: OpenState, event: OpenEvent) -> (r: (OpenState, OpenAction))
    ensures
        (r.0@, r.1@) == open_step_spec(c@, state@, event@),
{
    match (state, event) {
        (OpenState::AwaitSession, OpenEvent::SessionRead(session)) => (
            OpenState::AwaitFocus(session),
            OpenAction::CheckFocus(c.source_pane.clone()),
        ),
        (OpenState::AwaitFocus(session), OpenEvent::FocusChecked(ours)) => {
            if ours {
                match session {
                    Some(name) => (OpenState::Done, OpenAction::OpenInSession { session: name, target: c.target.clone() }),
                    None => (OpenState::Done, OpenAction::OpenHere { target: c.target.clone() }),
                }
            } else {
                let key = source_key_of(c, c.source_pane.as_str());
                let mut name = key;
                push_str(&mut name, ".pane");
                (OpenState::AwaitStoredPane, OpenAction::ReadStoredPane(join_path(c.state_dir.as_str(), name.as_str())))
            }
        },
        (OpenState::AwaitStoredPane, OpenEvent::StoredPaneRead(pane)) => match pane {
            Some(p) => (OpenState::AwaitPaneCheck, OpenAction::CheckStoredPane(p)),
            None => (OpenState::AwaitOpened, OpenAction::OpenPane(open_pane_args(c))),
        },
        (OpenState::AwaitPaneCheck, OpenEvent::StoredPaneChecked(ours)) => {
            if ours {
                (OpenState::Done, OpenAction::OpenInSession { session: viewer_session_of(c), target: c.target.clone() })
            } else {
                (OpenState::AwaitOpened, OpenAction::OpenPane(open_pane_args(c)))
            }
        },
        (OpenState::AwaitOpened, OpenEvent::PaneOpened(pane)) => match pane {
            Some(p) => {
                let key = source_key_of(c, c.source_pane.as_str());
                let mut pane_name = key;
                push_str(&mut pane_name, ".pane");
                let pane_file = join_path(c.state_dir.as_str(), pane_name.as_str());
                let mut pane_line = p.clone();
                pane_line.push('\n');
                let opened_key = source_key_of(c, p.as_str());
                let mut session_name = opened_key;
                push_str(&mut session_name, ".session");
                let session_file = join_path(c.state_dir.as_str(), session_name.as_str());
                let mut session_line = viewer_session_of(c);
                session_line.push('\n');
                (OpenState::Done, OpenAction::Record { pane_file, pane_line, session_file, session_line })
            },
            None => (OpenState::Done, OpenAction::WarnNoPane),
        },
        (state, _) => (state, OpenAction::Nothing),
    }
}

} // verus!
