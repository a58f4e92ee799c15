//! View state of the application: the detail tabs of a resource, the blocks
//! a reader can expand, the prompts, and how a typed reference is read.
use vstd::prelude::*;

use crate::domain::copy::{copy_opt_string, copy_vec, DeepCopy};
use crate::domain::resource::{opt_str, strs, views, Resource, ResourceView};
use crate::domain::resource_id::{
    id_result_view, owner_repo_number_spec, parse_spec, strip_hash, IdView, ResourceId,
    ResourceIdError, ResourceKind, number_result,
};
use crate::text::{all_digits, chars_of, is_digit, is_ws, lower_seq, string_of, trim, trim_bounds};

verus! {

/// The detail views of a resource.
#[derive(Debug, Clone, Copy, PartialEq, Eq, Hash, Structural)]
pub enum Tab {
    Overview,
    Activity,
    Commits,
    Checks,
    Files,
    Links,
}

/// The tabs a resource of kind `kind` offers, in display order.
pub open spec fn tabs_for(kind: ResourceKind) -> Seq<Tab> {
    match kind {
        ResourceKind::PullRequest => seq![
            Tab::Overview,
            Tab::Activity,
            Tab::Commits,
            Tab::Checks,
            Tab::Files,
            Tab::Links,
        ],
        ResourceKind::Issue => seq![Tab::Overview, Tab::Activity, Tab::Links],
    }
}

/// The tab a typed name selects: case and surrounding whitespace do not
/// matter, and `comments` and `ci` are accepted for activity and checks.
pub open spec fn tab_from_name(input: Seq<char>) -> Option<Tab> {
    let t = lower_seq(trim(input));
    if t == "overview"@ {
        Some(Tab::Overview)
    } else if t == "activity"@ || t == "comments"@ {
        Some(Tab::Activity)
    } else if t == "commits"@ {
        Some(Tab::Commits)
    } else if t == "checks"@ || t == "ci"@ {
        Some(Tab::Checks)
    } else if t == "files"@ {
        Some(Tab::Files)
    } else if t == "links"@ {
        Some(Tab::Links)
    } else {
        None
    }
}

impl Tab {
    /// The title shown on the tab bar.
    pub fn label(self) -> (s: &'static str)
        ensures
            s@ == match self {
                Tab::Overview => "Overview"@,
                Tab::Activity => "Activity"@,
                Tab::Commits => "Commits"@,
                Tab::Checks => "Checks"@,
                Tab::Files => "Files"@,
                Tab::Links => "Links"@,
            },
    {
        match self {
            Tab::Overview => "Overview",
            Tab::Activity => "Activity",
            Tab::Commits => "Commits",
            Tab::Checks => "Checks",
            Tab::Files => "Files",
            Tab::Links => "Links",
        }
    }

    /// The name the tab is written with in commands and saved sessions.
    pub fn name(self) -> (s: &'static str)
        ensures
            s@ == match self {
                Tab::Overview => "overview"@,
                Tab::Activity => "activity"@,
                Tab::Commits => "commits"@,
                Tab::Checks => "checks"@,
                Tab::Files => "files"@,
                Tab::Links => "links"@,
            },
    {
        match self {
            Tab::Overview => "overview",
            Tab::Activity => "activity",
            Tab::Commits => "commits",
            Tab::Checks => "checks",
            Tab::Files => "files",
            Tab::Links => "links",
        }
    }

    /// The tabs a resource of kind `kind` offers: all six for a pull
    /// request, overview, activity and links for an issue.
    pub fn all_for(kind: ResourceKind) -> (tabs: Vec<Tab>)
        ensures
            tabs@ == tabs_for(kind),
    {
        let mut tabs: Vec<Tab> = Vec::new();
        tabs.push(Tab::Overview);
        tabs.push(Tab::Activity);
        match kind {
            ResourceKind::PullRequest => {
                tabs.push(Tab::Commits);
                tabs.push(Tab::Checks);
                tabs.push(Tab::Files);
            },
            ResourceKind::Issue => {},
        }
        tabs.push(Tab::Links);
        proof {
            assert(tabs@ =~= tabs_for(kind));
        }
        tabs
    }

    /// Reads a tab name (see `tab_from_name`).
    pub fn parse_name(input: &str) -> (r: Result<Tab, String>)
        ensures
            match tab_from_name(input@) {
                Some(t) => r == Ok::<Tab, String>(t),
                None => r is Err && r->Err_0@ == "expected one of overview, activity, commits, checks, files, links"@,
            },
    {
        let f = crate::text::folded(input);
        let t = f.as_str();
        if crate::text::str_eq(t, "overview") {
            Ok(Tab::Overview)
        } else if crate::text::str_eq(t, "activity") || crate::text::str_eq(t, "comments") {
            Ok(Tab::Activity)
        } else if crate::text::str_eq(t, "commits") {
            Ok(Tab::Commits)
        } else if crate::text::str_eq(t, "checks") || crate::text::str_eq(t, "ci") {
            Ok(Tab::Checks)
        } else if crate::text::str_eq(t, "files") {
            Ok(Tab::Files)
        } else if crate::text::str_eq(t, "links") {
            Ok(Tab::Links)
        } else {
            Err(crate::text::owned("expected one of overview, activity, commits, checks, files, links"))
        }
    }
}

impl std::str::FromStr for Tab {
    type Err = String;

    fn from_str(input: &str) -> Result<Self, Self::Err> {
        Tab::parse_name(input)
    }
}

/// A block of the detail view that can be expanded or collapsed.
#[derive(Debug, Clone, PartialEq, Eq, Hash)]
pub enum BlockId {
    Body,
    Activity(String),
    Commit(String),
    Check(String),
    File(String),
    Patch(String),
}

/// What a block id stands for, its texts as character sequences.
pub enum BlockIdView {
    Body,
    Activity(Seq<char>),
    Commit(Seq<char>),
    Check(Seq<char>),
    File(Seq<char>),
    Patch(Seq<char>),
}

impl View for BlockId {
    type V = BlockIdView;

    open spec fn view(&self) -> BlockIdView {
        match self {
            BlockId::Body => BlockIdView::Body,
            BlockId::Activity(s) => BlockIdView::Activity(s@),
            BlockId::Commit(s) => BlockIdView::Commit(s@),
            BlockId::Check(s) => BlockIdView::Check(s@),
            BlockId::File(s) => BlockIdView::File(s@),
            BlockId::Patch(s) => BlockIdView::Patch(s@),
        }
    }
}

impl BlockId {
    /// Whether two block ids name the same block.
    pub fn same_block(&self, other: &BlockId) -> (r: bool)
        ensures
            r == (self@ == other@),
    {
        match (self, other) {
            (BlockId::Body, BlockId::Body) => true,
            (BlockId::Activity(a), BlockId::Activity(b)) => *a == *b,
            (BlockId::Commit(a), BlockId::Commit(b)) => *a == *b,
            (BlockId::Check(a), BlockId::Check(b)) => *a == *b,
            (BlockId::File(a), BlockId::File(b)) => *a == *b,
            (BlockId::Patch(a), BlockId::Patch(b)) => *a == *b,
            _ => false,
        }
    }
}

impl DeepCopy for BlockId {
    fn deep_copy(&self) -> (r: Self) {
        match self {
            BlockId::Body => BlockId::Body,
            BlockId::Activity(s) => BlockId::Activity(s.clone()),
            BlockId::Commit(s) => BlockId::Commit(s.clone()),
            BlockId::Check(s) => BlockId::Check(s.clone()),
            BlockId::File(s) => BlockId::File(s.clone()),
            BlockId::Patch(s) => BlockId::Patch(s.clone()),
        }
    }
}

/// A fetch in flight and the frame of its spinner.
#[derive(Debug, Clone, PartialEq, Eq)]
pub struct LoadingState {
    pub target: ResourceId,
    pub message: String,
    pub request_id: u64,
    pub origin_tab_id: u64,
    /// The frame of the spinner, counting up and wrapping.
    pub frame: u8,
}

pub struct LoadingView {
    pub target: IdView,
    pub message: Seq<char>,
    pub request_id: u64,
    pub origin_tab_id: u64,
    pub frame: u8,
}

impl View for LoadingState {
    type V = LoadingView;

    open spec fn view(&self) -> LoadingView {
        LoadingView {
            target: self.target@,
            message: self.message@,
            request_id: self.request_id,
            origin_tab_id: self.origin_tab_id,
            frame: self.frame,
        }
    }
}

impl DeepCopy for LoadingState {
    fn deep_copy(&self) -> (r: Self) {
        LoadingState {
            target: self.target.deep_copy(),
            message: self.message.clone(),
            request_id: self.request_id,
            origin_tab_id: self.origin_tab_id,
            frame: self.frame,
        }
    }
}

/// Where a scrollbar drag started: the track's top row and height.
#[derive(Debug, Clone, Copy, PartialEq, Eq, Structural)]
pub struct ScrollbarDragState {
    pub top: u16,
    pub height: u16,
}

/// The view state kept for each open resource tab.
#[derive(Debug, Clone)]
pub struct ResourceTabState {
    pub id: u64,
    pub resource: Resource,
    pub latest_fetch_request_id: u64,
    pub active_tab: Tab,
    pub scroll: u16,
    pub scroll_limit: u16,
    pub reverse_chronological: bool,
    /// The expanded blocks, each at most once.
    pub expanded_blocks: Vec<BlockId>,
    pub history: Vec<ResourceId>,
    pub last_refreshed_at: Option<String>,
    pub last_refresh_had_changes: Option<bool>,
    pub last_refresh_changed_sections: Vec<String>,
    pub last_error: Option<String>,
    pub status_message: Option<String>,
}

/// The prompt that reads a reference to open.
#[derive(Debug, Clone)]
pub struct AddResourcePrompt {
    pub input: String,
    pub error: Option<String>,
    pub fallback_repo: ResourceId,
    pub mode: AddResourceMode,
}

/// Whether an opened reference gets a tab of its own or replaces the current one.
#[derive(Debug, Clone, Copy, PartialEq, Eq, Structural)]
pub enum AddResourceMode {
    NewTab,
    ReplaceCurrent,
}

/// The prompt offered on a link to another resource.
#[derive(Debug, Clone)]
pub struct ResourceLinkPrompt {
    pub id: ResourceId,
    pub url: Option<String>,
}

/// What a resource tab holds, as values.
pub struct TabStateView {
    pub id: u64,
    pub resource: ResourceView,
    pub latest_fetch_request_id: u64,
    pub active_tab: Tab,
    pub scroll: u16,
    pub scroll_limit: u16,
    pub reverse_chronological: bool,
    pub expanded_blocks: Seq<BlockIdView>,
    pub history: Seq<IdView>,
    pub last_refreshed_at: Option<Seq<char>>,
    pub last_refresh_had_changes: Option<bool>,
    pub last_refresh_changed_sections: Seq<Seq<char>>,
    pub last_error: Option<Seq<char>>,
    pub status_message: Option<Seq<char>>,
}

impl View for ResourceTabState {
    type V = TabStateView;

    open spec fn view(&self) -> TabStateView {
        TabStateView {
            id: self.id,
            resource: self.resource@,
            latest_fetch_request_id: self.latest_fetch_request_id,
            active_tab: self.active_tab,
            scroll: self.scroll,
            scroll_limit: self.scroll_limit,
            reverse_chronological: self.reverse_chronological,
            expanded_blocks: views(self.expanded_blocks@),
            history: views(self.history@),
            last_refreshed_at: opt_str(self.last_refreshed_at),
            last_refresh_had_changes: self.last_refresh_had_changes,
            last_refresh_changed_sections: strs(self.last_refresh_changed_sections@),
            last_error: opt_str(self.last_error),
            status_message: opt_str(self.status_message),
        }
    }
}

/// A fresh tab on `resource`: the overview, at the top, nothing expanded.
pub open spec fn fresh_tab(id: u64, resource: ResourceView) -> TabStateView {
    TabStateView {
        id,
        resource,
        latest_fetch_request_id: 0,
        active_tab: Tab::Overview,
        scroll: 0,
        scroll_limit: u16::MAX,
        reverse_chronological: false,
        expanded_blocks: Seq::empty(),
        history: Seq::empty(),
        last_refreshed_at: None,
        last_refresh_had_changes: None,
        last_refresh_changed_sections: Seq::empty(),
        last_error: None,
        status_message: None,
    }
}

impl ResourceTabState {
    /// A fresh tab on `resource` (see `fresh_tab`).
    pub fn new(id: u64, resource: Resource) -> (t: Self)
        ensures
            t@ == fresh_tab(id, resource@),
    {
        let t = ResourceTabState {
            id,
            resource,
            latest_fetch_request_id: 0,
            active_tab: Tab::Overview,
            scroll: 0,
            scroll_limit: u16::MAX,
            reverse_chronological: false,
            expanded_blocks: Vec::new(),
            history: Vec::new(),
            last_refreshed_at: None,
            last_refresh_had_changes: None,
            last_refresh_changed_sections: Vec::new(),
            last_error: None,
            status_message: None,
        };
        proof {
            assert(t@.expanded_blocks =~= Seq::<BlockIdView>::empty());
            assert(t@.history =~= Seq::<IdView>::empty());
            assert(t@.last_refresh_changed_sections =~= Seq::<Seq<char>>::empty());
        }
        t
    }

    /// A tab restored from a saved session: the saved view, with no
    /// history, refresh record, error or status.
    pub fn from_session_parts(
        id: u64,
        resource: Resource,
        active_tab: Tab,
        scroll: u16,
        reverse_chronological: bool,
        expanded_blocks: Vec<BlockId>,
    ) -> (t: Self)
        ensures
            t@ == (TabStateView {
                active_tab,
                scroll,
                reverse_chronological,
                expanded_blocks: views(expanded_blocks@),
                ..fresh_tab(id, resource@)
            }),
    {
        let t = ResourceTabState {
            id,
            resource,
            latest_fetch_request_id: 0,
            active_tab,
            scroll,
            scroll_limit: u16::MAX,
            reverse_chronological,
            expanded_blocks,
            history: Vec::new(),
            last_refreshed_at: None,
            last_refresh_had_changes: None,
            last_refresh_changed_sections: Vec::new(),
            last_error: None,
            status_message: None,
        };
        proof {
            assert(t@.history =~= Seq::<IdView>::empty());
            assert(t@.last_refresh_changed_sections =~= Seq::<Seq<char>>::empty());
        }
        t
    }
}

impl DeepCopy for ResourceTabState {
    fn deep_copy(&self) -> (r: Self) {
        ResourceTabState {
            id: self.id,
            resource: self.resource.deep_copy(),
            latest_fetch_request_id: self.latest_fetch_request_id,
            active_tab: self.active_tab,
            scroll: self.scroll,
            scroll_limit: self.scroll_limit,
            reverse_chronological: self.reverse_chronological,
            expanded_blocks: copy_vec(&self.expanded_blocks),
            history: copy_vec(&self.history),
            last_refreshed_at: copy_opt_string(&self.last_refreshed_at),
            last_refresh_had_changes: self.last_refresh_had_changes,
            last_refresh_changed_sections: copy_vec(&self.last_refresh_changed_sections),
            last_error: copy_opt_string(&self.last_error),
            status_message: copy_opt_string(&self.status_message),
        }
    }
}

pub struct AddPromptView {
    pub input: Seq<char>,
    pub error: Option<Seq<char>>,
    pub fallback_repo: IdView,
    pub mode: AddResourceMode,
}

impl View for AddResourcePrompt {
    type V = AddPromptView;

    open spec fn view(&self) -> AddPromptView {
        AddPromptView {
            input: self.input@,
            error: opt_str(self.error),
            fallback_repo: self.fallback_repo@,
            mode: self.mode,
        }
    }
}

pub struct LinkPromptView {
    pub id: IdView,
    pub url: Option<Seq<char>>,
}

impl View for ResourceLinkPrompt {
    type V = LinkPromptView;

    open spec fn view(&self) -> LinkPromptView {
        LinkPromptView { id: self.id@, url: opt_str(self.url) }
    }
}

// ---------------------------------------------------------------- references

/// `s` splits into exactly two words at `i` (end of the first) and `j`
/// (start of the second), as `split_whitespace` would split it.
pub open spec fn two_word_split(s: Seq<char>, i: int, j: int) -> bool {
    &&& 0 < i < j < s.len()
    &&& forall|k: int| 0 <= k < i ==> !is_ws(#[trigger] s[k])
    &&& forall|k: int| i <= k < j ==> is_ws(#[trigger] s[k])
    &&& forall|k: int| j <= k < s.len() ==> !is_ws(#[trigger] s[k])
}

pub open spec fn has_two_words(s: Seq<char>) -> bool {
    exists|i: int, j: int| two_word_split(s, i, j)
}

pub open spec fn two_words(s: Seq<char>) -> (int, int) {
    choose|i: int, j: int| two_word_split(s, i, j)
}

/// How the add-resource prompt reads its input, `fallback` being the
/// repository of the resource it was opened on: a URL or `owner/repo#N`;
/// else `owner/repo N`; else a number, with or without `#`, in `fallback`'s
/// repository.
pub open spec fn reference_spec(input: Seq<char>, fallback: IdView) -> Result<IdView, ResourceIdError> {
    let t = trim(input);
    if t.len() == 0 {
        Err(ResourceIdError::Invalid)
    } else if parse_spec(t, None) is Ok {
        parse_spec(t, None)
    } else if has_two_words(t) {
        let (i, j) = two_words(t);
        owner_repo_number_spec(t.subrange(0, i), t.subrange(j, t.len() as int))
    } else if all_digits(strip_hash(t)) {
        match number_result(strip_hash(t)) {
            Ok(n) => Ok(IdView { owner: fallback.owner, repo: fallback.repo, number: n, kind_hint: None }),
            Err(e) => Err(e),
        }
    } else {
        Err(ResourceIdError::Invalid)
    }
}

proof fn lemma_two_word_split_unique(s: Seq<char>, i: int, j: int, i2: int, j2: int)
    requires
        two_word_split(s, i, j),
        two_word_split(s, i2, j2),
    ensures
        i == i2,
        j == j2,
{
    if i < i2 {
        assert(is_ws(s[i]));
    } else if i2 < i {
        assert(is_ws(s[i2]));
    }
    if j < j2 {
        assert(!is_ws(s[j]));
    } else if j2 < j {
        assert(!is_ws(s[j2]));
    }
}

/// Where `v` (without surrounding whitespace) splits into exactly two words.
fn split_two_words(v: &[char]) -> (r: Option<(usize, usize)>)
    requires
        v@.len() > 0,
        !is_ws(v@[0]),
        !is_ws(v@.last()),
    ensures
        match r {
            Some((i, j)) => two_word_split(v@, i as int, j as int),
            None => !has_two_words(v@),
        },
{
    let n = v.len();
    let mut i: usize = 0;
    while i < n && !crate::text::is_whitespace(v[i])
        invariant
            i <= n == v@.len(),
            forall|k: int| 0 <= k < i ==> !is_ws(#[trigger] v@[k]),
        decreases n - i,
    {
        i = i + 1;
    }
    if i == n {
        proof {
            assert forall|a: int, b: int| !two_word_split(v@, a, b) by {
                if two_word_split(v@, a, b) {
                    assert(is_ws(v@[a]));
                }
            }
        }
        return None;
    }
    let mut j: usize = i;
    while j < n && crate::text::is_whitespace(v[j])
        invariant
            i <= j <= n == v@.len(),
            forall|k: int| i <= k < j ==> is_ws(#[trigger] v@[k]),
        decreases n - j,
    {
        j = j + 1;
    }
    proof {
        if j == n {
            assert(is_ws(v@[n - 1]));
            assert(v@.last() == v@[n - 1]);
        }
    }
    let mut k: usize = j;
    while k < n && !crate::text::is_whitespace(v[k])
        invariant
            j <= k <= n == v@.len(),
            forall|m: int| j <= m < k ==> !is_ws(#[trigger] v@[m]),
        decreases n - k,
    {
        k = k + 1;
    }
    if k == n {
        Some((i, j))
    } else {
        proof {
            assert forall|a: int, b: int| !two_word_split(v@, a, b) by {
                if two_word_split(v@, a, b) {
                    if a < i {
                        assert(is_ws(v@[a]));
                    } else if a > i {
                        assert(!is_ws(v@[i as int]));
                    }
                    if b < j {
                        assert(!is_ws(v@[b]));
                        assert(is_ws(v@[b]));
                    } else if b > j {
                        assert(is_ws(v@[j as int]));
                    }
                    assert(!is_ws(v@[k as int]));
                }
            }
        }
        None
    }
}

/// Reads what the user typed into the add-resource prompt (see
/// `reference_spec`).
#[verifier::loop_isolation(false)]
pub fn parse_resource_reference(input: &str, fallback_repo: &ResourceId) -> (r: Result<ResourceId, ResourceIdError>)
    ensures
        id_result_view(r) == reference_spec(input@, fallback_repo@),
{
    let all = chars_of(input);
    let (a, b) = trim_bounds(all.as_slice());
    if a == b {
        return Err(ResourceIdError::Invalid);
    }
    let v = crate::text::slice_to_vec(all.as_slice(), a, b);
    let ghost t = trim(input@);
    let trimmed = string_of(v.as_slice(), 0, v.len());
    proof {
        assert(v@ == t);
        assert(v@.subrange(0, v@.len() as int) =~= v@);
        assert(v@[0] == all@[a as int]);
        assert(v@.last() == all@[b - 1]);
    }
    match ResourceId::parse(trimmed.as_str()) {
        Ok(id) => return Ok(id),
        Err(_) => {},
    }
    match split_two_words(v.as_slice()) {
        Some((i, j)) => {
            proof {
                lemma_two_word_split_unique(t, i as int, j as int, two_words(t).0, two_words(t).1);
            }
            let owner_repo = string_of(v.as_slice(), 0, i);
            let number = string_of(v.as_slice(), j, v.len());
            return ResourceId::from_owner_repo_number(owner_repo.as_str(), number.as_str());
        },
        None => {},
    }
    let start: usize = if v[0] == '#' { 1 } else { 0 };
    proof {
        assert(strip_hash(t) =~= v@.subrange(start as int, v@.len() as int));
    }
    let mut k = start;
    while k < v.len()
        invariant
            start <= k <= v@.len(),
            forall|m: int| start <= m < k ==> is_digit(#[trigger] v@[m]),
        decreases v.len() - k,
    {
        if !crate::text::is_ascii_digit(v[k]) {
            proof {
                assert(strip_hash(t)[k - start] == v@[k as int]);
            }
            return Err(ResourceIdError::Invalid);
        }
        k = k + 1;
    }
    proof {
        assert forall|m: int| 0 <= m < strip_hash(t).len() implies is_digit(#[trigger] strip_hash(t)[m]) by {
            assert(strip_hash(t)[m] == v@[m + start]);
        }
    }
    let number = string_of(v.as_slice(), start, v.len());
    ResourceId::relative_to_repo(fallback_repo.owner.as_str(), fallback_repo.repo.as_str(), number.as_str())
}

} // verus!
