//! The change fingerprint of a resource: one text that covers every field a
//! refresh may change, so two loads can be compared cheaply.
use vstd::prelude::*;

use crate::domain::resource::{
    opt_str, reaction_total, strs, views, ActivityEntry, ActivityEntryView, ActivityKind, CheckRun,
    CheckRunView, CheckStatus, Commit, CommitView, Deployment, DeploymentView, MetadataItem,
    MetadataItemView, PullRequest, PullRequestView, Resource, ResourceView,
};
use crate::domain::resource_id::{canonical_name_spec, IdView, ResourceId};
use crate::text::{decimal, join, lemma_join_push, push_str, push_u64};

verus! {

/// What `char::escape_debug` gives a character.
pub uninterp spec fn char_escape_debug(c: char) -> Seq<char>;

/// Calls `char::escape_debug` and collects what it yields. Its result is
/// named by `char_escape_debug`; std documents it as escaping the
/// character as the `Debug` output of `str` and `char` does, with
/// `'\n'.escape_debug()` giving `\n`.
#[verifier::external_body]
fn escape_debug_of(c: char) -> (s: String)
    ensures
        s@ == char_escape_debug(c),
{
    c.escape_debug().to_string()
}

/// How `Debug` renders one character inside a quoted string: as
/// `char::escape_debug` does, but for the single quote, which a string
/// leaves as it is.
pub open spec fn escape_char(c: char) -> Seq<char> {
    if c == '\'' {
        seq![c]
    } else {
        char_escape_debug(c)
    }
}

pub open spec fn escape(s: Seq<char>) -> Seq<char>
    decreases s.len(),
{
    if s.len() == 0 {
        Seq::empty()
    } else {
        escape(s.drop_last()) + escape_char(s.last())
    }
}

/// A string in double quotes, each character escaped as `Debug` does.
pub open spec fn quoted(s: Seq<char>) -> Seq<char> {
    seq!['"'] + escape(s) + seq!['"']
}

pub open spec fn dbg_opt_str(o: Option<Seq<char>>) -> Seq<char> {
    match o {
        Some(s) => "Some("@ + quoted(s) + ")"@,
        None => "None"@,
    }
}

pub open spec fn dbg_bool(b: bool) -> Seq<char> {
    if b {
        "true"@
    } else {
        "false"@
    }
}

pub open spec fn dbg_opt_bool(o: Option<bool>) -> Seq<char> {
    match o {
        Some(b) => "Some("@ + dbg_bool(b) + ")"@,
        None => "None"@,
    }
}

pub open spec fn dbg_opt_u64(o: Option<u64>) -> Seq<char> {
    match o {
        Some(n) => "Some("@ + decimal(n as nat) + ")"@,
        None => "None"@,
    }
}

pub open spec fn dbg_activity_kind(k: ActivityKind) -> Seq<char> {
    match k {
        ActivityKind::Comment => "Comment"@,
        ActivityKind::Review => "Review"@,
        ActivityKind::ReviewComment => "ReviewComment"@,
        ActivityKind::CommitComment => "CommitComment"@,
        ActivityKind::Timeline => "Timeline"@,
    }
}

pub open spec fn dbg_check_status(s: CheckStatus) -> Seq<char> {
    match s {
        CheckStatus::Success => "Success"@,
        CheckStatus::Failure => "Failure"@,
        CheckStatus::Pending => "Pending"@,
        CheckStatus::Skipped => "Skipped"@,
        CheckStatus::Neutral => "Neutral"@,
        CheckStatus::Unknown => "Unknown"@,
    }
}

pub open spec fn colon() -> Seq<char> {
    seq![':']
}

/// Values with a fingerprint text.
pub trait Fingerprinted: View + Sized {
    spec fn fp(v: Self::V) -> Seq<char>;

    /// Whether the fingerprint can be built without overflow.
    spec fn fp_ok(&self) -> bool;

    /// Appends the fingerprint of `self` to `out`.
    fn push_fp(&self, out: &mut String)
        requires
            self.fp_ok(),
        ensures
            final(out)@ == old(out)@ + Self::fp(self@),
    ;
}

/// The fingerprints of a sequence of views.
pub open spec fn fps<T: Fingerprinted>(v: Seq<T::V>) -> Seq<Seq<char>> {
    v.map_values(|x: T::V| T::fp(x))
}

/// Appends the fingerprints of `items`, joined by `sep`.
pub fn push_joined<T: Fingerprinted>(out: &mut String, items: &Vec<T>, sep: &str)
    requires
        forall|i: int| 0 <= i < items@.len() ==> #[trigger] items@[i].fp_ok(),
    ensures
        final(out)@ == old(out)@ + join(fps::<T>(views(items@)), sep@),
{
    let mut i: usize = 0;
    while i < items.len()
        invariant
            i <= items@.len(),
            forall|k: int| 0 <= k < items@.len() ==> #[trigger] items@[k].fp_ok(),
            out@ == old(out)@ + join(fps::<T>(views(items@.subrange(0, i as int))), sep@),
        decreases items.len() - i,
    {
        let ghost before = out@;
        let ghost prev = fps::<T>(views(items@.subrange(0, i as int)));
        if i > 0 {
            push_str(out, sep);
        }
        items[i].push_fp(out);
        proof {
            assert(fps::<T>(views(items@.subrange(0, i + 1))) =~= prev.push(T::fp(items@[i as int]@)));
            lemma_join_push(prev, sep@, T::fp(items@[i as int]@));
            assert(out@ =~= old(out)@ + join(fps::<T>(views(items@.subrange(0, i + 1))), sep@));
        }
        i = i + 1;
    }
    proof {
        assert(items@.subrange(0, items@.len() as int) == items@);
    }
}

/// Appends `s` quoted and escaped as `Debug` would.
fn push_quoted(out: &mut String, s: &String)
    ensures
        final(out)@ == old(out)@ + quoted(s@),
{
    let v = crate::text::chars_of(s.as_str());
    out.push('"');
    let ghost start = out@;
    let mut i: usize = 0;
    while i < v.len()
        invariant
            i <= v@.len(),
            v@ == s@,
            out@ == start + escape(v@.subrange(0, i as int)),
        decreases v.len() - i,
    {
        let c = v[i];
        if c == '\'' {
            out.push(c);
        } else {
            let e = escape_debug_of(c);
            push_str(out, e.as_str());
        }
        proof {
            assert(v@.subrange(0, i + 1).drop_last() == v@.subrange(0, i as int));
            assert(out@ =~= start + escape(v@.subrange(0, i + 1)));
        }
        i = i + 1;
    }
    out.push('"');
    proof {
        assert(v@.subrange(0, v@.len() as int) == v@);
        assert(out@ =~= old(out)@ + quoted(s@));
    }
}

fn push_dbg_opt_str(out: &mut String, o: &Option<String>)
    ensures
        final(out)@ == old(out)@ + dbg_opt_str(opt_str(*o)),
{
    match o {
        Some(s) => {
            push_str(out, "Some(");
            push_quoted(out, s);
            push_str(out, ")");
            proof {
                assert(out@ =~= old(out)@ + dbg_opt_str(opt_str(*o)));
            }
        },
        None => push_str(out, "None"),
    }
}

fn push_dbg_bool(out: &mut String, b: bool)
    ensures
        final(out)@ == old(out)@ + dbg_bool(b),
{
    if b {
        push_str(out, "true");
    } else {
        push_str(out, "false");
    }
}

fn push_dbg_opt_bool(out: &mut String, o: Option<bool>)
    ensures
        final(out)@ == old(out)@ + dbg_opt_bool(o),
{
    match o {
        Some(b) => {
            push_str(out, "Some(");
            push_dbg_bool(out, b);
            push_str(out, ")");
            proof {
                assert(out@ =~= old(out)@ + dbg_opt_bool(o));
            }
        },
        None => push_str(out, "None"),
    }
}

fn push_dbg_opt_u64(out: &mut String, o: Option<u64>)
    ensures
        final(out)@ == old(out)@ + dbg_opt_u64(o),
{
    match o {
        Some(n) => {
            push_str(out, "Some(");
            push_u64(out, n);
            push_str(out, ")");
            proof {
                assert(out@ =~= old(out)@ + dbg_opt_u64(o));
            }
        },
        None => push_str(out, "None"),
    }
}

fn push_colon(out: &mut String)
    ensures
        final(out)@ == old(out)@ + colon(),
{
    out.push(':');
    proof {
        assert(out@ =~= old(out)@ + colon());
    }
}

impl Fingerprinted for String {
    open spec fn fp(v: Seq<char>) -> Seq<char> {
        v
    }

    open spec fn fp_ok(&self) -> bool {
        true
    }

    fn push_fp(&self, out: &mut String) {
        push_str(out, self.as_str());
    }
}

impl Fingerprinted for ResourceId {
    open spec fn fp(v: IdView) -> Seq<char> {
        canonical_name_spec(v)
    }

    open spec fn fp_ok(&self) -> bool {
        true
    }

    fn push_fp(&self, out: &mut String) {
        let name = self.canonical_name();
        push_str(out, name.as_str());
    }
}

impl Fingerprinted for MetadataItem {
    open spec fn fp(v: MetadataItemView) -> Seq<char> {
        v.label + seq!['='] + v.value
    }

    open spec fn fp_ok(&self) -> bool {
        true
    }

    fn push_fp(&self, out: &mut String) {
        let mut t = String::new();
        push_str(&mut t, self.label.as_str());
        t.push('=');
        push_str(&mut t, self.value.as_str());
        proof {
            assert(Seq::<char>::empty() + self.label@ == self.label@);
            assert(t@ == Self::fp(self@));
        }
        push_str(out, t.as_str());
    }
}

impl Fingerprinted for Deployment {
    open spec fn fp(d: DeploymentView) -> Seq<char> {
        d.environment + colon() + d.state + colon() + dbg_opt_str(d.description) + colon()
            + dbg_opt_str(d.environment_url) + colon() + dbg_opt_str(d.log_url) + colon()
            + dbg_opt_str(d.created_at) + colon() + d.updated_at
    }

    open spec fn fp_ok(&self) -> bool {
        true
    }

    fn push_fp(&self, out: &mut String) {
        let mut t = String::new();
        push_str(&mut t, self.environment.as_str());
        push_colon(&mut t);
        push_str(&mut t, self.state.as_str());
        push_colon(&mut t);
        push_dbg_opt_str(&mut t, &self.description);
        push_colon(&mut t);
        push_dbg_opt_str(&mut t, &self.environment_url);
        push_colon(&mut t);
        push_dbg_opt_str(&mut t, &self.log_url);
        push_colon(&mut t);
        push_dbg_opt_str(&mut t, &self.created_at);
        push_colon(&mut t);
        push_str(&mut t, self.updated_at.as_str());
        proof {
            assert(Seq::<char>::empty() + self.environment@ == self.environment@);
            assert(t@ == Self::fp(self@));
        }
        push_str(out, t.as_str());
    }
}

impl Fingerprinted for Commit {
    open spec fn fp(c: CommitView) -> Seq<char> {
        c.oid + colon() + c.message + colon() + c.body + colon() + c.author + colon() + join(
            c.authors,
            seq![','],
        ) + colon() + dbg_opt_str(c.authored_at) + colon() + c.committed_at + colon() + join(
            fps::<Deployment>(c.deployments),
            seq![','],
        )
    }

    open spec fn fp_ok(&self) -> bool {
        true
    }

    fn push_fp(&self, out: &mut String) {
        let mut t = String::new();
        push_str(&mut t, self.oid.as_str());
        push_colon(&mut t);
        push_str(&mut t, self.message.as_str());
        push_colon(&mut t);
        push_str(&mut t, self.body.as_str());
        push_colon(&mut t);
        push_str(&mut t, self.author.as_str());
        push_colon(&mut t);
        push_joined(&mut t, &self.authors, ",");
        push_colon(&mut t);
        push_dbg_opt_str(&mut t, &self.authored_at);
        push_colon(&mut t);
        push_str(&mut t, self.committed_at.as_str());
        push_colon(&mut t);
        push_joined(&mut t, &self.deployments, ",");
        proof {
            reveal_strlit(",");
            assert(","@ =~= seq![',']);
            assert(fps::<String>(views(self.authors@)) =~= strs(self.authors@));
            assert(Seq::<char>::empty() + self.oid@ == self.oid@);
            assert(t@ == Self::fp(self@));
        }
        push_str(out, t.as_str());
    }
}

impl Fingerprinted for CheckRun {
    open spec fn fp(c: CheckRunView) -> Seq<char> {
        c.name + colon() + dbg_check_status(c.status) + colon() + dbg_opt_str(c.summary) + colon()
            + dbg_opt_str(c.details_url) + colon() + dbg_opt_str(c.started_at) + colon()
            + dbg_opt_str(c.completed_at) + colon() + dbg_opt_str(c.raw_conclusion)
    }

    open spec fn fp_ok(&self) -> bool {
        true
    }

    fn push_fp(&self, out: &mut String) {
        let mut t = String::new();
        push_str(&mut t, self.name.as_str());
        push_colon(&mut t);
        match self.status {
            CheckStatus::Success => push_str(&mut t, "Success"),
            CheckStatus::Failure => push_str(&mut t, "Failure"),
            CheckStatus::Pending => push_str(&mut t, "Pending"),
            CheckStatus::Skipped => push_str(&mut t, "Skipped"),
            CheckStatus::Neutral => push_str(&mut t, "Neutral"),
            CheckStatus::Unknown => push_str(&mut t, "Unknown"),
        }
        push_colon(&mut t);
        push_dbg_opt_str(&mut t, &self.summary);
        push_colon(&mut t);
        push_dbg_opt_str(&mut t, &self.details_url);
        push_colon(&mut t);
        push_dbg_opt_str(&mut t, &self.started_at);
        push_colon(&mut t);
        push_dbg_opt_str(&mut t, &self.completed_at);
        push_colon(&mut t);
        push_dbg_opt_str(&mut t, &self.raw_conclusion);
        proof {
            assert(Seq::<char>::empty() + self.name@ == self.name@);
            assert(t@ == Self::fp(self@));
        }
        push_str(out, t.as_str());
    }
}

impl Fingerprinted for ActivityEntry {
    open spec fn fp(e: ActivityEntryView) -> Seq<char> {
        e.id + colon() + dbg_activity_kind(e.kind) + colon() + e.updated_at + colon() + e.body
            + colon() + dbg_opt_str(e.path) + colon() + dbg_opt_u64(e.line) + colon()
            + dbg_opt_bool(e.thread_resolved) + colon() + dbg_opt_bool(e.thread_outdated) + colon()
            + dbg_opt_str(e.url) + colon() + dbg_opt_str(e.author_association) + colon() + decimal(
            reaction_total(e.reactions) as nat,
        ) + colon() + dbg_bool(e.includes_created_edit) + colon() + dbg_bool(e.is_minimized)
            + colon() + dbg_opt_str(e.minimized_reason)
    }

    open spec fn fp_ok(&self) -> bool {
        reaction_total(self.reactions) <= u64::MAX
    }

    fn push_fp(&self, out: &mut String) {
        let mut t = String::new();
        push_str(&mut t, self.id.as_str());
        push_colon(&mut t);
        match self.kind {
            ActivityKind::Comment => push_str(&mut t, "Comment"),
            ActivityKind::Review => push_str(&mut t, "Review"),
            ActivityKind::ReviewComment => push_str(&mut t, "ReviewComment"),
            ActivityKind::CommitComment => push_str(&mut t, "CommitComment"),
            ActivityKind::Timeline => push_str(&mut t, "Timeline"),
        }
        push_colon(&mut t);
        push_str(&mut t, self.updated_at.as_str());
        push_colon(&mut t);
        push_str(&mut t, self.body.as_str());
        push_colon(&mut t);
        push_dbg_opt_str(&mut t, &self.path);
        push_colon(&mut t);
        push_dbg_opt_u64(&mut t, self.line);
        push_colon(&mut t);
        push_dbg_opt_bool(&mut t, self.thread_resolved);
        push_colon(&mut t);
        push_dbg_opt_bool(&mut t, self.thread_outdated);
        push_colon(&mut t);
        push_dbg_opt_str(&mut t, &self.url);
        push_colon(&mut t);
        push_dbg_opt_str(&mut t, &self.author_association);
        push_colon(&mut t);
        push_u64(&mut t, self.reactions.total());
        push_colon(&mut t);
        push_dbg_bool(&mut t, self.includes_created_edit);
        push_colon(&mut t);
        push_dbg_bool(&mut t, self.is_minimized);
        push_colon(&mut t);
        push_dbg_opt_str(&mut t, &self.minimized_reason);
        proof {
            assert(Seq::<char>::empty() + self.id@ == self.id@);
            assert(t@ == Self::fp(self@));
        }
        push_str(out, t.as_str());
    }
}

/// The fingerprint part of a pull request.
pub open spec fn pr_fp(pr: PullRequestView) -> Seq<char> {
    decimal(pr.additions as nat) + colon() + decimal(pr.deletions as nat) + colon() + join(
        fps::<Commit>(pr.commits),
        seq!['|'],
    ) + colon() + join(fps::<CheckRun>(pr.checks), seq!['|']) + colon() + decimal(
        pr.files.len(),
    ) + colon() + join(pr.requested_reviewers, seq!['|']) + colon() + join(
        fps::<MetadataItem>(pr.metadata),
        seq!['|'],
    )
}

/// The change fingerprint of a resource: its canonical name, title, state,
/// update time, activity, assignees, related resources and metadata, then
/// the pull request part when there is one.
pub open spec fn fingerprint_spec(r: ResourceView) -> Seq<char> {
    canonical_name_spec(r.id) + colon() + r.title + colon() + r.state + colon() + r.updated_at
        + colon() + join(fps::<ActivityEntry>(r.activity), seq!['|']) + colon() + join(
        r.assignees,
        seq!['|'],
    ) + colon() + join(fps::<ResourceId>(r.related_resources), seq!['|']) + colon() + join(
        fps::<MetadataItem>(r.metadata),
        seq!['|'],
    ) + colon() + match r.pull_request {
        Some(pr) => pr_fp(pr),
        None => Seq::empty(),
    }
}

/// Whether every activity entry's reactions can be summed.
pub open spec fn reactions_summable(r: Resource) -> bool {
    forall|i: int| 0 <= i < r.activity@.len() ==> reaction_total(#[trigger] r.activity@[i].reactions) <= u64::MAX
}

/// Whether every activity entry's reactions of `r` can be summed.
pub open spec fn view_summable(r: ResourceView) -> bool {
    forall|i: int| 0 <= i < r.activity.len() ==> reaction_total(#[trigger] r.activity[i].reactions) <= u64::MAX
}

/// A resource whose view can be summed can be summed.
pub proof fn lemma_view_summable(r: Resource)
    requires
        view_summable(r@),
    ensures
        reactions_summable(r),
{
    assert forall|i: int| 0 <= i < r.activity@.len() implies reaction_total(#[trigger] r.activity@[i].reactions) <= u64::MAX by {
        assert(r@.activity[i] == r.activity@[i]@);
        assert(reaction_total(r@.activity[i].reactions) <= u64::MAX);
    }
}

fn push_pr_fp(out: &mut String, pr: &PullRequest)
    ensures
        final(out)@ == old(out)@ + pr_fp(pr@),
{
    let mut t = String::new();
    push_u64(&mut t, pr.additions);
    push_colon(&mut t);
    push_u64(&mut t, pr.deletions);
    push_colon(&mut t);
    push_joined(&mut t, &pr.commits, "|");
    push_colon(&mut t);
    push_joined(&mut t, &pr.checks, "|");
    push_colon(&mut t);
    push_u64(&mut t, pr.files.len() as u64);
    push_colon(&mut t);
    push_joined(&mut t, &pr.requested_reviewers, "|");
    push_colon(&mut t);
    push_joined(&mut t, &pr.metadata, "|");
    proof {
        reveal_strlit("|");
            assert("|"@ =~= seq!['|']);
        assert(fps::<String>(views(pr.requested_reviewers@)) =~= strs(pr.requested_reviewers@));
        assert(Seq::<char>::empty() + decimal(pr.additions as nat) == decimal(pr.additions as nat));
        assert(t@ == pr_fp(pr@));
    }
    push_str(out, t.as_str());
}

impl Resource {
    /// The change fingerprint of this resource.
    pub fn fingerprint(&self) -> (s: String)
        requires
            reactions_summable(*self),
        ensures
            s@ == fingerprint_spec(self@),
    {
        let mut out = self.id.canonical_name();
        push_colon(&mut out);
        push_str(&mut out, self.title.as_str());
        push_colon(&mut out);
        push_str(&mut out, self.state.as_str());
        push_colon(&mut out);
        push_str(&mut out, self.updated_at.as_str());
        push_colon(&mut out);
        push_joined(&mut out, &self.activity, "|");
        push_colon(&mut out);
        push_joined(&mut out, &self.assignees, "|");
        push_colon(&mut out);
        push_joined(&mut out, &self.related_resources, "|");
        push_colon(&mut out);
        push_joined(&mut out, &self.metadata, "|");
        push_colon(&mut out);
        let ghost before = out@;
        match &self.pull_request {
            Some(pr) => push_pr_fp(&mut out, pr),
            None => {},
        }
        proof {
            reveal_strlit("|");
            assert("|"@ =~= seq!['|']);
            assert(fps::<String>(views(self.assignees@)) =~= strs(self.assignees@));
            if self.pull_request is None {
                assert(before + Seq::<char>::empty() =~= before);
            }
            assert(out@ == fingerprint_spec(self@));
        }
        out
    }
}

} // verus!
