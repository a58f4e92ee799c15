//! What the viewer can do with a resource: comment, edit, merge, close or
//! reopen, and the labels shown while an action runs.
use vstd::prelude::*;

use crate::domain::resource::{opt_str, views, ActivityEntryView, Resource, ResourceView};
use crate::domain::resource_id::ResourceKind;

verus! {

#[derive(Debug, Clone, Copy, PartialEq, Eq, Structural)]
pub enum MergeMethod {
    Merge,
    Squash,
    Rebase,
}

/// What kind of GitHub object an edit rewrites; picks the update mutation.
#[derive(Debug, Clone, Copy, PartialEq, Eq, Structural)]
pub enum EditKind {
    IssueBody,
    PullRequestBody,
    IssueComment,
    Review,
    ReviewComment,
}

/// An editable GitHub object the viewer is allowed to update, per the
/// server's own `viewerCanUpdate`.
#[derive(Debug, Clone, PartialEq, Eq)]
pub struct EditTarget {
    pub node_id: String,
    pub kind: EditKind,
    /// The object's current raw markdown, used to prefill the composer.
    pub current_body: String,
}

pub struct EditTargetView {
    pub node_id: Seq<char>,
    pub kind: EditKind,
    pub current_body: Seq<char>,
}

impl View for EditTarget {
    type V = EditTargetView;

    open spec fn view(&self) -> EditTargetView {
        EditTargetView { node_id: self.node_id@, kind: self.kind, current_body: self.current_body@ }
    }
}


pub open spec fn merge_method_graphql(m: MergeMethod) -> Seq<char> {
    match m {
        MergeMethod::Merge => "MERGE"@,
        MergeMethod::Squash => "SQUASH"@,
        MergeMethod::Rebase => "REBASE"@,
    }
}

pub open spec fn merge_method_label(m: MergeMethod) -> Seq<char> {
    match m {
        MergeMethod::Merge => "merge commit"@,
        MergeMethod::Squash => "squash"@,
        MergeMethod::Rebase => "rebase"@,
    }
}

impl MergeMethod {
    /// The GraphQL enum value of this method.
    pub fn graphql_value(self) -> (s: &'static str)
        ensures
            s@ == merge_method_graphql(self),
    {
        match self {
            MergeMethod::Merge => "MERGE",
            MergeMethod::Squash => "SQUASH",
            MergeMethod::Rebase => "REBASE",
        }
    }

    /// The human label of this method.
    pub fn label(self) -> (s: &'static str)
        ensures
            s@ == merge_method_label(self),
    {
        match self {
            MergeMethod::Merge => "merge commit",
            MergeMethod::Squash => "squash",
            MergeMethod::Rebase => "rebase",
        }
    }
}

impl EditTarget {
    /// A copy of this target.
    pub fn duplicate(&self) -> (r: Self)
        ensures
            r@ == self@,
    {
        EditTarget { node_id: self.node_id.clone(), kind: self.kind, current_body: self.current_body.clone() }
    }
}

/// A menu-level action choice before any payload is collected.
#[derive(Debug, Clone, Copy, PartialEq, Eq, Structural)]
pub enum ActionKind {
    Comment,
    Edit,
    Merge,
    Close,
    Reopen,
}

pub open spec fn action_kind_label(k: ActionKind) -> Seq<char> {
    match k {
        ActionKind::Comment => "Comment"@,
        ActionKind::Edit => "Edit"@,
        ActionKind::Merge => "Merge"@,
        ActionKind::Close => "Close"@,
        ActionKind::Reopen => "Reopen"@,
    }
}

impl ActionKind {
    /// The menu label of this action.
    pub fn label(self) -> (s: &'static str)
        ensures
            s@ == action_kind_label(self),
    {
        match self {
            ActionKind::Comment => "Comment",
            ActionKind::Edit => "Edit",
            ActionKind::Merge => "Merge",
            ActionKind::Close => "Close",
            ActionKind::Reopen => "Reopen",
        }
    }
}

/// A fully specified action ready to submit to GitHub.
#[derive(Debug, Clone, PartialEq, Eq)]
pub enum ResourceAction {
    Comment { body: String },
    Edit { target: EditTarget, body: String },
    Close,
    Reopen,
    Merge { method: MergeMethod },
}

pub open spec fn progress_label_spec(a: ResourceAction) -> Seq<char> {
    match a {
        ResourceAction::Comment { .. } => "commenting"@,
        ResourceAction::Edit { .. } => "saving edit"@,
        ResourceAction::Close => "closing"@,
        ResourceAction::Reopen => "reopening"@,
        ResourceAction::Merge { .. } => "merging"@,
    }
}

pub open spec fn success_label_spec(a: ResourceAction) -> Seq<char> {
    match a {
        ResourceAction::Comment { .. } => "comment posted"@,
        ResourceAction::Edit { .. } => "edit saved"@,
        ResourceAction::Close => "closed"@,
        ResourceAction::Reopen => "reopened"@,
        ResourceAction::Merge { .. } => "merged"@,
    }
}

impl ResourceAction {
    /// What the status line says while the action runs.
    pub fn progress_label(&self) -> (s: &'static str)
        ensures
            s@ == progress_label_spec(*self),
    {
        match self {
            ResourceAction::Comment { .. } => "commenting",
            ResourceAction::Edit { .. } => "saving edit",
            ResourceAction::Close => "closing",
            ResourceAction::Reopen => "reopening",
            ResourceAction::Merge { .. } => "merging",
        }
    }

    /// What the status line says once the action succeeded.
    pub fn success_label(&self) -> (s: &'static str)
        ensures
            s@ == success_label_spec(*self),
    {
        match self {
            ResourceAction::Comment { .. } => "comment posted",
            ResourceAction::Edit { .. } => "edit saved",
            ResourceAction::Close => "closed",
            ResourceAction::Reopen => "reopened",
            ResourceAction::Merge { .. } => "merged",
        }
    }

    /// The draft text a composer submitted, when this action carries one.
    pub fn draft_body(&self) -> (r: Option<&str>)
        ensures
            match *self {
                ResourceAction::Comment { body } => r matches Some(b) && b@ == body@,
                ResourceAction::Edit { body, .. } => r matches Some(b) && b@ == body@,
                _ => r is None,
            },
    {
        match self {
            ResourceAction::Comment { body } => Some(body.as_str()),
            ResourceAction::Edit { body, .. } => Some(body.as_str()),
            _ => None,
        }
    }
}

pub open spec fn view_kind(r: ResourceView) -> ResourceKind {
    if r.pull_request is Some {
        ResourceKind::PullRequest
    } else {
        ResourceKind::Issue
    }
}

/// The description as an edit target, when the resource has a node id and
/// the viewer may update it.
pub open spec fn body_edit_target_spec(r: ResourceView) -> Option<EditTargetView> {
    if r.actions.node_id.len() == 0 || !r.actions.viewer_can_update {
        None
    } else {
        Some(
            EditTargetView {
                node_id: r.actions.node_id,
                kind: match view_kind(r) {
                    ResourceKind::Issue => EditKind::IssueBody,
                    ResourceKind::PullRequest => EditKind::PullRequestBody,
                },
                current_body: r.body,
            },
        )
    }
}

/// The edit targets of activity entries, in display order.
pub open spec fn entry_targets(entries: Seq<ActivityEntryView>) -> Seq<EditTargetView>
    decreases entries.len(),
{
    if entries.len() == 0 {
        Seq::empty()
    } else {
        let prior = entry_targets(entries.drop_last());
        match entries.last().edit {
            Some(t) => prior.push(t),
            None => prior,
        }
    }
}

/// Everything the viewer may edit: the description first, then editable
/// activity entries in display order.
pub open spec fn editable_targets_spec(r: ResourceView) -> Seq<EditTargetView> {
    match body_edit_target_spec(r) {
        Some(t) => seq![t] + entry_targets(r.activity),
        None => entry_targets(r.activity),
    }
}

/// A pull request whose repository allows some merge method.
pub open spec fn can_merge_spec(r: ResourceView) -> bool {
    view_kind(r) == ResourceKind::PullRequest && match r.pull_request {
        Some(pr) => pr.allowed_merge_methods.len() > 0,
        None => false,
    }
}

/// The actions offered for a resource, in menu order: nothing without a node
/// id; comment unless locked; edit when something is editable; and with
/// update permission merge (when allowed) and close for an open resource, or
/// reopen for a closed one.
pub open spec fn available_actions_spec(r: ResourceView) -> Seq<ActionKind> {
    if r.actions.node_id.len() == 0 {
        Seq::empty()
    } else {
        let comment = if !r.actions.locked { seq![ActionKind::Comment] } else { Seq::empty() };
        let edit = if editable_targets_spec(r).len() > 0 { seq![ActionKind::Edit] } else { Seq::empty() };
        let state = if r.actions.viewer_can_update {
            if r.state == "OPEN"@ {
                (if can_merge_spec(r) { seq![ActionKind::Merge] } else { Seq::empty() }) + seq![ActionKind::Close]
            } else if r.state == "CLOSED"@ {
                seq![ActionKind::Reopen]
            } else {
                Seq::empty()
            }
        } else {
            Seq::empty()
        };
        comment + edit + state
    }
}

/// The resource description as an edit target, when the viewer may edit it.
pub fn body_edit_target(resource: &Resource) -> (r: Option<EditTarget>)
    ensures
        match r {
            Some(t) => Some(t@),
            None => None,
        } == body_edit_target_spec(resource@),
{
    if resource.actions.node_id.as_str().is_empty() || !resource.actions.viewer_can_update {
        proof {
            assert(resource@.actions.node_id.len() == 0 ==> resource.actions.node_id@.len() == 0);
        }
        return None;
    }
    let kind = match resource.kind() {
        ResourceKind::Issue => EditKind::IssueBody,
        ResourceKind::PullRequest => EditKind::PullRequestBody,
    };
    Some(EditTarget { node_id: resource.actions.node_id.clone(), kind, current_body: resource.body.clone() })
}

/// Everything the viewer may edit right now: the description first, then
/// editable activity entries in display order.
pub fn editable_targets(resource: &Resource) -> (targets: Vec<EditTarget>)
    ensures
        views(targets@) == editable_targets_spec(resource@),
{
    let mut targets: Vec<EditTarget> = Vec::new();
    let first = body_edit_target(resource);
    match first {
        Some(t) => targets.push(t),
        None => {},
    }
    let ghost base = views(targets@);
    let mut i: usize = 0;
    while i < resource.activity.len()
        invariant
            i <= resource.activity@.len(),
            views(targets@) == base + entry_targets(views(resource.activity@.subrange(0, i as int))),
        decreases resource.activity.len() - i,
    {
        let ghost prior = views(targets@);
        proof {
            assert(views(resource.activity@.subrange(0, i + 1)).drop_last() =~= views(resource.activity@.subrange(0, i as int)));
            assert(views(resource.activity@.subrange(0, i + 1)).last() == resource.activity@[i as int]@);
        }
        match &resource.activity[i].edit {
            Some(t) => {
                targets.push(t.duplicate());
                proof {
                    assert(views(targets@) =~= prior.push(t@));
                }
            },
            None => {},
        }
        i = i + 1;
    }
    proof {
        assert(resource.activity@.subrange(0, resource.activity@.len() as int) == resource.activity@);
        assert(views(targets@) =~= editable_targets_spec(resource@));
    }
    targets
}

fn can_merge(resource: &Resource) -> (b: bool)
    ensures
        b == can_merge_spec(resource@),
{
    match &resource.pull_request {
        Some(pr) => pr.allowed_merge_methods.len() > 0,
        None => false,
    }
}

/// Actions the viewer can take on this resource right now. Server-side
/// permission is the final authority; this only drives menu visibility.
pub fn available_actions(resource: &Resource) -> (actions: Vec<ActionKind>)
    ensures
        actions@ == available_actions_spec(resource@),
{
    if resource.actions.node_id.as_str().is_empty() {
        return Vec::new();
    }
    let mut actions: Vec<ActionKind> = Vec::new();
    if !resource.actions.locked {
        actions.push(ActionKind::Comment);
    }
    let targets = editable_targets(resource);
    if targets.len() > 0 {
        actions.push(ActionKind::Edit);
    }
    if resource.actions.viewer_can_update {
        let st = crate::text::chars_of(resource.state.as_str());
        if crate::text::chars_eq_str(st.as_slice(), "OPEN") {
            if can_merge(resource) {
                actions.push(ActionKind::Merge);
            }
            actions.push(ActionKind::Close);
        } else if crate::text::chars_eq_str(st.as_slice(), "CLOSED") {
            actions.push(ActionKind::Reopen);
        }
    }
    proof {
        assert(actions@ =~= available_actions_spec(resource@));
    }
    actions
}

} // verus!
