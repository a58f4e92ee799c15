//! The resource shown while the first fetch of a reference is in flight.
use vstd::prelude::*;

use crate::domain::action::MergeMethod;
use crate::domain::resource::{
    ActionContext, ActionContextView, MetadataItem, MetadataItemView, PullRequest,
    PullRequestView, ReactionCounts, Resource, ResourceView,
};
use crate::domain::resource_id::{
    canonical_name_spec, repo_name_spec, web_url_spec, IdView, ResourceId, ResourceKind,
};
use crate::text::push_str;

verus! {

/// The empty pull request of a placeholder: `base` into `head`, nothing else.
pub open spec fn placeholder_pull_request() -> PullRequestView {
    PullRequestView {
        base_ref: "base"@,
        head_ref: "head"@,
        requested_reviewers: Seq::empty(),
        review_decision: None,
        merge_state: None,
        additions: 0,
        deletions: 0,
        commits: Seq::empty(),
        checks: Seq::empty(),
        files: Seq::empty(),
        metadata: Seq::empty(),
        allowed_merge_methods: Seq::empty(),
    }
}

/// The placeholder for `id`: shown as a pull request unless the reference
/// is known to be an issue, linked as an issue unless it is known to be a
/// pull request (GitHub redirects an issue URL of a pull request).
pub open spec fn placeholder_spec(id: IdView) -> ResourceView {
    let canonical = canonical_name_spec(id);
    let url_kind = match id.kind_hint {
        Some(k) => k,
        None => ResourceKind::Issue,
    };
    ResourceView {
        id: id,
        title: "Loading "@ + canonical,
        url: web_url_spec(id, url_kind),
        state: "LOADING"@,
        author: "GitHub"@,
        created_at: "now"@,
        updated_at: "now"@,
        labels: Seq::empty(),
        assignees: Seq::empty(),
        reactions: ReactionCounts {
            thumbs_up: 0,
            thumbs_down: 0,
            laugh: 0,
            hooray: 0,
            confused: 0,
            heart: 0,
            rocket: 0,
            eyes: 0,
        },
        body: "Loading "@ + canonical
            + " from GitHub.\n\nThe TUI is ready while the API request runs. Data for "@
            + repo_name_spec(id)
            + " will replace this placeholder as soon as GitHub responds."@,
        activity: Seq::empty(),
        related_resources: Seq::empty(),
        metadata: seq![MetadataItemView { label: "startup"@, value: "loading GitHub data"@ }],
        warnings: Seq::empty(),
        pull_request: if id.kind_hint == Some(ResourceKind::Issue) {
            None
        } else {
            Some(placeholder_pull_request())
        },
        actions: ActionContextView { node_id: Seq::empty(), viewer_can_update: false, locked: false },
    }
}

/// The resource shown for `id` until GitHub answers (see `placeholder_spec`).
pub fn loading_resource_placeholder(id: ResourceId) -> (r: Resource)
    ensures
        r@ == placeholder_spec(id@),
{
    let display_issue = match id.kind_hint {
        Some(ResourceKind::Issue) => true,
        _ => false,
    };
    let url_kind = match id.kind_hint {
        Some(k) => k,
        None => ResourceKind::Issue,
    };
    let canonical = id.canonical_name();
    let repo = id.repo_name_with_owner();
    let pull_request = if display_issue {
        None
    } else {
        let pr = PullRequest {
            base_ref: crate::text::owned("base"),
            head_ref: crate::text::owned("head"),
            requested_reviewers: Vec::new(),
            review_decision: None,
            merge_state: None,
            additions: 0,
            deletions: 0,
            commits: Vec::new(),
            checks: Vec::new(),
            files: Vec::new(),
            metadata: Vec::new(),
            allowed_merge_methods: Vec::<MergeMethod>::new(),
        };
        proof {
            assert(pr@.requested_reviewers =~= Seq::<Seq<char>>::empty());
            assert(pr@.commits =~= placeholder_pull_request().commits);
            assert(pr@.checks =~= placeholder_pull_request().checks);
            assert(pr@.files =~= placeholder_pull_request().files);
            assert(pr@.metadata =~= placeholder_pull_request().metadata);
            assert(pr@.allowed_merge_methods =~= placeholder_pull_request().allowed_merge_methods);
        }
        Some(pr)
    };
    let mut title = String::new();
    push_str(&mut title, "Loading ");
    push_str(&mut title, canonical.as_str());
    let mut body = String::new();
    push_str(&mut body, "Loading ");
    push_str(&mut body, canonical.as_str());
    push_str(&mut body, " from GitHub.\n\nThe TUI is ready while the API request runs. Data for ");
    push_str(&mut body, repo.as_str());
    push_str(&mut body, " will replace this placeholder as soon as GitHub responds.");
    let url = id.web_url_for_kind(url_kind);
    let mut metadata: Vec<MetadataItem> = Vec::new();
    metadata.push(
        MetadataItem {
            label: crate::text::owned("startup"),
            value: crate::text::owned("loading GitHub data"),
        },
    );
    let r = Resource {
        id,
        title,
        url,
        state: crate::text::owned("LOADING"),
        author: crate::text::owned("GitHub"),
        created_at: crate::text::owned("now"),
        updated_at: crate::text::owned("now"),
        labels: Vec::new(),
        assignees: Vec::new(),
        reactions: ReactionCounts::zero(),
        body,
        activity: Vec::new(),
        related_resources: Vec::new(),
        metadata,
        warnings: Vec::new(),
        pull_request,
        actions: ActionContext::empty(),
    };
    proof {
        let p = placeholder_spec(r.id@);
        assert(r@.labels =~= p.labels);
        assert(r@.assignees =~= p.assignees);
        assert(r@.activity =~= p.activity);
        assert(r@.related_resources =~= p.related_resources);
        assert(r@.metadata =~= p.metadata);
        assert(r@.warnings =~= p.warnings);
        assert(r@.actions.node_id =~= p.actions.node_id);
        assert(r@.title =~= p.title);
        assert(r@.body =~= p.body);
    }
    r
}

} // verus!
