//! Copies of model values that keep their views, for the places where a
//! value has to be held twice.
use vstd::prelude::*;

use crate::domain::action::{EditTarget, MergeMethod};
use crate::domain::resource::{
    views, ActionContext, ActivityEntry, ChangedFile, CheckRun, Commit, Deployment, MetadataItem,
    PullRequest, Resource,
};
use crate::domain::resource_id::ResourceId;

verus! {

/// Values that can be copied with their view kept.
pub trait DeepCopy: View + Sized {
    fn deep_copy(&self) -> (r: Self)
        ensures
            r@ == self@,
    ;
}

/// A copy of a vector, item by item.
pub fn copy_vec<T: DeepCopy>(v: &Vec<T>) -> (r: Vec<T>)
    ensures
        views(r@) == views(v@),
{
    let mut r: Vec<T> = Vec::new();
    let mut i: usize = 0;
    while i < v.len()
        invariant
            i <= v@.len(),
            views(r@) == views(v@.subrange(0, i as int)),
        decreases v.len() - i,
    {
        let ghost before = r@;
        r.push(v[i].deep_copy());
        proof {
            assert(views(r@) =~= views(before).push(v@[i as int]@));
            assert(views(v@.subrange(0, i + 1)) =~= views(v@.subrange(0, i as int)).push(v@[i as int]@));
        }
        i = i + 1;
    }
    proof {
        assert(v@.subrange(0, i as int) =~= v@);
    }
    r
}

/// A copy of an optional string.
pub fn copy_opt_string(o: &Option<String>) -> (r: Option<String>)
    ensures
        crate::domain::resource::opt_str(r) == crate::domain::resource::opt_str(*o),
{
    match o {
        Some(s) => Some(s.clone()),
        None => None,
    }
}

impl DeepCopy for String {
    fn deep_copy(&self) -> (r: Self) {
        self.clone()
    }
}

impl DeepCopy for ResourceId {
    fn deep_copy(&self) -> (r: Self) {
        ResourceId {
            owner: self.owner.clone(),
            repo: self.repo.clone(),
            number: self.number,
            kind_hint: self.kind_hint,
        }
    }
}

impl DeepCopy for MetadataItem {
    fn deep_copy(&self) -> (r: Self) {
        MetadataItem { label: self.label.clone(), value: self.value.clone() }
    }
}

impl DeepCopy for EditTarget {
    fn deep_copy(&self) -> (r: Self) {
        EditTarget { node_id: self.node_id.clone(), kind: self.kind, current_body: self.current_body.clone() }
    }
}

impl DeepCopy for Deployment {
    fn deep_copy(&self) -> (r: Self) {
        Deployment {
            environment: self.environment.clone(),
            state: self.state.clone(),
            description: copy_opt_string(&self.description),
            environment_url: copy_opt_string(&self.environment_url),
            log_url: copy_opt_string(&self.log_url),
            created_at: copy_opt_string(&self.created_at),
            updated_at: self.updated_at.clone(),
        }
    }
}

impl DeepCopy for ActivityEntry {
    fn deep_copy(&self) -> (r: Self) {
        ActivityEntry {
            id: self.id.clone(),
            kind: self.kind,
            author: self.author.clone(),
            body: self.body.clone(),
            updated_at: self.updated_at.clone(),
            path: copy_opt_string(&self.path),
            line: self.line,
            url: copy_opt_string(&self.url),
            author_association: copy_opt_string(&self.author_association),
            reactions: self.reactions,
            includes_created_edit: self.includes_created_edit,
            is_minimized: self.is_minimized,
            minimized_reason: copy_opt_string(&self.minimized_reason),
            thread_id: copy_opt_string(&self.thread_id),
            thread_resolved: self.thread_resolved,
            thread_outdated: self.thread_outdated,
            edit: match &self.edit {
                Some(e) => Some(e.deep_copy()),
                None => None,
            },
        }
    }
}

impl DeepCopy for Commit {
    fn deep_copy(&self) -> (r: Self) {
        Commit {
            oid: self.oid.clone(),
            message: self.message.clone(),
            body: self.body.clone(),
            author: self.author.clone(),
            authors: copy_vec(&self.authors),
            authored_at: copy_opt_string(&self.authored_at),
            committed_at: self.committed_at.clone(),
            status: self.status,
            deployments: copy_vec(&self.deployments),
        }
    }
}

impl DeepCopy for CheckRun {
    fn deep_copy(&self) -> (r: Self) {
        CheckRun {
            name: self.name.clone(),
            status: self.status,
            summary: copy_opt_string(&self.summary),
            details_url: copy_opt_string(&self.details_url),
            started_at: copy_opt_string(&self.started_at),
            completed_at: copy_opt_string(&self.completed_at),
            raw_status: copy_opt_string(&self.raw_status),
            raw_conclusion: copy_opt_string(&self.raw_conclusion),
        }
    }
}

impl DeepCopy for ChangedFile {
    fn deep_copy(&self) -> (r: Self) {
        ChangedFile {
            path: self.path.clone(),
            additions: self.additions,
            deletions: self.deletions,
            change_type: self.change_type.clone(),
            patch: copy_opt_string(&self.patch),
        }
    }
}

fn copy_methods(v: &Vec<MergeMethod>) -> (r: Vec<MergeMethod>)
    ensures
        r@ == v@,
{
    let mut r: Vec<MergeMethod> = Vec::new();
    let mut i: usize = 0;
    while i < v.len()
        invariant
            i <= v@.len(),
            r@ == v@.subrange(0, i as int),
        decreases v.len() - i,
    {
        r.push(v[i]);
        proof {
            assert(r@ =~= v@.subrange(0, i + 1));
        }
        i = i + 1;
    }
    proof {
        assert(v@.subrange(0, i as int) =~= v@);
    }
    r
}

impl DeepCopy for PullRequest {
    fn deep_copy(&self) -> (r: Self) {
        PullRequest {
            base_ref: self.base_ref.clone(),
            head_ref: self.head_ref.clone(),
            requested_reviewers: copy_vec(&self.requested_reviewers),
            review_decision: copy_opt_string(&self.review_decision),
            merge_state: copy_opt_string(&self.merge_state),
            additions: self.additions,
            deletions: self.deletions,
            commits: copy_vec(&self.commits),
            checks: copy_vec(&self.checks),
            files: copy_vec(&self.files),
            metadata: copy_vec(&self.metadata),
            allowed_merge_methods: copy_methods(&self.allowed_merge_methods),
        }
    }
}

impl DeepCopy for Resource {
    fn deep_copy(&self) -> (r: Self) {
        Resource {
            id: self.id.deep_copy(),
            title: self.title.clone(),
            url: self.url.clone(),
            state: self.state.clone(),
            author: self.author.clone(),
            created_at: self.created_at.clone(),
            updated_at: self.updated_at.clone(),
            labels: copy_vec(&self.labels),
            assignees: copy_vec(&self.assignees),
            reactions: self.reactions,
            body: self.body.clone(),
            activity: copy_vec(&self.activity),
            related_resources: copy_vec(&self.related_resources),
            metadata: copy_vec(&self.metadata),
            warnings: copy_vec(&self.warnings),
            pull_request: match &self.pull_request {
                Some(p) => Some(p.deep_copy()),
                None => None,
            },
            actions: ActionContext {
                node_id: self.actions.node_id.clone(),
                viewer_can_update: self.actions.viewer_can_update,
                locked: self.actions.locked,
            },
        }
    }
}

} // verus!
