pub mod action;
pub mod copy;
pub mod fingerprint;
pub mod resource;
pub mod resource_id;

pub use action::{
    available_actions, body_edit_target, editable_targets, ActionKind, EditKind, EditTarget,
    MergeMethod, ResourceAction,
};
pub use resource::{
    ActionContext, ActivityEntry, ActivityKind, ChangedFile, CheckCounts, CheckRun, CheckStatus,
    Commit, Deployment, MetadataItem, PullRequest, ReactionCounts, Resource,
    FILE_PATCH_CONTEXT_UNAVAILABLE_WARNING, FULL_DEPTH_WARNING_HINT,
    PUBLIC_REST_FALLBACK_WARNING_PREFIX,
};
pub use resource_id::{ResourceId, ResourceIdError, ResourceKind};
