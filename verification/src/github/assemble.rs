//! How the separately loaded parts of a pull request or issue come
//! together: the base view, then the activity, changed files, patches and
//! deployments that loaded, with a warning for each part that did not.
use vstd::prelude::*;

use crate::domain::copy::DeepCopy;
use crate::domain::resource::{
    views, ActivityEntry, ActivityEntryView, ChangedFile, ChangedFileView, Commit, CommitView,
    Deployment, PullRequestView, Resource, ResourceView,
};
use crate::github::activity::{sort_activity, sort_spec};
use crate::github::gh_cli::{
    apply_commit_deployments, apply_file_patches, deployment_entries_view, patch_entries_view,
    push_enrichment_warning, with_deployments, with_patch,
};

verus! {

/// What a loaded part adds to a list: its items, or nothing when it failed.
pub open spec fn loaded<T>(r: Result<Seq<T>, Seq<char>>) -> Seq<T> {
    match r {
        Ok(v) => v,
        Err(_) => Seq::empty(),
    }
}

/// The warning a part that failed to load leaves: its label and the error.
pub open spec fn failure_note<T>(label: Seq<char>, r: Result<T, Seq<char>>) -> Seq<Seq<char>> {
    match r {
        Ok(_) => Seq::empty(),
        Err(e) => seq![label + ": "@ + e],
    }
}

pub open spec fn res_view<T: View>(r: Result<Vec<T>, String>) -> Result<Seq<T::V>, Seq<char>> {
    match r {
        Ok(v) => Ok(views(v@)),
        Err(e) => Err(e@),
    }
}

pub open spec fn patches_view(r: Result<Vec<(String, String)>, String>) -> Result<Seq<(Seq<char>, Seq<char>)>, Seq<char>> {
    match r {
        Ok(v) => Ok(patch_entries_view(v@)),
        Err(e) => Err(e@),
    }
}

pub open spec fn deployments_view(r: Result<Vec<(String, Vec<Deployment>)>, String>)
    -> Result<Seq<(Seq<char>, Seq<crate::domain::resource::DeploymentView>)>, Seq<char>> {
    match r {
        Ok(v) => Ok(deployment_entries_view(v@)),
        Err(e) => Err(e@),
    }
}

/// An issue with its timeline: the timeline's entries follow the loaded
/// ones, a failure leaves a warning, and the feed is put in display order.
pub open spec fn issue_assembled(base: ResourceView, timeline: Result<Seq<ActivityEntryView>, Seq<char>>) -> ResourceView {
    ResourceView {
        activity: sort_spec(base.activity + loaded(timeline)),
        warnings: base.warnings + failure_note("timeline unavailable"@, timeline),
        ..base
    }
}

/// A pull request with its review threads and timeline (as for an issue,
/// threads first), then, when it is a pull request, the full changed file
/// list when it loaded, each file's patch, and each commit's deployments,
/// with a warning for each part that failed, in that order.
pub open spec fn pr_assembled(
    base: ResourceView,
    threads: Result<Seq<ActivityEntryView>, Seq<char>>,
    timeline: Result<Seq<ActivityEntryView>, Seq<char>>,
    files: Result<Seq<ChangedFileView>, Seq<char>>,
    patches: Result<Seq<(Seq<char>, Seq<char>)>, Seq<char>>,
    deployments: Result<Seq<(Seq<char>, Seq<crate::domain::resource::DeploymentView>)>, Seq<char>>,
) -> ResourceView {
    let a = ResourceView {
        activity: sort_spec(base.activity + loaded(threads) + loaded(timeline)),
        warnings: base.warnings + failure_note("review threads unavailable"@, threads) + failure_note(
            "timeline unavailable"@,
            timeline,
        ),
        ..base
    };
    match a.pull_request {
        None => a,
        Some(pr) => {
            let fs = match files {
                Ok(v) => v,
                Err(_) => pr.files,
            };
            let fs2 = match patches {
                Ok(ps) => fs.map_values(|f: ChangedFileView| with_patch(f, ps)),
                Err(_) => fs,
            };
            let cs = match deployments {
                Ok(ds) => pr.commits.map_values(|c: CommitView| with_deployments(c, ds)),
                Err(_) => pr.commits,
            };
            ResourceView {
                pull_request: Some(PullRequestView { files: fs2, commits: cs, ..pr }),
                warnings: a.warnings + failure_note("full changed file list unavailable"@, files) + failure_note(
                    "file patch context unavailable"@,
                    patches,
                ) + failure_note("commit deployments unavailable"@, deployments),
                ..a
            }
        },
    }
}

/// Adds the entries of a part that loaded to `activity`, or its warning
/// to the resource's warnings.
fn take_part(resource: &mut Resource, part: Result<Vec<ActivityEntry>, String>, label: &str)
    ensures
        final(resource)@ == (ResourceView {
            activity: old(resource)@.activity + loaded(res_view(part)),
            warnings: old(resource)@.warnings + failure_note(label@, res_view(part)),
            ..old(resource)@
        }),
{
    match part {
        Ok(entries) => {
            let ghost before = old(resource)@;
            let mut i: usize = 0;
            while i < entries.len()
                invariant
                    i <= entries@.len(),
                    resource@ == (ResourceView { activity: before.activity + views(entries@).take(i as int), ..before }),
                decreases entries.len() - i,
            {
                let ghost prior = resource@;
                let e = entries[i].deep_copy();
                let ghost ev = e@;
                resource.activity.push(e);
                proof {
                    assert(resource@.activity =~= prior.activity.push(ev));
                    assert(resource@.activity =~= before.activity + views(entries@).take(i + 1));
                    assert(resource@ == (ResourceView { activity: before.activity + views(entries@).take(i + 1), ..before }));
                }
                i = i + 1;
            }
            proof {
                assert(views(entries@).take(entries@.len() as int) =~= views(entries@));
                assert(before.warnings + Seq::<Seq<char>>::empty() =~= before.warnings);
            }
        },
        Err(e) => {
            push_enrichment_warning(resource, label, e.as_str());
            proof {
                assert(old(resource)@.activity + Seq::<ActivityEntryView>::empty() =~= old(resource)@.activity);
                assert(old(resource)@.warnings.push(label@ + ": "@ + e@) =~= old(resource)@.warnings + seq![label@ + ": "@ + e@]);
            }
        },
    }
}

fn push_note(notes: &mut Vec<String>, label: &str, error: &str)
    ensures
        crate::domain::resource::strs(final(notes)@) == crate::domain::resource::strs(old(notes)@).push(label@ + ": "@ + error@),
{
    let mut w = crate::text::owned(label);
    crate::text::push_str(&mut w, ": ");
    crate::text::push_str(&mut w, error);
    notes.push(w);
    proof {
        assert(crate::domain::resource::strs(notes@) =~= crate::domain::resource::strs(old(notes)@).push(label@ + ": "@ + error@));
    }
}

/// Puts an issue and its timeline together (see `issue_assembled`).
pub fn assemble_issue(resource: Resource, timeline: Result<Vec<ActivityEntry>, String>) -> (r: Resource)
    ensures
        r@ == issue_assembled(resource@, res_view(timeline)),
{
    let mut resource = resource;
    take_part(&mut resource, timeline, "timeline unavailable");
    sort_activity(&mut resource.activity);
    resource
}

/// Puts a pull request and its separately loaded parts together (see
/// `pr_assembled`).
pub fn assemble_pr(
    resource: Resource,
    threads: Result<Vec<ActivityEntry>, String>,
    timeline: Result<Vec<ActivityEntry>, String>,
    files: Result<Vec<ChangedFile>, String>,
    patches: Result<Vec<(String, String)>, String>,
    deployments: Result<Vec<(String, Vec<Deployment>)>, String>,
) -> (r: Resource)
    ensures
        r@ == pr_assembled(
            resource@,
            res_view(threads),
            res_view(timeline),
            res_view(files),
            patches_view(patches),
            deployments_view(deployments),
        ),
{
    let ghost base = resource@;
    let ghost tv = res_view(threads);
    let ghost lv = res_view(timeline);
    let ghost fv = res_view(files);
    let ghost pv = patches_view(patches);
    let ghost dv = deployments_view(deployments);
    let mut resource = resource;
    take_part(&mut resource, threads, "review threads unavailable");
    take_part(&mut resource, timeline, "timeline unavailable");
    sort_activity(&mut resource.activity);
    let ghost a = resource@;
    proof {
        assert(base.activity + loaded(tv) + loaded(lv) =~= (base.activity + loaded(tv)) + loaded(lv));
        assert(a == (ResourceView {
            activity: sort_spec(base.activity + loaded(tv) + loaded(lv)),
            warnings: base.warnings + failure_note("review threads unavailable"@, tv) + failure_note("timeline unavailable"@, lv),
            ..base
        }));
    }
    match resource.pull_request.take() {
        None => {
            proof {
                assert(resource@ == a);
                assert(pr_assembled(base, tv, lv, fv, pv, dv) == a);
            }
            resource
        },
        Some(pr) => {
            let ghost prv = pr@;
            let mut pr = pr;
            let mut notes: Vec<String> = Vec::new();
            match files {
                Ok(v) => {
                    pr.files = v;
                },
                Err(e) => {
                    push_note(&mut notes, "full changed file list unavailable", e.as_str());
                },
            }
            let ghost fs = pr@.files;
            match patches {
                Ok(ps) => {
                    let ghost entries = patch_entries_view(ps@);
                    let ghost before = pr.files@;
                    apply_file_patches(&mut pr.files, ps);
                    proof {
                        assert(views(pr.files@) =~= fs.map_values(|f: ChangedFileView| with_patch(f, entries)));
                    }
                },
                Err(e) => {
                    push_note(&mut notes, "file patch context unavailable", e.as_str());
                },
            }
            match deployments {
                Ok(ds) => {
                    let ghost entries = deployment_entries_view(ds@);
                    apply_commit_deployments(&mut pr.commits, ds);
                    proof {
                        assert(views(pr.commits@) =~= prv.commits.map_values(|c: CommitView| with_deployments(c, entries)));
                    }
                },
                Err(e) => {
                    push_note(&mut notes, "commit deployments unavailable", e.as_str());
                },
            }
            proof {
                assert(crate::domain::resource::strs(notes@) =~= failure_note("full changed file list unavailable"@, fv)
                    + failure_note("file patch context unavailable"@, pv) + failure_note("commit deployments unavailable"@, dv));
            }
            let ghost w0 = resource@.warnings;
            let mut i: usize = 0;
            while i < notes.len()
                invariant
                    i <= notes@.len(),
                    resource@.warnings == w0 + crate::domain::resource::strs(notes@).take(i as int),
                    resource@ == (ResourceView { warnings: resource@.warnings, pull_request: None, ..a }),
                decreases notes.len() - i,
            {
                let ghost prior = resource@.warnings;
                let n = notes[i].clone();
                resource.warnings.push(n);
                proof {
                    assert(resource@.warnings =~= prior.push(notes@[i as int]@));
                    assert(resource@.warnings =~= w0 + crate::domain::resource::strs(notes@).take(i + 1));
                }
                i = i + 1;
            }
            proof {
                assert(crate::domain::resource::strs(notes@).take(notes@.len() as int) =~= crate::domain::resource::strs(notes@));
            }
            proof {
                let fs_spec = match fv {
                    Ok(v) => v,
                    Err(_) => prv.files,
                };
                assert(fs == fs_spec);
                let fs2 = match pv {
                    Ok(ps) => fs_spec.map_values(|f: ChangedFileView| with_patch(f, ps)),
                    Err(_) => fs_spec,
                };
                let cs = match dv {
                    Ok(ds) => prv.commits.map_values(|c: CommitView| with_deployments(c, ds)),
                    Err(_) => prv.commits,
                };
                assert(pr@ == PullRequestView { files: fs2, commits: cs, ..prv });
            }
            resource.pull_request = Some(pr);
            proof {
                assert(a.pull_request == Some(prv));
                assert(resource@.warnings =~= a.warnings + failure_note("full changed file list unavailable"@, fv)
                    + failure_note("file patch context unavailable"@, pv) + failure_note("commit deployments unavailable"@, dv));
            }
            resource
        },
    }
}

} // verus!
