//! Reading the patch of each file out of a pull request's unified diff.
use vstd::prelude::*;

use crate::domain::resource::strs;
use crate::domain::resource_id::{repo_name_spec, IdView, ResourceId};
use crate::github::gh_cli::patch_entries_view;
use crate::text::{decimal, index_of, join, lines, starts_with};

verus! {

/// The path a `diff --git a/<old> b/<new>` line names: what follows `b/`
/// (or `a/`) after the first space past the prefix.
pub open spec fn header_path(line: Seq<char>) -> Option<Seq<char>> {
    let prefix = "diff --git "@;
    if starts_with(line, prefix) {
        let rest = line.subrange(prefix.len() as int, line.len() as int);
        match index_of(rest, ' ') {
            Some(i) => {
                let right = rest.subrange(i + 1, rest.len() as int);
                if starts_with(right, "b/"@) || starts_with(right, "a/"@) {
                    Some(right.subrange(2, right.len() as int))
                } else {
                    None
                }
            },
            None => None,
        }
    } else {
        None
    }
}

/// The sections of a diff's lines: each header line starts a section for
/// its path, each other line joins the section before it, and lines before
/// the first header belong to none.
pub open spec fn sections(ls: Seq<Seq<char>>) -> Seq<(Seq<char>, Seq<Seq<char>>)>
    decreases ls.len(),
{
    if ls.len() == 0 {
        Seq::empty()
    } else {
        let s = sections(ls.drop_last());
        let l = ls.last();
        match header_path(l) {
            Some(p) => s.push((p, seq![l])),
            None => if s.len() > 0 {
                s.update(s.len() - 1, (s.last().0, s.last().1.push(l)))
            } else {
                s
            },
        }
    }
}

/// Each file's patch in a unified diff, in the order of the diff: its path
/// and its section's lines joined by newlines. A later section for the
/// same path takes the place of an earlier one.
pub open spec fn patches_spec(diff: Seq<char>) -> Seq<(Seq<char>, Seq<char>)> {
    sections(lines(diff)).map_values(|e: (Seq<char>, Seq<Seq<char>>)| (e.0, join(e.1, seq!['\n'])))
}

/// The path a diff header line names (see `header_path`).
pub fn parse_diff_header_path(line: &str) -> (r: Option<String>)
    ensures
        match header_path(line@) {
            Some(p) => r is Some && r->0@ == p,
            None => r is None,
        },
{
    let v = crate::text::chars_of(line);
    let prefix = crate::text::chars_of("diff --git ");
    proof {
        reveal_strlit("diff --git ");
    }
    if !crate::text::chars_start_with(v.as_slice(), prefix.as_slice()) {
        return None;
    }
    let start = prefix.len();
    let rest = crate::text::slice_to_vec(v.as_slice(), start, v.len());
    let space = crate::text::find_char(rest.as_slice(), 0, rest.len(), ' ');
    proof {
        assert(rest@.subrange(0, rest@.len() as int) =~= rest@);
        crate::text::lemma_index_of_props(rest@, ' ');
    }
    match space {
        None => None,
        Some(i) => {
            let right = crate::text::slice_to_vec(rest.as_slice(), i + 1, rest.len());
            let b = crate::text::chars_of("b/");
            let a = crate::text::chars_of("a/");
            proof {
                reveal_strlit("b/");
                reveal_strlit("a/");
            }
            if crate::text::chars_start_with(right.as_slice(), b.as_slice())
                || crate::text::chars_start_with(right.as_slice(), a.as_slice()) {
                Some(crate::text::string_of(right.as_slice(), 2, right.len()))
            } else {
                None
            }
        },
    }
}

pub open spec fn section_views(v: Seq<(String, Vec<String>)>) -> Seq<(Seq<char>, Seq<Seq<char>>)> {
    v.map_values(|e: (String, Vec<String>)| (e.0@, strs(e.1@)))
}

fn join_lines(ls: &Vec<String>) -> (s: String)
    ensures
        s@ == join(strs(ls@), seq!['\n']),
{
    let mut s = String::new();
    let mut i: usize = 0;
    proof {
        assert(strs(ls@).subrange(0, 0) =~= Seq::<Seq<char>>::empty());
    }
    while i < ls.len()
        invariant
            i <= ls@.len(),
            s@ == join(strs(ls@).subrange(0, i as int), seq!['\n']),
        decreases ls.len() - i,
    {
        let ghost prior = strs(ls@).subrange(0, i as int);
        if i > 0 {
            s.push('\n');
        }
        crate::text::push_str(&mut s, ls[i].as_str());
        proof {
            assert(strs(ls@).subrange(0, i + 1) =~= prior.push(ls@[i as int]@));
            crate::text::lemma_join_push(prior, seq!['\n'], ls@[i as int]@);
            if i == 0 {
                assert(s@ =~= ls@[0]@);
            }
        }
        i = i + 1;
    }
    proof {
        assert(strs(ls@).subrange(0, ls@.len() as int) =~= strs(ls@));
    }
    s
}

/// Each file's patch in a unified diff (see `patches_spec`).
pub fn parse_unified_diff_patches(diff: &str) -> (r: Vec<(String, String)>)
    ensures
        patch_entries_view(r@) == patches_spec(diff@),
{
    let ls = crate::text::lines_of(diff);
    let mut secs: Vec<(String, Vec<String>)> = Vec::new();
    let mut i: usize = 0;
    while i < ls.len()
        invariant
            i <= ls@.len(),
            section_views(secs@) == sections(strs(ls@).take(i as int)),
        decreases ls.len() - i,
    {
        let ghost prior = section_views(secs@);
        proof {
            assert(strs(ls@).take(i + 1).drop_last() =~= strs(ls@).take(i as int));
            assert(strs(ls@).take(i + 1).last() == ls@[i as int]@);
        }
        let line = &ls[i];
        match parse_diff_header_path(line.as_str()) {
            Some(path) => {
                let mut body: Vec<String> = Vec::new();
                body.push(line.clone());
                proof {
                    assert(strs(body@) =~= seq![ls@[i as int]@]);
                }
                secs.push((path, body));
                proof {
                    assert(section_views(secs@) =~= prior.push((secs@.last().0@, seq![ls@[i as int]@])));
                }
            },
            None => {
                if secs.len() > 0 {
                    let (path, mut body) = secs.pop().unwrap();
                    let ghost before = strs(body@);
                    body.push(line.clone());
                    proof {
                        assert(strs(body@) =~= before.push(ls@[i as int]@));
                    }
                    secs.push((path, body));
                    proof {
                        assert(section_views(secs@) =~= prior.update(
                            prior.len() - 1,
                            (prior.last().0, prior.last().1.push(ls@[i as int]@)),
                        ));
                    }
                }
            },
        }
        i = i + 1;
    }
    proof {
        assert(strs(ls@).take(ls@.len() as int) =~= strs(ls@));
    }
    let mut r: Vec<(String, String)> = Vec::new();
    let mut k: usize = 0;
    while k < secs.len()
        invariant
            k <= secs@.len(),
            patch_entries_view(r@) == section_views(secs@).take(k as int).map_values(
                |e: (Seq<char>, Seq<Seq<char>>)| (e.0, join(e.1, seq!['\n'])),
            ),
        decreases secs.len() - k,
    {
        let ghost prior = patch_entries_view(r@);
        let joined = join_lines(&secs[k].1);
        let path = secs[k].0.clone();
        let ghost e = (path@, joined@);
        r.push((path, joined));
        proof {
            let f = |e: (Seq<char>, Seq<Seq<char>>)| (e.0, join(e.1, seq!['\n']));
            assert(section_views(secs@)[k as int] == (secs@[k as int].0@, strs(secs@[k as int].1@)));
            assert(e == f(section_views(secs@)[k as int]));
            assert(patch_entries_view(r@) =~= prior.push(e));
            assert(section_views(secs@).take(k + 1).map_values(f) =~= section_views(secs@).take(k as int).map_values(f).push(e));
            assert(patch_entries_view(r@) =~= section_views(secs@).take(k + 1).map_values(
                |e: (Seq<char>, Seq<Seq<char>>)| (e.0, join(e.1, seq!['\n'])),
            ));
        }
        k = k + 1;
    }
    proof {
        assert(section_views(secs@).take(secs@.len() as int) =~= section_views(secs@));
    }
    r
}

/// `gh pr diff <number> -R <owner>/<repo> --patch`.
pub open spec fn pr_diff_command_spec(id: IdView) -> Seq<Seq<char>> {
    seq!["gh"@, "pr"@, "diff"@, decimal(id.number as nat), "-R"@, repo_name_spec(id), "--patch"@]
}

/// The command that prints the patch of pull request `id`.
pub fn pr_diff_command(id: &ResourceId) -> (v: Vec<String>)
    ensures
        strs(v@) == pr_diff_command_spec(id@),
{
    let mut v: Vec<String> = Vec::new();
    v.push(crate::text::owned("gh"));
    v.push(crate::text::owned("pr"));
    v.push(crate::text::owned("diff"));
    v.push(crate::text::u64_to_string(id.number));
    v.push(crate::text::owned("-R"));
    v.push(id.repo_name_with_owner());
    v.push(crate::text::owned("--patch"));
    proof {
        assert(strs(v@) =~= pr_diff_command_spec(id@));
    }
    v
}

} // verus!
