//! Reading values out of the JSON objects `gh` reports: the text or number
//! at a path of keys, and the title or name an object is known by.
use vstd::prelude::*;

use crate::domain::resource::strs;
use crate::github::dto::{JsonLeaf, JsonScalar, JsonValue};
use crate::github::gh_cli::or_else;

verus! {

/// A scalar of a JSON document, as a mathematical value.
pub enum ScalarView {
    Text(Seq<char>),
    Number(u64),
}

pub open spec fn scalar_view(s: JsonScalar) -> ScalarView {
    match s {
        JsonScalar::Text(t) => ScalarView::Text(t@),
        JsonScalar::Number(n) => ScalarView::Number(n),
    }
}

/// The scalar at `path`: that of the first leaf with exactly that path.
pub open spec fn first_leaf(leaves: Seq<JsonLeaf>, path: Seq<Seq<char>>) -> Option<ScalarView>
    decreases leaves.len(),
{
    if leaves.len() == 0 {
        None
    } else if strs(leaves[0].path@) == path {
        Some(scalar_view(leaves[0].value))
    } else {
        first_leaf(leaves.drop_first(), path)
    }
}

/// The text at `path` of `v`, as `Value::get` along the path and then
/// `as_str` give it.
pub open spec fn text_at(v: JsonValue, path: Seq<Seq<char>>) -> Option<Seq<char>> {
    match first_leaf(v.leaves@, path) {
        Some(ScalarView::Text(t)) => Some(t),
        _ => None,
    }
}

/// The unsigned integer at `path` of `v`, as `as_u64` gives it.
pub open spec fn number_at(v: JsonValue, path: Seq<Seq<char>>) -> Option<u64> {
    match first_leaf(v.leaves@, path) {
        Some(ScalarView::Number(n)) => Some(n),
        _ => None,
    }
}

/// The length of the longest path of `leaves`.
pub open spec fn depth(leaves: Seq<JsonLeaf>) -> nat
    decreases leaves.len(),
{
    if leaves.len() == 0 {
        0
    } else {
        let d = depth(leaves.drop_last());
        let l = leaves.last().path@.len();
        if l > d { l } else { d }
    }
}

fn paths_equal(a: &Vec<String>, b: &Vec<String>) -> (r: bool)
    ensures
        r == (strs(a@) == strs(b@)),
{
    if a.len() != b.len() {
        proof {
            assert(strs(a@).len() != strs(b@).len());
        }
        return false;
    }
    let mut i: usize = 0;
    while i < a.len()
        invariant
            a@.len() == b@.len(),
            i <= a@.len(),
            forall|k: int| 0 <= k < i ==> (#[trigger] a@[k])@ == b@[k]@,
        decreases a.len() - i,
    {
        if !crate::text::str_eq(a[i].as_str(), b[i].as_str()) {
            proof {
                assert(strs(a@)[i as int] != strs(b@)[i as int]);
            }
            return false;
        }
        i = i + 1;
    }
    proof {
        assert(strs(a@) =~= strs(b@));
    }
    true
}

/// The scalar at `path` of `v` (see `first_leaf`).
fn leaf_at<'a>(v: &'a JsonValue, path: &Vec<String>) -> (r: Option<&'a JsonScalar>)
    ensures
        match r {
            Some(s) => first_leaf(v.leaves@, strs(path@)) == Some(scalar_view(*s)),
            None => first_leaf(v.leaves@, strs(path@)) is None,
        },
{
    let mut i: usize = 0;
    proof {
        assert(v.leaves@.subrange(0, v.leaves@.len() as int) =~= v.leaves@);
    }
    while i < v.leaves.len()
        invariant
            i <= v.leaves@.len(),
            first_leaf(v.leaves@, strs(path@)) == first_leaf(v.leaves@.subrange(i as int, v.leaves@.len() as int), strs(path@)),
        decreases v.leaves.len() - i,
    {
        let ghost rest = v.leaves@.subrange(i as int, v.leaves@.len() as int);
        proof {
            assert(rest.drop_first() =~= v.leaves@.subrange(i + 1, v.leaves@.len() as int));
            assert(rest[0] == v.leaves@[i as int]);
        }
        if paths_equal(&v.leaves[i].path, path) {
            return Some(&v.leaves[i].value);
        }
        i = i + 1;
    }
    None
}

/// The text at `path` of `v` (see `text_at`).
pub fn text_at_path(v: &JsonValue, path: &Vec<String>) -> (r: Option<String>)
    ensures
        crate::domain::resource::opt_str(r) == text_at(*v, strs(path@)),
{
    match leaf_at(v, path) {
        Some(JsonScalar::Text(t)) => Some(t.clone()),
        _ => None,
    }
}

/// The unsigned integer at `path` of `v` (see `number_at`).
pub fn number_at_path(v: &JsonValue, path: &Vec<String>) -> (r: Option<u64>)
    ensures
        r == number_at(*v, strs(path@)),
{
    match leaf_at(v, path) {
        Some(JsonScalar::Number(n)) => Some(*n),
        _ => None,
    }
}

/// The path of the given keys.
pub fn path_of(keys: &[&str]) -> (p: Vec<String>)
    ensures
        strs(p@) == keys@.map_values(|k: &str| k@),
{
    let mut p: Vec<String> = Vec::new();
    let mut i: usize = 0;
    while i < keys.len()
        invariant
            i <= keys@.len(),
            strs(p@) == keys@.subrange(0, i as int).map_values(|k: &str| k@),
        decreases keys.len() - i,
    {
        let ghost before = p@;
        p.push(crate::text::owned(keys[i]));
        proof {
            assert(strs(p@) =~= strs(before).push(keys@[i as int]@));
            assert(keys@.subrange(0, i + 1).map_values(|k: &str| k@) =~= keys@.subrange(0, i as int).map_values(
                |k: &str| k@,
            ).push(keys@[i as int]@));
        }
        i = i + 1;
    }
    proof {
        assert(keys@.subrange(0, i as int) =~= keys@);
    }
    p
}

fn extended(prefix: &Vec<String>, key: &str) -> (p: Vec<String>)
    ensures
        strs(p@) == strs(prefix@).push(key@),
{
    let mut p: Vec<String> = Vec::new();
    let mut i: usize = 0;
    while i < prefix.len()
        invariant
            i <= prefix@.len(),
            strs(p@) == strs(prefix@.subrange(0, i as int)),
        decreases prefix.len() - i,
    {
        let ghost before = p@;
        p.push(prefix[i].clone());
        proof {
            assert(strs(p@) =~= strs(before).push(prefix@[i as int]@));
            assert(strs(prefix@.subrange(0, i + 1)) =~= strs(prefix@.subrange(0, i as int)).push(prefix@[i as int]@));
        }
        i = i + 1;
    }
    p.push(crate::text::owned(key));
    proof {
        assert(prefix@.subrange(0, i as int) =~= prefix@);
        assert(strs(p@) =~= strs(prefix@).push(key@));
    }
    p
}

fn leaves_depth(v: &JsonValue) -> (d: usize)
    ensures
        d == depth(v.leaves@),
{
    let mut d: usize = 0;
    let mut i: usize = 0;
    while i < v.leaves.len()
        invariant
            i <= v.leaves@.len(),
            d == depth(v.leaves@.subrange(0, i as int)),
        decreases v.leaves.len() - i,
    {
        proof {
            assert(v.leaves@.subrange(0, i + 1).drop_last() =~= v.leaves@.subrange(0, i as int));
        }
        let l = v.leaves[i].path.len();
        if l > d {
            d = l;
        }
        i = i + 1;
    }
    proof {
        assert(v.leaves@.subrange(0, i as int) =~= v.leaves@);
    }
    d
}

/// The name an object at `prefix` is known by: its `title`, `name`, `login`
/// or `oid`, else that of its `project`, `repository` or `owner`.
pub open spec fn title_at(v: JsonValue, prefix: Seq<Seq<char>>, fuel: nat) -> Option<Seq<char>>
    decreases fuel,
{
    if fuel == 0 {
        None
    } else {
        or_else(text_at(v, prefix.push("title"@)),
        or_else(text_at(v, prefix.push("name"@)),
        or_else(text_at(v, prefix.push("login"@)),
        or_else(text_at(v, prefix.push("oid"@)),
        or_else(title_at(v, prefix.push("project"@), (fuel - 1) as nat),
        or_else(title_at(v, prefix.push("repository"@), (fuel - 1) as nat),
        title_at(v, prefix.push("owner"@), (fuel - 1) as nat)))))))
    }
}

/// The name a JSON object is known by (see `title_at`); the search goes no
/// deeper than the object's deepest value.
pub open spec fn value_title_spec(v: JsonValue) -> Option<Seq<char>> {
    title_at(v, Seq::empty(), depth(v.leaves@))
}

fn first_of(a: Option<String>, b: Option<String>) -> (r: Option<String>)
    ensures
        crate::domain::resource::opt_str(r) == or_else(crate::domain::resource::opt_str(a), crate::domain::resource::opt_str(b)),
{
    match a {
        Some(x) => Some(x),
        None => b,
    }
}

fn title_at_exec(v: &JsonValue, prefix: &Vec<String>, fuel: usize) -> (r: Option<String>)
    ensures
        crate::domain::resource::opt_str(r) == title_at(*v, strs(prefix@), fuel as nat),
    decreases fuel,
{
    if fuel == 0 {
        return None;
    }
    let title = text_at_path(v, &extended(prefix, "title"));
    if title.is_some() {
        return title;
    }
    let name = text_at_path(v, &extended(prefix, "name"));
    if name.is_some() {
        return name;
    }
    let login = text_at_path(v, &extended(prefix, "login"));
    if login.is_some() {
        return login;
    }
    let oid = text_at_path(v, &extended(prefix, "oid"));
    if oid.is_some() {
        return oid;
    }
    let project = title_at_exec(v, &extended(prefix, "project"), fuel - 1);
    if project.is_some() {
        return project;
    }
    let repository = title_at_exec(v, &extended(prefix, "repository"), fuel - 1);
    if repository.is_some() {
        return repository;
    }
    title_at_exec(v, &extended(prefix, "owner"), fuel - 1)
}

/// The name a JSON object is known by (see `value_title_spec`).
pub fn value_title(value: Option<&JsonValue>) -> (r: Option<String>)
    ensures
        crate::domain::resource::opt_str(r) == match value {
            Some(v) => value_title_spec(*v),
            None => None,
        },
{
    match value {
        Some(v) => {
            let d = leaves_depth(v);
            let root: Vec<String> = Vec::new();
            proof {
                assert(strs(root@) =~= Seq::<Seq<char>>::empty());
            }
            title_at_exec(v, &root, d)
        },
        None => None,
    }
}

/// The names a list of JSON objects are known by, leaving out those known
/// by none.
pub open spec fn value_titles_spec(values: Seq<JsonValue>) -> Seq<Seq<char>>
    decreases values.len(),
{
    if values.len() == 0 {
        Seq::empty()
    } else {
        let prior = value_titles_spec(values.drop_last());
        match value_title_spec(values.last()) {
            Some(t) => prior.push(t),
            None => prior,
        }
    }
}

/// The names `values` are known by (see `value_titles_spec`).
pub fn value_titles(values: &Vec<JsonValue>) -> (r: Vec<String>)
    ensures
        strs(r@) == value_titles_spec(values@),
{
    let mut r: Vec<String> = Vec::new();
    let mut i: usize = 0;
    while i < values.len()
        invariant
            i <= values@.len(),
            strs(r@) == value_titles_spec(values@.subrange(0, i as int)),
        decreases values.len() - i,
    {
        proof {
            assert(values@.subrange(0, i + 1).drop_last() =~= values@.subrange(0, i as int));
        }
        match value_title(Some(&values[i])) {
            Some(t) => {
                let ghost before = r@;
                r.push(t);
                proof {
                    assert(strs(r@) =~= strs(before).push(r@.last()@));
                }
            },
            None => {},
        }
        i = i + 1;
    }
    proof {
        assert(values@.subrange(0, i as int) =~= values@);
    }
    r
}

/// The `oid` of a JSON object.
pub fn value_oid(value: Option<&JsonValue>) -> (r: Option<String>)
    ensures
        crate::domain::resource::opt_str(r) == match value {
            Some(v) => text_at(*v, seq!["oid"@]),
            None => None,
        },
{
    match value {
        Some(v) => {
            let p = path_of(&["oid"]);
            proof {
                assert(strs(p@) =~= seq!["oid"@]);
            }
            text_at_path(v, &p)
        },
        None => None,
    }
}

/// The name a review request shows: the `login`, `name` or `slug` of the
/// account or team it asks, looking through `requestedReviewer` wrappers.
pub open spec fn request_name_at(v: JsonValue, prefix: Seq<Seq<char>>, fuel: nat) -> Option<Seq<char>>
    decreases fuel,
{
    if fuel == 0 {
        None
    } else {
        or_else(text_at(v, prefix.push("login"@)),
        or_else(text_at(v, prefix.push("name"@)),
        or_else(text_at(v, prefix.push("slug"@)),
        request_name_at(v, prefix.push("requestedReviewer"@), (fuel - 1) as nat))))
    }
}

pub open spec fn review_request_spec(v: JsonValue) -> Option<Seq<char>> {
    request_name_at(v, Seq::empty(), depth(v.leaves@))
}

fn request_name_exec(v: &JsonValue, prefix: &Vec<String>, fuel: usize) -> (r: Option<String>)
    ensures
        crate::domain::resource::opt_str(r) == request_name_at(*v, strs(prefix@), fuel as nat),
    decreases fuel,
{
    if fuel == 0 {
        return None;
    }
    let login = text_at_path(v, &extended(prefix, "login"));
    if login.is_some() {
        return login;
    }
    let name = text_at_path(v, &extended(prefix, "name"));
    if name.is_some() {
        return name;
    }
    let slug = text_at_path(v, &extended(prefix, "slug"));
    if slug.is_some() {
        return slug;
    }
    request_name_exec(v, &extended(prefix, "requestedReviewer"), fuel - 1)
}

/// The names of the accounts and teams asked to review, leaving out requests
/// that name none.
pub open spec fn review_request_names_spec(requests: Seq<JsonValue>) -> Seq<Seq<char>>
    decreases requests.len(),
{
    if requests.len() == 0 {
        Seq::empty()
    } else {
        let prior = review_request_names_spec(requests.drop_last());
        match review_request_spec(requests.last()) {
            Some(t) => prior.push(t),
            None => prior,
        }
    }
}

/// The names the review requests show (see `review_request_names_spec`).
pub fn review_request_names(requests: &Vec<JsonValue>) -> (r: Vec<String>)
    ensures
        strs(r@) == review_request_names_spec(requests@),
{
    let mut r: Vec<String> = Vec::new();
    let mut i: usize = 0;
    while i < requests.len()
        invariant
            i <= requests@.len(),
            strs(r@) == review_request_names_spec(requests@.subrange(0, i as int)),
        decreases requests.len() - i,
    {
        proof {
            assert(requests@.subrange(0, i + 1).drop_last() =~= requests@.subrange(0, i as int));
        }
        let v = &requests[i];
        let d = leaves_depth(v);
        let root: Vec<String> = Vec::new();
        proof {
            assert(strs(root@) =~= Seq::<Seq<char>>::empty());
        }
        match request_name_exec(v, &root, d) {
            Some(t) => {
                let ghost before = r@;
                r.push(t);
                proof {
                    assert(strs(r@) =~= strs(before).push(r@.last()@));
                }
            },
            None => {},
        }
        i = i + 1;
    }
    proof {
        assert(requests@.subrange(0, i as int) =~= requests@);
    }
    r
}

} // verus!
