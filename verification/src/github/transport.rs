//! What the library decides about GitHub HTTP exchanges: where requests go,
//! when an answer is a failure, and how GraphQL errors are summed up.
use vstd::prelude::*;

use crate::text::{contains, is_ws, join, push_str};

verus! {

pub const GITHUB_GRAPHQL_URL: &'static str = "https://api.github.com/graphql";
pub const GITHUB_REST_URL: &'static str = "https://api.github.com";
pub const GITHUB_JSON_ACCEPT: &'static str = "application/vnd.github+json";

/// The words of `s`: its maximal runs of characters other than whitespace.
pub open spec fn words(s: Seq<char>) -> Seq<Seq<char>>
    decreases s.len(),
{
    if s.len() == 0 {
        Seq::empty()
    } else {
        let w = words(s.drop_last());
        let c = s.last();
        if is_ws(c) {
            w
        } else if s.len() >= 2 && !is_ws(s[s.len() - 2]) && w.len() > 0 {
            w.update(w.len() - 1, w.last().push(c))
        } else {
            w.push(seq![c])
        }
    }
}

/// `s` with its words separated by single spaces.
pub open spec fn compact(s: Seq<char>) -> Seq<char> {
    join(words(s), " "@)
}

proof fn lemma_words_nonempty_after_word(s: Seq<char>)
    requires
        s.len() > 0,
        !is_ws(s.last()),
    ensures
        words(s).len() > 0,
{
}

proof fn lemma_join_extend_last(w: Seq<Seq<char>>, sep: Seq<char>, c: char)
    requires
        w.len() > 0,
    ensures
        join(w.update(w.len() - 1, w.last().push(c)), sep) == join(w, sep).push(c),
{
    let u = w.update(w.len() - 1, w.last().push(c));
    if w.len() == 1 {
        assert(u[0] == w[0].push(c));
    } else {
        assert(u.drop_last() =~= w.drop_last());
        assert(u.last() == w.last().push(c));
        assert(join(w.drop_last(), sep) + sep + w.last().push(c) =~= (join(w.drop_last(), sep) + sep + w.last()).push(c));
    }
}

/// `s` with its words separated by single spaces (see `compact`).
pub fn compact_whitespace(value: &str) -> (r: String)
    ensures
        r@ == compact(value@),
{
    let v = crate::text::chars_of(value);
    let mut out = String::new();
    let mut in_word = false;
    let mut any = false;
    let mut i: usize = 0;
    proof {
        reveal_strlit(" ");
    }
    while i < v.len()
        invariant
            i <= v@.len(),
            out@ == join(words(v@.take(i as int)), " "@),
            in_word == (i > 0 && !is_ws(v@[i - 1])),
            any == (words(v@.take(i as int)).len() > 0),
            " "@ == seq![' '],
        decreases v.len() - i,
    {
        let c = v[i];
        let ghost p = v@.take(i as int);
        let ghost q = v@.take(i + 1);
        proof {
            assert(q.drop_last() =~= p);
            assert(q.last() == c);
        }
        if crate::text::is_whitespace(c) {
            in_word = false;
        } else {
            if in_word {
                proof {
                    assert(p.last() == v@[i - 1]);
                    lemma_words_nonempty_after_word(p);
                    assert(q[q.len() - 2] == v@[i - 1]);
                    lemma_join_extend_last(words(p), " "@, c);
                }
                out.push(c);
            } else {
                let ghost w = words(p);
                proof {
                    if i > 0 {
                        assert(q[q.len() - 2] == v@[i - 1]);
                    }
                    crate::text::lemma_join_push(w, " "@, seq![c]);
                }
                if any {
                    out.push(' ');
                    out.push(c);
                } else {
                    out.push(c);
                }
                proof {
                    assert(out@ =~= join(w.push(seq![c]), " "@));
                }
            }
            in_word = true;
            any = true;
        }
        i = i + 1;
    }
    proof {
        assert(v@.take(v@.len() as int) =~= v@);
    }
    out
}

/// One GraphQL error as the response gave it: its type and message when
/// they are texts, and the error's own JSON text.
#[derive(Debug, Clone, PartialEq, Eq)]
pub struct GraphqlError {
    pub error_type: Option<String>,
    pub message: Option<String>,
    pub raw: String,
}

/// The `errors` member of a GraphQL response: a list of errors, or some
/// other JSON value, given by its text.
#[derive(Debug, Clone, PartialEq, Eq)]
pub enum GraphqlErrors {
    List(Vec<GraphqlError>),
    Other(String),
}

/// What a token without the project scope is told.
pub const MISSING_PROJECT_SCOPE: &'static str = "INSUFFICIENT_SCOPES: token lacks read:project for one or more GitHub GraphQL fields; update token scopes at https://github.com/settings/tokens";

pub open spec fn opt_or(o: Option<String>, fallback: Seq<char>) -> Seq<char> {
    match o {
        Some(s) => s@,
        None => fallback,
    }
}

/// One error's line: its type (`GraphQL error` when it has none) and its
/// message with whitespace compacted (its whole JSON text when it has no
/// message); a missing `read:project` scope is explained instead.
pub open spec fn error_summary(e: GraphqlError) -> Seq<char> {
    let t = opt_or(e.error_type, "GraphQL error"@);
    let m = match e.message {
        Some(m) => compact(m@),
        None => compact(e.raw@),
    };
    if t == "INSUFFICIENT_SCOPES"@ && contains(m, "read:project"@) {
        MISSING_PROJECT_SCOPE@
    } else {
        t + ": "@ + m
    }
}

/// The summary of a response's errors: the lines of the first three,
/// then how many more there are, joined by `; `; an `errors` value that is
/// not a list is given as its compacted text.
pub open spec fn errors_summary(errors: GraphqlErrors) -> Seq<char> {
    match errors {
        GraphqlErrors::Other(raw) => compact(raw@),
        GraphqlErrors::List(es) => {
            let k = if es@.len() < 3 { es@.len() as int } else { 3 };
            let lines = es@.take(k).map_values(|e: GraphqlError| error_summary(e));
            let all = if es@.len() > k {
                lines.push(crate::text::decimal((es@.len() - k) as nat) + " more error(s)"@)
            } else {
                lines
            };
            join(all, "; "@)
        },
    }
}

fn error_line(e: &GraphqlError) -> (s: String)
    ensures
        s@ == error_summary(*e),
{
    let t = match &e.error_type {
        Some(t) => t.clone(),
        None => crate::text::owned("GraphQL error"),
    };
    let m = match &e.message {
        Some(m) => compact_whitespace(m.as_str()),
        None => compact_whitespace(e.raw.as_str()),
    };
    let scope = crate::text::str_eq(t.as_str(), "INSUFFICIENT_SCOPES") && {
        let mv = crate::text::chars_of(m.as_str());
        let needle = crate::text::chars_of("read:project");
        crate::text::chars_contain(mv.as_slice(), needle.as_slice())
    };
    if scope {
        crate::text::owned(MISSING_PROJECT_SCOPE)
    } else {
        let mut s = t;
        push_str(&mut s, ": ");
        push_str(&mut s, m.as_str());
        s
    }
}

/// Sums up a response's errors (see `errors_summary`).
pub fn summarize_graphql_errors(errors: &GraphqlErrors) -> (s: String)
    ensures
        s@ == errors_summary(*errors),
{
    match errors {
        GraphqlErrors::Other(raw) => compact_whitespace(raw.as_str()),
        GraphqlErrors::List(es) => {
            let k: usize = if es.len() < 3 { es.len() } else { 3 };
            let ghost lines = es@.take(k as int).map_values(|e: GraphqlError| error_summary(e));
            let mut out = String::new();
            let mut i: usize = 0;
            proof {
                reveal_strlit("; ");
                assert(lines.take(0) =~= Seq::<Seq<char>>::empty());
            }
            while i < k
                invariant
                    k <= es@.len(),
                    k as int == if es@.len() < 3 { es@.len() as int } else { 3 },
                    i <= k,
                    lines == es@.take(k as int).map_values(|e: GraphqlError| error_summary(e)),
                    out@ == join(lines.take(i as int), "; "@),
                decreases k - i,
            {
                let line = error_line(&es[i]);
                proof {
                    assert(lines.take(i + 1) =~= lines.take(i as int).push(line@));
                    crate::text::lemma_join_push(lines.take(i as int), "; "@, line@);
                }
                if i > 0 {
                    push_str(&mut out, "; ");
                }
                push_str(&mut out, line.as_str());
                i = i + 1;
            }
            proof {
                assert(lines.take(k as int) =~= lines);
            }
            if es.len() > k {
                let mut more = crate::text::u64_to_string((es.len() - k) as u64);
                push_str(&mut more, " more error(s)");
                proof {
                    crate::text::lemma_join_push(lines, "; "@, more@);
                }
                if k > 0 {
                    push_str(&mut out, "; ");
                }
                push_str(&mut out, more.as_str());
            }
            out
        },
    }
}

/// Whether a GraphQL answer is a failure, and why: an HTTP status that is
/// not a success, with the body; else errors in the body.
pub open spec fn graphql_failure(http_ok: bool, status: Seq<char>, body: Seq<char>, errors: Option<GraphqlErrors>) -> Option<Seq<char>> {
    if !http_ok {
        Some("GitHub GraphQL request failed with HTTP "@ + status + ": "@ + body)
    } else {
        match errors {
            Some(e) => Some("GitHub GraphQL request returned errors: "@ + errors_summary(e)),
            None => None,
        }
    }
}

/// Checks a GraphQL answer (see `graphql_failure`): `status` is the HTTP
/// status as text, `body` the body as text, `errors` the body's `errors`
/// member when it is present and not null.
pub fn check_graphql_response(http_ok: bool, status: &str, body: &str, errors: &Option<GraphqlErrors>) -> (r: Result<(), String>)
    ensures
        match graphql_failure(http_ok, status@, body@, *errors) {
            Some(m) => r is Err && r->Err_0@ == m,
            None => r is Ok,
        },
{
    if !http_ok {
        let mut m = crate::text::owned("GitHub GraphQL request failed with HTTP ");
        push_str(&mut m, status);
        push_str(&mut m, ": ");
        push_str(&mut m, body);
        return Err(m);
    }
    match errors {
        Some(e) => {
            let mut m = crate::text::owned("GitHub GraphQL request returned errors: ");
            let s = summarize_graphql_errors(e);
            push_str(&mut m, s.as_str());
            Err(m)
        },
        None => Ok(()),
    }
}

/// Checks a REST answer: an HTTP status that is not a success fails with
/// the path, the status and the body.
pub fn check_rest_response(path: &str, http_ok: bool, status: &str, body: &str) -> (r: Result<(), String>)
    ensures
        http_ok ==> r is Ok,
        !http_ok ==> r is Err && r->Err_0@ == "GitHub REST request to "@ + path@ + " failed with HTTP "@ + status@ + ": "@ + body@,
{
    if http_ok {
        Ok(())
    } else {
        let mut m = crate::text::owned("GitHub REST request to ");
        push_str(&mut m, path);
        push_str(&mut m, " failed with HTTP ");
        push_str(&mut m, status);
        push_str(&mut m, ": ");
        push_str(&mut m, body);
        Err(m)
    }
}

/// The URL of REST path `path`.
pub fn rest_url(path: &str) -> (u: String)
    ensures
        u@ == GITHUB_REST_URL@ + path@,
{
    let mut u = crate::text::owned(GITHUB_REST_URL);
    push_str(&mut u, path);
    u
}

} // verus!
