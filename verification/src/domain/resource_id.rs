//! GitHub pull request and issue references: the accepted spellings
//! (web URLs, `owner/repo#number`, `owner/repo number`, bare numbers inside a
//! repository) and the canonical names and URLs built from them.
use vstd::prelude::*;

use crate::text::{
    all_digits, chars_of, chars_start_with, find_char, index_of, is_ascii_digit, is_digit,
    is_whitespace, is_ws, lemma_index_of_props, parse_u64, parses_as_u64, push_str, push_u64,
    string_of, trim, trim_bounds, u64_value, decimal, lemma_decimal_reads_back, lemma_trim_unchanged,
    digits_value, unsigned_digits,
};

verus! {

/// Why a reference could not be read.
#[derive(Debug, Clone, Copy, PartialEq, Eq, Structural)]
pub enum ResourceIdError {
    /// Not one of the accepted spellings.
    Invalid,
    /// The number is zero.
    InvalidNumber,
}

impl ResourceIdError {
    /// The human readable message for this error.
    pub fn message(&self) -> (s: String)
        ensures
            s@ == error_message(*self),
    {
        match self {
            ResourceIdError::Invalid => crate::text::owned(
                "expected a GitHub PR/issue URL, owner/repo#number, owner/repo number, or a number from inside a GitHub repo",
            ),
            ResourceIdError::InvalidNumber => crate::text::owned("resource number must be positive"),
        }
    }
}

pub open spec fn error_message(e: ResourceIdError) -> Seq<char> {
    match e {
        ResourceIdError::Invalid => "expected a GitHub PR/issue URL, owner/repo#number, owner/repo number, or a number from inside a GitHub repo"@,
        ResourceIdError::InvalidNumber => "resource number must be positive"@,
    }
}

#[derive(Debug, Clone, Copy, PartialEq, Eq, Hash, Structural)]
pub enum ResourceKind {
    PullRequest,
    Issue,
}

impl ResourceKind {
    /// The short label shown for this kind: `PR` or `Issue`.
    pub fn label(self) -> (s: &'static str)
        ensures
            s@ == kind_label(self),
    {
        match self {
            ResourceKind::PullRequest => "PR",
            ResourceKind::Issue => "Issue",
        }
    }
}

pub open spec fn kind_label(k: ResourceKind) -> Seq<char> {
    match k {
        ResourceKind::PullRequest => "PR"@,
        ResourceKind::Issue => "Issue"@,
    }
}

#[derive(Debug, Clone, PartialEq, Eq, Hash)]
pub struct ResourceId {
    pub owner: String,
    pub repo: String,
    pub number: u64,
    pub kind_hint: Option<ResourceKind>,
}

/// The mathematical content of a `ResourceId`.
pub struct IdView {
    pub owner: Seq<char>,
    pub repo: Seq<char>,
    pub number: u64,
    pub kind_hint: Option<ResourceKind>,
}

impl View for ResourceId {
    type V = IdView;

    open spec fn view(&self) -> IdView {
        IdView { owner: self.owner@, repo: self.repo@, number: self.number, kind_hint: self.kind_hint }
    }
}

pub open spec fn id_result_view(r: Result<ResourceId, ResourceIdError>) -> Result<IdView, ResourceIdError> {
    match r {
        Ok(id) => Ok(id@),
        Err(e) => Err(e),
    }
}

pub open spec fn opt_id_result_view(r: Result<Option<ResourceId>, ResourceIdError>) -> Result<Option<IdView>, ResourceIdError> {
    match r {
        Ok(Some(id)) => Ok(Some(id@)),
        Ok(None) => Ok(None),
        Err(e) => Err(e),
    }
}

pub open spec fn slash() -> Seq<char> {
    seq!['/']
}

pub open spec fn github_prefix() -> Seq<char> {
    seq!['h', 't', 't', 'p', 's', ':', '/', '/', 'g', 'i', 't', 'h', 'u', 'b', '.', 'c', 'o', 'm', '/']
}

/// The URL path segment of a kind: `pull` or `issues`.
pub open spec fn kind_segment(k: ResourceKind) -> Seq<char> {
    match k {
        ResourceKind::PullRequest => seq!['p', 'u', 'l', 'l'],
        ResourceKind::Issue => seq!['i', 's', 's', 'u', 'e', 's'],
    }
}

/// `owner/repo`.
pub open spec fn repo_name_spec(id: IdView) -> Seq<char> {
    id.owner + slash() + id.repo
}

/// `owner/repo#number`.
pub open spec fn canonical_name_spec(id: IdView) -> Seq<char> {
    id.owner + slash() + id.repo + seq!['#'] + decimal(id.number as nat)
}

/// `https://github.com/owner/repo/{pull|issues}/number`.
pub open spec fn web_url_spec(id: IdView, kind: ResourceKind) -> Seq<char> {
    github_prefix() + id.owner + slash() + id.repo + slash() + kind_segment(kind) + slash()
        + decimal(id.number as nat)
}

/// The kind a URL defaults to: the hint, else an issue URL (GitHub redirects
/// issue URLs of pull requests).
pub open spec fn default_url_kind(id: IdView) -> ResourceKind {
    match id.kind_hint {
        Some(k) => k,
        None => ResourceKind::Issue,
    }
}

/// A character that may stand in the owner or repository part of a URL.
pub open spec fn url_segment_char(c: char) -> bool {
    c != '/' && !is_ws(c)
}

/// A character that may stand in the owner or repository part of `owner/repo#n`.
pub open spec fn hash_segment_char(c: char) -> bool {
    url_segment_char(c) && c != '#'
}

/// `s[from..to]` is nonempty and every character satisfies the segment rule.
pub open spec fn url_segment_at(s: Seq<char>, from: int, to: int) -> bool {
    from < to && forall|i: int| from <= i < to ==> url_segment_char(#[trigger] s[i])
}

pub open spec fn hash_segment_at(s: Seq<char>, from: int, to: int) -> bool {
    from < to && forall|i: int| from <= i < to ==> hash_segment_char(#[trigger] s[i])
}

/// `s[from..to]` is a nonempty run of digits.
pub open spec fn digits_at(s: Seq<char>, from: int, to: int) -> bool {
    from < to && forall|i: int| from <= i < to ==> is_digit(#[trigger] s[i])
}

/// What may follow the number in a URL: nothing, or `/`, `?` or `#` and then
/// anything but a line break.
pub open spec fn url_tail(t: Seq<char>) -> bool {
    t.len() == 0 || ((t[0] == '/' || t[0] == '?' || t[0] == '#') && forall|i: int|
        1 <= i < t.len() ==> #[trigger] t[i] != '\n')
}

/// `kind_segment(k)` followed by `/`.
pub open spec fn kind_slash(k: ResourceKind) -> Seq<char> {
    kind_segment(k) + slash()
}

/// `needle` stands in `s` at position `i`.
pub open spec fn starts_with_at(s: Seq<char>, needle: Seq<char>, i: int) -> bool {
    crate::text::occurs_at(s, needle, i)
}

/// Where the digits of a URL begin, given the slash after the repository.
pub open spec fn url_digits_start(re: int, k: ResourceKind) -> int {
    re + 1 + kind_slash(k).len()
}

/// `s` is `https://github.com/OWNER/REPO/KIND/DIGITS` followed by a URL tail,
/// where the owner ends at `oe`, the repository at `re` and the digits at `j`:
/// the shape the pattern
/// `^https://github\.com/([^/\s]+)/([^/\s]+)/(pull|issues)/([0-9]+)(?:[/?#].*)?$`
/// accepts.
pub open spec fn github_url_shape(s: Seq<char>, oe: int, re: int, k: ResourceKind, j: int) -> bool {
    &&& crate::text::starts_with(s, github_prefix())
    &&& url_segment_at(s, 19, oe)
    &&& oe < s.len() && s[oe] == '/'
    &&& url_segment_at(s, oe + 1, re)
    &&& re < s.len() && s[re] == '/'
    &&& starts_with_at(s, kind_slash(k), re + 1)
    &&& digits_at(s, url_digits_start(re, k), j)
    &&& j <= s.len()
    &&& url_tail(s.subrange(j, s.len() as int))
}

/// `s` is `OWNER/REPO#DIGITS`, the slash at `a` and the `#` at `h`: the shape
/// the pattern `^([^/\s#]+)/([^/\s#]+)#([0-9]+)$` accepts.
pub open spec fn hash_shape(s: Seq<char>, a: int, h: int) -> bool {
    &&& hash_segment_at(s, 0, a)
    &&& a < s.len() && s[a] == '/'
    &&& hash_segment_at(s, a + 1, h)
    &&& h < s.len() && s[h] == '#'
    &&& digits_at(s, h + 1, s.len() as int)
}

/// How the number of a reference reads: it must parse as a `u64` and be positive.
pub open spec fn number_result(d: Seq<char>) -> Result<u64, ResourceIdError> {
    if !parses_as_u64(d) {
        Err(ResourceIdError::Invalid)
    } else if u64_value(d) == 0 {
        Err(ResourceIdError::InvalidNumber)
    } else {
        Ok(u64_value(d) as u64)
    }
}

pub open spec fn is_github_url(s: Seq<char>) -> bool {
    exists|oe: int, re: int, k: ResourceKind, j: int| github_url_shape(s, oe, re, k, j)
}

pub open spec fn is_hash_reference(s: Seq<char>) -> bool {
    exists|a: int, h: int| hash_shape(s, a, h)
}

/// The (only) way `s` splits as a URL.
pub open spec fn url_parts(s: Seq<char>) -> (int, int, ResourceKind, int) {
    choose|oe: int, re: int, k: ResourceKind, j: int| github_url_shape(s, oe, re, k, j)
}

/// The (only) way `s` splits as `owner/repo#number`.
pub open spec fn hash_parts(s: Seq<char>) -> (int, int) {
    choose|a: int, h: int| hash_shape(s, a, h)
}

/// What reading `s` as a GitHub URL gives: nothing when it is no such URL.
pub open spec fn url_parse_spec(s: Seq<char>) -> Result<Option<IdView>, ResourceIdError> {
    if is_github_url(s) {
        let (oe, re, k, j) = url_parts(s);
        match number_result(s.subrange(url_digits_start(re, k), j)) {
            Err(e) => Err(e),
            Ok(n) => Ok(
                Some(
                    IdView {
                        owner: s.subrange(19, oe),
                        repo: s.subrange(oe + 1, re),
                        number: n,
                        kind_hint: Some(k),
                    },
                ),
            ),
        }
    } else {
        Ok(None)
    }
}

/// What reading `s` as `owner/repo#number` gives: nothing when it has another shape.
pub open spec fn hash_parse_spec(s: Seq<char>) -> Result<Option<IdView>, ResourceIdError> {
    if is_hash_reference(s) {
        let (a, h) = hash_parts(s);
        match number_result(s.subrange(h + 1, s.len() as int)) {
            Err(e) => Err(e),
            Ok(n) => Ok(
                Some(
                    IdView {
                        owner: s.subrange(0, a),
                        repo: s.subrange(a + 1, h),
                        number: n,
                        kind_hint: None,
                    },
                ),
            ),
        }
    } else {
        Ok(None)
    }
}

/// `owner/repo` and a number given apart: the owner is what stands before the
/// first `/`, the repository what stands after it; the number is read first.
pub open spec fn owner_repo_number_spec(owner_repo: Seq<char>, number: Seq<char>) -> Result<IdView, ResourceIdError> {
    match index_of(owner_repo, '/') {
        None => Err(ResourceIdError::Invalid),
        Some(i) => match number_result(number) {
            Err(e) => Err(e),
            Ok(n) => if i == 0 || i + 1 == owner_repo.len() {
                Err(ResourceIdError::Invalid)
            } else {
                Ok(IdView {
                    owner: owner_repo.subrange(0, i),
                    repo: owner_repo.subrange(i + 1, owner_repo.len() as int),
                    number: n,
                    kind_hint: None,
                })
            },
        },
    }
}

/// `s` without one leading `#`.
pub open spec fn strip_hash(s: Seq<char>) -> Seq<char> {
    if s.len() > 0 && s[0] == '#' {
        s.drop_first()
    } else {
        s
    }
}

/// The whole reading of a reference, given the repository of the current
/// working tree when there is one: a URL, then `owner/repo#number`, then a
/// bare number (with or without `#`) inside that repository.
pub open spec fn parse_spec(input: Seq<char>, repo_context: Option<Seq<char>>) -> Result<IdView, ResourceIdError> {
    let s = trim(input);
    if s.len() == 0 {
        Err(ResourceIdError::Invalid)
    } else {
        match url_parse_spec(s) {
            Err(e) => Err(e),
            Ok(Some(id)) => Ok(id),
            Ok(None) => match hash_parse_spec(s) {
                Err(e) => Err(e),
                Ok(Some(id)) => Ok(id),
                Ok(None) => match repo_context {
                    Some(ctx) => {
                        let number = strip_hash(s);
                        if number.len() > 0 && all_digits(number) {
                            owner_repo_number_spec(ctx, number)
                        } else {
                            Err(ResourceIdError::Invalid)
                        }
                    },
                    None => Err(ResourceIdError::Invalid),
                },
            },
        }
    }
}

/// The prefix `https://github.com/` as characters.
fn github_prefix_chars() -> (v: Vec<char>)
    ensures
        v@ == github_prefix(),
{
    let v = chars_of("https://github.com/");
    proof {
        reveal_strlit("https://github.com/");
        assert(v@ =~= github_prefix());
    }
    v
}

/// Whether every character of `v[from..to]` may stand in a URL segment (and,
/// when `no_hash`, is no `#`).
fn segment_chars(v: &[char], from: usize, to: usize, no_hash: bool) -> (b: bool)
    requires
        from <= to <= v@.len(),
    ensures
        b == (forall|i: int| from <= i < to ==> (if no_hash { hash_segment_char(#[trigger] v@[i]) } else { url_segment_char(v@[i]) })),
{
    let mut i = from;
    while i < to
        invariant
            from <= i <= to <= v@.len(),
            forall|j: int| from <= j < i ==> (if no_hash { hash_segment_char(#[trigger] v@[j]) } else { url_segment_char(v@[j]) }),
        decreases to - i,
    {
        let c = v[i];
        if c == '/' || is_whitespace(c) || (no_hash && c == '#') {
            return false;
        }
        i = i + 1;
    }
    true
}

/// The end of the run of digits that starts at `from`.
fn digit_run_end(v: &[char], from: usize) -> (j: usize)
    requires
        from <= v@.len(),
    ensures
        from <= j <= v@.len(),
        forall|i: int| from <= i < j ==> is_digit(#[trigger] v@[i]),
        j == v@.len() || !is_digit(v@[j as int]),
{
    let mut j = from;
    while j < v.len() && is_ascii_digit(v[j])
        invariant
            from <= j <= v@.len(),
            forall|i: int| from <= i < j ==> is_digit(#[trigger] v@[i]),
        decreases v.len() - j,
    {
        j = j + 1;
    }
    j
}

/// Reads the number `v[from..to]` as a reference number.
fn parse_number_chars(v: &[char], from: usize, to: usize) -> (r: Result<u64, ResourceIdError>)
    requires
        from <= to <= v@.len(),
    ensures
        r == number_result(v@.subrange(from as int, to as int)),
{
    match parse_u64(v, from, to) {
        None => Err(ResourceIdError::Invalid),
        Some(n) => {
            if n == 0 {
                Err(ResourceIdError::InvalidNumber)
            } else {
                Ok(n)
            }
        },
    }
}


/// The two kind segments differ in their first character, so at most one
/// of them starts a given text.
proof fn lemma_kind_slash_facts()
    ensures
        kind_slash(ResourceKind::PullRequest) =~= seq!['p', 'u', 'l', 'l', '/'],
        kind_slash(ResourceKind::Issue) =~= seq!['i', 's', 's', 'u', 'e', 's', '/'],
{
}

/// Which kind segment (with its slash) starts `v[q..]`, and where it ends.
fn kind_at(v: &[char], q: usize) -> (r: Option<(ResourceKind, usize)>)
    requires
        q <= v@.len(),
    ensures
        r matches Some((k, e)) ==> starts_with_at(v@, kind_slash(k), q as int) && e == q + kind_slash(k).len(),
        r is None ==> (forall|k: ResourceKind| !starts_with_at(v@, #[trigger] kind_slash(k), q as int)),
{
    proof {
        lemma_kind_slash_facts();
    }
    let pull = chars_of("pull/");
    let issues = chars_of("issues/");
    proof {
        reveal_strlit("pull/");
        reveal_strlit("issues/");
        assert(pull@ =~= kind_slash(ResourceKind::PullRequest));
        assert(issues@ =~= kind_slash(ResourceKind::Issue));
        assert(pull@.len() == 5);
        assert(issues@.len() == 7);
    }
    let ps = pull.as_slice();
    let is_ = issues.as_slice();
    let is_pull = crate::text::chars_occur_at(v, ps, q);
    let is_issues = crate::text::chars_occur_at(v, is_, q);
    if is_pull {
        proof {
            assert(ps@ == pull@);
            assert(crate::text::occurs_at(v@, ps@, q as int));
            assert(q + 5 <= v.len());
        }
        Some((ResourceKind::PullRequest, q + 5))
    } else if is_issues {
        proof {
            assert(is_@ == issues@);
            assert(crate::text::occurs_at(v@, is_@, q as int));
            assert(q + 7 <= v.len());
        }
        Some((ResourceKind::Issue, q + 7))
    } else {
        proof {
            assert forall|k: ResourceKind| !starts_with_at(v@, #[trigger] kind_slash(k), q as int) by {
                match k {
                    ResourceKind::PullRequest => {},
                    ResourceKind::Issue => {},
                }
            }
        }
        None
    }
}

/// Whether `v[from..]` may follow the number of a URL.
fn tail_ok(v: &[char], from: usize) -> (b: bool)
    requires
        from <= v@.len(),
    ensures
        b == url_tail(v@.subrange(from as int, v@.len() as int)),
{
    let ghost t = v@.subrange(from as int, v@.len() as int);
    if from == v.len() {
        return true;
    }
    let c = v[from];
    if !(c == '/' || c == '?' || c == '#') {
        return false;
    }
    let mut i = from + 1;
    while i < v.len()
        invariant
            from < i <= v@.len(),
            t == v@.subrange(from as int, v@.len() as int),
            forall|k: int| 1 <= k < i - from ==> #[trigger] t[k] != '\n',
        decreases v.len() - i,
    {
        if v[i] == '\n' {
            proof {
                assert(t[i - from] == '\n');
            }
            return false;
        }
        i = i + 1;
    }
    true
}

/// The first position at or after `from` that holds `c`.
fn find_from(v: &[char], from: usize, c: char) -> (r: Option<usize>)
    requires
        from <= v@.len(),
    ensures
        r matches Some(i) ==> from <= i < v@.len() && v@[i as int] == c && forall|k: int| from <= k < i ==> #[trigger] v@[k] != c,
        r is None ==> forall|k: int| from <= k < v@.len() ==> #[trigger] v@[k] != c,
{
    let mut i = from;
    while i < v.len()
        invariant
            from <= i <= v@.len(),
            forall|k: int| from <= k < i ==> #[trigger] v@[k] != c,
        decreases v.len() - i,
    {
        if v[i] == c {
            return Some(i);
        }
        i = i + 1;
    }
    None
}

/// Two URL splittings of one text agree: each slash is the first after its
/// segment, the kinds differ in their first letter, and the digits stop where
/// the tail begins.
proof fn lemma_url_unique(s: Seq<char>, oe: int, re: int, k: ResourceKind, j: int, oe2: int, re2: int, k2: ResourceKind, j2: int)
    requires
        github_url_shape(s, oe, re, k, j),
        github_url_shape(s, oe2, re2, k2, j2),
    ensures
        oe == oe2 && re == re2 && k == k2 && j == j2,
{
    lemma_kind_slash_facts();
    if oe < oe2 {
        assert(url_segment_char(s[oe]));
    } else if oe2 < oe {
        assert(url_segment_char(s[oe2]));
    }
    if re < re2 {
        assert(url_segment_char(s[re]));
    } else if re2 < re {
        assert(url_segment_char(s[re2]));
    }
    assert(s.subrange(re + 1, re + 1 + kind_slash(k).len() as int)[0] == s[re + 1]);
    assert(s.subrange(re + 1, re + 1 + kind_slash(k2).len() as int)[0] == s[re + 1]);
    assert(k == k2);
    if j < j2 {
        assert(s.subrange(j, s.len() as int)[0] == s[j]);
        assert(is_digit(s[j]));
    } else if j2 < j {
        assert(s.subrange(j2, s.len() as int)[0] == s[j2]);
        assert(is_digit(s[j2]));
    }
}

/// Two `owner/repo#number` splittings of one text agree.
proof fn lemma_hash_unique(s: Seq<char>, a: int, h: int, a2: int, h2: int)
    requires
        hash_shape(s, a, h),
        hash_shape(s, a2, h2),
    ensures
        a == a2 && h == h2,
{
    if a < a2 {
        assert(hash_segment_char(s[a]));
    } else if a2 < a {
        assert(hash_segment_char(s[a2]));
    }
    if h < h2 {
        assert(hash_segment_char(s[h]));
    } else if h2 < h {
        assert(hash_segment_char(s[h2]));
    }
}

/// Reads `s` as a GitHub web URL of a pull request or issue.
fn parse_github_url(s: &[char]) -> (r: Result<Option<ResourceId>, ResourceIdError>)
    ensures
        opt_id_result_view(r) == url_parse_spec(s@),
{
    let n = s.len();
    let prefix = github_prefix_chars();
    if !chars_start_with(s, prefix.as_slice()) {
        return Ok(None);
    }
    let oe = match find_from(s, 19, '/') {
        None => {
            proof {
                if is_github_url(s@) {
                    let (oe2, re2, k2, j2) = url_parts(s@);
                    assert(s@[oe2] == '/');
                }
            }
            return Ok(None);
        },
        Some(i) => i,
    };
    if oe == 19 || !segment_chars(s, 19, oe, false) {
        proof {
            if is_github_url(s@) {
                let (oe2, re2, k2, j2) = url_parts(s@);
                if oe < oe2 {
                    assert(url_segment_char(s@[oe as int]));
                } else if oe2 < oe {
                    assert(s@[oe2] == '/');
                }
            }
        }
        return Ok(None);
    }
    let re = match find_from(s, oe + 1, '/') {
        None => {
            proof {
                if is_github_url(s@) {
                    let (oe2, re2, k2, j2) = url_parts(s@);
                    if oe < oe2 {
                        assert(url_segment_char(s@[oe as int]));
                    } else if oe2 < oe {
                        assert(s@[oe2] == '/');
                    }
                    assert(s@[re2] == '/');
                }
            }
            return Ok(None);
        },
        Some(i) => i,
    };
    if re == oe + 1 || !segment_chars(s, oe + 1, re, false) {
        proof {
            if is_github_url(s@) {
                let (oe2, re2, k2, j2) = url_parts(s@);
                if oe < oe2 {
                    assert(url_segment_char(s@[oe as int]));
                } else if oe2 < oe {
                    assert(s@[oe2] == '/');
                }
                if re < re2 {
                    assert(url_segment_char(s@[re as int]));
                } else if re2 < re {
                    assert(s@[re2] == '/');
                }
            }
        }
        return Ok(None);
    }
    let (kind, q2) = match kind_at(s, re + 1) {
        None => {
            proof {
                if is_github_url(s@) {
                    let (oe2, re2, k2, j2) = url_parts(s@);
                    if oe < oe2 {
                        assert(url_segment_char(s@[oe as int]));
                    } else if oe2 < oe {
                        assert(s@[oe2] == '/');
                    }
                    if re < re2 {
                        assert(url_segment_char(s@[re as int]));
                    } else if re2 < re {
                        assert(s@[re2] == '/');
                    }
                }
            }
            return Ok(None);
        },
        Some(p) => p,
    };
    let j = digit_run_end(s, q2);
    if j == q2 || !tail_ok(s, j) {
        proof {
            if is_github_url(s@) {
                let (oe2, re2, k2, j2) = url_parts(s@);
                if oe < oe2 {
                    assert(url_segment_char(s@[oe as int]));
                } else if oe2 < oe {
                    assert(s@[oe2] == '/');
                }
                if re < re2 {
                    assert(url_segment_char(s@[re as int]));
                } else if re2 < re {
                    assert(s@[re2] == '/');
                }
                lemma_kind_slash_facts();
                assert(s@.subrange(re + 1, re + 1 + kind_slash(kind).len() as int)[0] == s@[re + 1]);
                assert(s@.subrange(re + 1, re + 1 + kind_slash(k2).len() as int)[0] == s@[re + 1]);
                assert(k2 == kind);
                if j < j2 {
                    assert(is_digit(s@[j as int]));
                } else if j2 < j {
                    assert(s@.subrange(j2, n as int)[0] == s@[j2]);
                    assert(is_digit(s@[j2]));
                }
            }
        }
        return Ok(None);
    }
    proof {
        assert(github_url_shape(s@, oe as int, re as int, kind, j as int));
        let (oe2, re2, k2, j2) = url_parts(s@);
        lemma_url_unique(s@, oe as int, re as int, kind, j as int, oe2, re2, k2, j2);
    }
    match parse_number_chars(s, q2, j) {
        Err(e) => Err(e),
        Ok(num) => Ok(
            Some(
                ResourceId {
                    owner: string_of(s, 19, oe),
                    repo: string_of(s, oe + 1, re),
                    number: num,
                    kind_hint: Some(kind),
                },
            ),
        ),
    }
}

/// Reads `s` as `owner/repo#number`.
fn parse_hash_reference(s: &[char]) -> (r: Result<Option<ResourceId>, ResourceIdError>)
    ensures
        opt_id_result_view(r) == hash_parse_spec(s@),
{
    let n = s.len();
    let a = match find_from(s, 0, '/') {
        None => {
            proof {
                if is_hash_reference(s@) {
                    let (a2, h2) = hash_parts(s@);
                    assert(s@[a2] == '/');
                }
            }
            return Ok(None);
        },
        Some(i) => i,
    };
    if a == 0 || !segment_chars(s, 0, a, true) {
        proof {
            if is_hash_reference(s@) {
                let (a2, h2) = hash_parts(s@);
                if a < a2 {
                    assert(hash_segment_char(s@[a as int]));
                } else if a2 < a {
                    assert(s@[a2] == '/');
                }
            }
        }
        return Ok(None);
    }
    let h = match find_from(s, a + 1, '#') {
        None => {
            proof {
                if is_hash_reference(s@) {
                    let (a2, h2) = hash_parts(s@);
                    if a < a2 {
                        assert(hash_segment_char(s@[a as int]));
                    } else if a2 < a {
                        assert(s@[a2] == '/');
                    }
                    assert(s@[h2] == '#');
                }
            }
            return Ok(None);
        },
        Some(i) => i,
    };
    let j = digit_run_end(s, h + 1);
    if h == a + 1 || !segment_chars(s, a + 1, h, true) || j == h + 1 || j != n {
        proof {
            if is_hash_reference(s@) {
                let (a2, h2) = hash_parts(s@);
                if a < a2 {
                    assert(hash_segment_char(s@[a as int]));
                } else if a2 < a {
                    assert(s@[a2] == '/');
                }
                if h < h2 {
                    assert(hash_segment_char(s@[h as int]));
                } else if h2 < h {
                    assert(s@[h2] == '#');
                }
                if j < n {
                    assert(is_digit(s@[j as int]));
                }
            }
        }
        return Ok(None);
    }
    proof {
        assert(hash_shape(s@, a as int, h as int));
        let (a2, h2) = hash_parts(s@);
        lemma_hash_unique(s@, a as int, h as int, a2, h2);
    }
    match parse_number_chars(s, h + 1, n) {
        Err(e) => Err(e),
        Ok(num) => Ok(
            Some(
                ResourceId {
                    owner: string_of(s, 0, a),
                    repo: string_of(s, a + 1, h),
                    number: num,
                    kind_hint: None,
                },
            ),
        ),
    }
}

/// An owner or repository name that `owner/repo#number` can carry: nonempty,
/// without `/`, `#` or whitespace.
pub open spec fn name_part(s: Seq<char>) -> bool {
    s.len() > 0 && forall|i: int| 0 <= i < s.len() ==> hash_segment_char(#[trigger] s[i])
}

/// `id` without its kind hint.
pub open spec fn without_hint(id: IdView) -> IdView {
    IdView { owner: id.owner, repo: id.repo, number: id.number, kind_hint: None }
}

/// Reading a canonical name gives back the reference it names (without the
/// kind hint, which the name does not carry), whenever the owner and the
/// repository are names that `owner/repo#number` can carry and the number is
/// positive.
pub proof fn law_canonical_name_reads_back(id: IdView)
    requires
        name_part(id.owner),
        name_part(id.repo),
        id.number > 0,
    ensures
        parse_spec(canonical_name_spec(id), None) == Ok::<IdView, ResourceIdError>(without_hint(id)),
{
    let s = canonical_name_spec(id);
    let o = id.owner.len() as int;
    let r = id.repo.len() as int;
    let d = decimal(id.number as nat);
    lemma_decimal_reads_back(id.number as nat);
    let h = o + 1 + r;
    assert(s.len() == h + 1 + d.len());
    assert forall|i: int| 0 <= i < o implies #[trigger] s[i] == id.owner[i] by {}
    assert(s[o] == '/');
    assert forall|i: int| o + 1 <= i < h implies #[trigger] s[i] == id.repo[i - o - 1] by {}
    assert(s[h] == '#');
    assert forall|i: int| h + 1 <= i < s.len() implies #[trigger] s[i] == d[i - h - 1] by {}
    // No whitespace at either end.
    assert(s[0] == id.owner[0]);
    assert(hash_segment_char(id.owner[0]));
    assert(s.last() == d[d.len() - 1]);
    assert(is_digit(d[d.len() - 1]));
    lemma_trim_unchanged(s);
    // Not a web URL: such a text has `/` at both positions 6 and 7.
    if is_github_url(s) {
        let (oe, re, k, j) = url_parts(s);
        assert(github_url_shape(s, oe, re, k, j));
        assert(s.subrange(0, 19)[6] == s[6]);
        assert(s.subrange(0, 19)[7] == s[7]);
        assert(s[6] == '/' && s[7] == '/');
        if o > 6 {
            assert(hash_segment_char(id.owner[6]));
        } else if o < 6 {
            assert(s.subrange(0, 19)[o] == s[o]);
        } else {
            assert(hash_segment_char(id.repo[0]));
        }
    }
    assert(!is_github_url(s));
    // It is `owner/repo#number`, split in one way only.
    assert(hash_shape(s, o, h));
    assert(is_hash_reference(s));
    let (a2, h2) = hash_parts(s);
    lemma_hash_unique(s, o, h, a2, h2);
    assert(s.subrange(0, o) =~= id.owner);
    assert(s.subrange(o + 1, h) =~= id.repo);
    assert(s.subrange(h + 1, s.len() as int) =~= d);
    assert(unsigned_digits(d) == d);
    assert(digits_value(d) == id.number);
    assert(number_result(d) == Ok::<u64, ResourceIdError>(id.number));
}

/// Reading the web URL of a reference as a `kind` gives back the reference
/// with that kind, whenever the owner and the repository are names that
/// `owner/repo#number` can carry and the number is positive.
pub proof fn law_web_url_reads_back(id: IdView, kind: ResourceKind)
    requires
        name_part(id.owner),
        name_part(id.repo),
        id.number > 0,
    ensures
        parse_spec(web_url_spec(id, kind), None) == Ok::<IdView, ResourceIdError>(
            IdView { owner: id.owner, repo: id.repo, number: id.number, kind_hint: Some(kind) },
        ),
{
    let s = web_url_spec(id, kind);
    let o = id.owner.len() as int;
    let r = id.repo.len() as int;
    let d = decimal(id.number as nat);
    lemma_decimal_reads_back(id.number as nat);
    lemma_kind_slash_facts();
    let oe = 19 + o;
    let re = oe + 1 + r;
    let ks = kind_slash(kind);
    let ds = url_digits_start(re, kind);
    assert(s =~= github_prefix() + id.owner + slash() + id.repo + slash() + ks + d);
    assert(s.len() == ds + d.len());
    assert forall|i: int| 0 <= i < 19 implies #[trigger] s[i] == github_prefix()[i] by {}
    assert forall|i: int| 19 <= i < oe implies #[trigger] s[i] == id.owner[i - 19] by {}
    assert(s[oe] == '/');
    assert forall|i: int| oe + 1 <= i < re implies #[trigger] s[i] == id.repo[i - oe - 1] by {}
    assert(s[re] == '/');
    assert forall|i: int| re + 1 <= i < ds implies #[trigger] s[i] == ks[i - re - 1] by {}
    assert forall|i: int| ds <= i < s.len() implies #[trigger] s[i] == d[i - ds] by {}
    // No whitespace at either end.
    assert(s[0] == 'h');
    assert(s.last() == d[d.len() - 1]);
    assert(is_digit(d[d.len() - 1]));
    crate::text::lemma_trim_unchanged(s);
    // It is a web URL, split in one way only.
    assert(s.subrange(0, 19) =~= github_prefix());
    assert(s.subrange(re + 1, re + 1 + ks.len()) =~= ks);
    assert forall|i: int| 19 <= i < oe implies url_segment_char(#[trigger] s[i]) by {
        assert(hash_segment_char(id.owner[i - 19]));
    }
    assert forall|i: int| oe + 1 <= i < re implies url_segment_char(#[trigger] s[i]) by {
        assert(hash_segment_char(id.repo[i - oe - 1]));
    }
    assert forall|i: int| ds <= i < s.len() implies is_digit(#[trigger] s[i]) by {
        assert(is_digit(d[i - ds]));
    }
    assert(s.subrange(s.len() as int, s.len() as int).len() == 0);
    assert(github_url_shape(s, oe, re, kind, s.len() as int));
    assert(is_github_url(s));
    let (oe2, re2, k2, j2) = url_parts(s);
    lemma_url_unique(s, oe, re, kind, s.len() as int, oe2, re2, k2, j2);
    assert(s.subrange(19, oe) =~= id.owner);
    assert(s.subrange(oe + 1, re) =~= id.repo);
    assert(s.subrange(ds, s.len() as int) =~= d);
    assert(unsigned_digits(d) == d);
    assert(number_result(d) == Ok::<u64, ResourceIdError>(id.number));
}

impl ResourceId {
    /// Reads a reference: a GitHub web URL or `owner/repo#number`.
    pub fn parse(input: &str) -> (r: Result<Self, ResourceIdError>)
        ensures
            id_result_view(r) == parse_spec(input@, None),
    {
        Self::parse_with_repo_context(input, None)
    }

    /// Reads a reference; inside a repository (`owner/repo`) a bare number,
    /// with or without a leading `#`, names a resource of that repository.
    pub fn parse_with_repo_context(input: &str, repo_name_with_owner: Option<&str>) -> (r: Result<
        Self,
        ResourceIdError,
    >)
        ensures
            id_result_view(r) == parse_spec(
                input@,
                match repo_name_with_owner {
                    Some(ctx) => Some(ctx@),
                    None => None,
                },
            ),
    {
        let all = chars_of(input);
        let (a, b) = trim_bounds(all.as_slice());
        let ghost t = trim(input@);
        if a == b {
            return Err(ResourceIdError::Invalid);
        }
        let v = crate::text::slice_to_vec(all.as_slice(), a, b);
        match parse_github_url(v.as_slice()) {
            Err(e) => return Err(e),
            Ok(Some(id)) => return Ok(id),
            Ok(None) => {},
        }
        match parse_hash_reference(v.as_slice()) {
            Err(e) => return Err(e),
            Ok(Some(id)) => return Ok(id),
            Ok(None) => {},
        }
        match repo_name_with_owner {
            Some(ctx) => {
                let start: usize = if v[0] == '#' { 1 } else { 0 };
                let ghost num = strip_hash(t);
                proof {
                    assert(num == v@.subrange(start as int, v@.len() as int));
                }
                let e = digit_run_end(v.as_slice(), start);
                if start < v.len() && e == v.len() {
                    proof {
                        assert forall|i: int| 0 <= i < num.len() implies is_digit(#[trigger] num[i]) by {
                            assert(num[i] == v@[i + start]);
                        }
                    }
                    let number = string_of(v.as_slice(), start, v.len());
                    Self::from_owner_repo_number(ctx, number.as_str())
                } else {
                    proof {
                        if num.len() > 0 && all_digits(num) {
                            assert(num[e - start] == v@[e as int]);
                        }
                    }
                    Err(ResourceIdError::Invalid)
                }
            },
            None => Err(ResourceIdError::Invalid),
        }
    }

    /// `owner/repo` and a number given as two arguments.
    pub fn from_owner_repo_number(owner_repo: &str, number: &str) -> (r: Result<Self, ResourceIdError>)
        ensures
            id_result_view(r) == owner_repo_number_spec(owner_repo@, number@),
    {
        let v = chars_of(owner_repo);
        let n = chars_of(number);
        let i = match find_char(v.as_slice(), 0, v.len(), '/') {
            None => {
                proof {
                    assert(v@.subrange(0, v@.len() as int) == v@);
                }
                return Err(ResourceIdError::Invalid);
            },
            Some(i) => i,
        };
        proof {
            assert(v@.subrange(0, v@.len() as int) == v@);
            lemma_index_of_props(v@, '/');
            assert(n@.subrange(0, n@.len() as int) == n@);
        }
        let num = match parse_number_chars(n.as_slice(), 0, n.len()) {
            Err(e) => return Err(e),
            Ok(num) => num,
        };
        if i == 0 || i + 1 == v.len() {
            return Err(ResourceIdError::Invalid);
        }
        Ok(
            ResourceId {
                owner: string_of(v.as_slice(), 0, i),
                repo: string_of(v.as_slice(), i + 1, v.len()),
                number: num,
                kind_hint: None,
            },
        )
    }

    /// `owner/repo`.
    pub fn repo_name_with_owner(&self) -> (s: String)
        ensures
            s@ == repo_name_spec(self@),
    {
        let mut s = String::new();
        push_str(&mut s, self.owner.as_str());
        s.push('/');
        push_str(&mut s, self.repo.as_str());
        proof {
            assert(s@ =~= repo_name_spec(self@));
        }
        s
    }

    /// `owner/repo#number`.
    pub fn canonical_name(&self) -> (s: String)
        ensures
            s@ == canonical_name_spec(self@),
    {
        let mut s = self.repo_name_with_owner();
        s.push('#');
        push_u64(&mut s, self.number);
        proof {
            assert(s@ =~= canonical_name_spec(self@));
        }
        s
    }

    /// The web URL, of the hinted kind or else an issue URL.
    pub fn web_url(&self) -> (s: String)
        ensures
            s@ == web_url_spec(self@, default_url_kind(self@)),
    {
        let kind = match self.kind_hint {
            Some(k) => k,
            None => ResourceKind::Issue,
        };
        self.web_url_for_kind(kind)
    }

    /// The web URL of this resource as a `kind`.
    pub fn web_url_for_kind(&self, kind: ResourceKind) -> (s: String)
        ensures
            s@ == web_url_spec(self@, kind),
    {
        let mut s = crate::text::owned("https://github.com/");
        push_str(&mut s, self.owner.as_str());
        s.push('/');
        push_str(&mut s, self.repo.as_str());
        s.push('/');
        match kind {
            ResourceKind::PullRequest => push_str(&mut s, "pull"),
            ResourceKind::Issue => push_str(&mut s, "issues"),
        }
        s.push('/');
        push_u64(&mut s, self.number);
        proof {
            reveal_strlit("https://github.com/");
            reveal_strlit("pull");
            reveal_strlit("issues");
            assert(s@ =~= web_url_spec(self@, kind));
        }
        s
    }

    /// A reference inside the repository `owner/repo`.
    pub fn relative_to_repo(owner: &str, repo: &str, number: &str) -> (r: Result<Self, ResourceIdError>)
        ensures
            id_result_view(r) == match number_result(number@) {
                Ok(n) => Ok(IdView { owner: owner@, repo: repo@, number: n, kind_hint: None }),
                Err(e) => Err(e),
            },
    {
        let n = chars_of(number);
        proof {
            assert(n@.subrange(0, n@.len() as int) == n@);
        }
        let num = match parse_number_chars(n.as_slice(), 0, n.len()) {
            Err(e) => return Err(e),
            Ok(num) => num,
        };
        Ok(ResourceId { owner: crate::text::owned(owner), repo: crate::text::owned(repo), number: num, kind_hint: None })
    }

    /// A copy of this reference.
    pub fn duplicate(&self) -> (r: Self)
        ensures
            r@ == self@,
    {
        ResourceId {
            owner: self.owner.clone(),
            repo: self.repo.clone(),
            number: self.number,
            kind_hint: self.kind_hint,
        }
    }
}

} // verus!
