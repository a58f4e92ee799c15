//! Where the GitHub token comes from, and which failures make the public
//! REST API worth trying instead.
use vstd::prelude::*;

use crate::domain::resource::opt_str;
use crate::github::gh_cli::{failure_message_spec, gh_failure_message};
use crate::text::{contains, join, lower_seq, trim};

verus! {

/// A token could not be had.
#[derive(Debug, Clone, PartialEq, Eq)]
pub enum GithubAuthError {
    Unavailable(String),
}

impl GithubAuthError {
    /// The message the error is shown with.
    pub fn message(&self) -> (s: &str)
        ensures
            match self {
                GithubAuthError::Unavailable(m) => s@ == m@,
            },
    {
        match self {
            GithubAuthError::Unavailable(m) => m.as_str(),
        }
    }
}

/// A failed request to GitHub: no token could be had, or the request failed
/// with the given chain of messages, outermost first.
#[derive(Debug, Clone, PartialEq, Eq)]
pub enum GithubError {
    Auth(GithubAuthError),
    Failed(Vec<String>),
}

/// The token the environment offers: `GH_TOKEN`, else `GITHUB_TOKEN`,
/// trimmed; a variable that is unset or blank is passed over.
pub open spec fn env_token_spec(gh_token: Option<Seq<char>>, github_token: Option<Seq<char>>) -> Option<Seq<char>> {
    match gh_token {
        Some(t) if trim(t).len() > 0 => Some(trim(t)),
        _ => match github_token {
            Some(t) if trim(t).len() > 0 => Some(trim(t)),
            _ => None,
        },
    }
}

/// The token the environment offers (see `env_token_spec`), given the values
/// of `GH_TOKEN` and `GITHUB_TOKEN`.
pub fn github_token_from_env(gh_token: Option<String>, github_token: Option<String>) -> (r: Option<String>)
    ensures
        opt_str(r) == env_token_spec(opt_str(gh_token), opt_str(github_token)),
{
    if let Some(t) = gh_token {
        let trimmed = crate::text::trim_str(t.as_str());
        if !trimmed.as_str().is_empty() {
            return Some(trimmed);
        }
    }
    if let Some(t) = github_token {
        let trimmed = crate::text::trim_str(t.as_str());
        if !trimmed.as_str().is_empty() {
            return Some(trimmed);
        }
    }
    None
}

/// What `gh auth token` produced, its output decoded as text.
#[derive(Debug, Clone, PartialEq, Eq)]
pub struct GhAuthTokenOutput {
    pub success: bool,
    pub stdout: String,
    pub stderr: String,
}

/// The token `gh auth token` printed, trimmed; its failure, or an empty
/// token, makes the token unavailable.
pub open spec fn gh_token_spec(o: GhAuthTokenOutput) -> Result<Seq<char>, Seq<char>> {
    if !o.success {
        Err(failure_message_spec("gh auth token"@, o.stderr@))
    } else if trim(o.stdout@).len() == 0 {
        Err("`gh auth token` returned an empty token"@)
    } else {
        Ok(trim(o.stdout@))
    }
}

/// The token `gh auth token` printed (see `gh_token_spec`).
pub fn github_token_from_gh_output(output: GhAuthTokenOutput) -> (r: Result<String, GithubAuthError>)
    ensures
        match r {
            Ok(t) => gh_token_spec(output) == Ok::<Seq<char>, Seq<char>>(t@),
            Err(GithubAuthError::Unavailable(m)) => gh_token_spec(output) == Err::<Seq<char>, Seq<char>>(m@),
        },
{
    if !output.success {
        return Err(GithubAuthError::Unavailable(gh_failure_message("gh auth token", output.stderr.as_str())));
    }
    let token = crate::text::trim_str(output.stdout.as_str());
    if token.as_str().is_empty() {
        return Err(GithubAuthError::Unavailable(crate::text::owned("`gh auth token` returned an empty token")));
    }
    Ok(token)
}

/// Whether the failure is that no token could be had.
pub fn is_auth_unavailable(error: &GithubError) -> (b: bool)
    ensures
        b == (error is Auth),
{
    match error {
        GithubError::Auth(_) => true,
        GithubError::Failed(_) => false,
    }
}

/// Whether the messages of a failed request, joined and read without regard
/// to case, say that GitHub refused the token.
pub open spec fn token_rejected_spec(chain: Seq<Seq<char>>) -> bool {
    let m = lower_seq(join(chain, seq!['\n']));
    ||| contains(m, "http 401"@)
    ||| contains(m, "bad credentials"@)
    ||| contains(m, "requires authentication"@)
    ||| contains(m, "resource not accessible by personal access token"@)
    ||| contains(m, "although you appear to have the correct authorization credentials"@)
}

/// Whether the public REST API is worth trying after `error`: when no token
/// could be had, or GitHub refused the one given.
pub open spec fn public_rest_fallback_spec(error: GithubError) -> bool {
    match error {
        GithubError::Auth(_) => true,
        GithubError::Failed(chain) => token_rejected_spec(crate::domain::resource::strs(chain@)),
    }
}

fn joined_lower(chain: &Vec<String>) -> (v: Vec<char>)
    ensures
        v@ == lower_seq(join(crate::domain::resource::strs(chain@), seq!['\n'])),
{
    let mut s = String::new();
    let mut i: usize = 0;
    while i < chain.len()
        invariant
            i <= chain@.len(),
            s@ == join(crate::domain::resource::strs(chain@.subrange(0, i as int)), seq!['\n']),
        decreases chain.len() - i,
    {
        let ghost prior = crate::domain::resource::strs(chain@.subrange(0, i as int));
        if i > 0 {
            s.push('\n');
        }
        crate::text::push_str(&mut s, chain[i].as_str());
        proof {
            assert(crate::domain::resource::strs(chain@.subrange(0, i + 1)) =~= prior.push(chain@[i as int]@));
            crate::text::lemma_join_push(prior, seq!['\n'], chain@[i as int]@);
            if i == 0 {
                assert(s@ =~= chain@[i as int]@);
            } else {
                assert(s@ =~= join(prior, seq!['\n']) + seq!['\n'] + chain@[i as int]@);
            }
        }
        i = i + 1;
    }
    proof {
        assert(chain@.subrange(0, i as int) =~= chain@);
    }
    crate::text::lowercase_chars(s.as_str())
}

fn has(hay: &Vec<char>, needle: &str) -> (b: bool)
    ensures
        b == contains(hay@, needle@),
{
    let n = crate::text::chars_of(needle);
    crate::text::chars_contain(hay.as_slice(), n.as_slice())
}

/// Whether the public REST API is worth trying (see `public_rest_fallback_spec`).
pub fn should_try_public_rest_fallback(error: &GithubError) -> (b: bool)
    ensures
        b == public_rest_fallback_spec(*error),
{
    match error {
        GithubError::Auth(_) => true,
        GithubError::Failed(chain) => {
            let m = joined_lower(chain);
            has(&m, "http 401") || has(&m, "bad credentials") || has(&m, "requires authentication")
                || has(&m, "resource not accessible by personal access token") || has(
                &m,
                "although you appear to have the correct authorization credentials",
            )
        },
    }
}

} // verus!
