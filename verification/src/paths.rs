//! Joining file-system paths held as text, with `/` as the separator.
use vstd::prelude::*;

verus! {

/// `PathBuf::join` on a Unix-like system: an absolute component replaces the
/// base; otherwise a `/` is put between them unless the base is empty or
/// already ends in one.
pub open spec fn path_join(base: Seq<char>, component: Seq<char>) -> Seq<char> {
    if component.len() > 0 && component[0] == '/' {
        component
    } else if base.len() == 0 || base.last() == '/' {
        base + component
    } else {
        base + seq!['/'] + component
    }
}

/// Joins `component` onto `base` (see `path_join`).
pub fn join_path(base: &str, component: &str) -> (p: String)
    ensures
        p@ == path_join(base@, component@),
{
    let c = crate::text::chars_of(component);
    if c.len() > 0 && c[0] == '/' {
        return crate::text::owned(component);
    }
    let b = crate::text::chars_of(base);
    let mut p = crate::text::owned(base);
    if b.len() > 0 && b[b.len() - 1] != '/' {
        p.push('/');
    }
    crate::text::push_str(&mut p, component);
    proof {
        if b@.len() > 0 {
            assert(b@.last() == b@[b@.len() - 1]);
        }
    }
    p
}

} // verus!
