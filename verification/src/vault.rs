//! The sandbox path resolver. A caller-supplied path specification is either
//! accepted as an already-qualified in-sandbox path or joined onto the
//! caller's sandbox root; any upward-traversal segment is rejected outright,
//! never silently normalized away.

use vstd::prelude::*;
use crate::request::ValidationError;
use crate::text::str_starts_with;

verus! {

/// Whether position `i` in `p` starts a `..` path segment: two dots bounded
/// on each side by a separator or by an end of the string.
pub open spec fn dotdot_at(p: Seq<char>, i: int) -> bool {
    &&& 0 <= i
    &&& i + 2 <= p.len()
    &&& p[i] == '.'
    &&& p[i + 1] == '.'
    &&& (i == 0 || p[i - 1] == '/')
    &&& (i + 2 == p.len() || p[i + 2] == '/')
}

/// Whether some segment of `p` traverses upward.
pub open spec fn has_dotdot(p: Seq<char>) -> bool {
    exists|i: int| dotdot_at(p, i)
}

/// Whether `p` is already rooted at `root`: it begins with `root` followed
/// by a separator.
pub open spec fn rooted_at(p: Seq<char>, root: Seq<char>) -> bool {
    &&& p.len() >= root.len() + "/"@.len()
    &&& p.subrange(0, (root + "/"@).len() as int) == root + "/"@
}

/// What the resolver returns for `p` under `root`: a rejection when `p`
/// holds an upward-traversal segment, `p` itself when it is already rooted
/// at `root`, and `root + "/" + p` otherwise.
pub open spec fn resolve_spec(p: Seq<char>, root: Seq<char>) -> Result<
    Seq<char>,
    ValidationError,
> {
    if has_dotdot(p) {
        Err(ValidationError::PathEscapesSandbox)
    } else if rooted_at(p, root) {
        Ok(p)
    } else {
        Ok(root + "/"@ + p)
    }
}

/// Whether `p` holds an upward-traversal segment, as `has_dotdot` says.
pub fn find_dotdot(p: &str) -> (r: bool)
    ensures
        r == has_dotdot(p@),
{
    let n = p.unicode_len();
    if n < 2 {
        proof {
            assert(forall|i: int| !dotdot_at(p@, i));
        }
        return false;
    }
    let mut i: usize = 0;
    while i <= n - 2
        invariant
            i <= n,
            n == p@.len(),
            n >= 2,
            forall|j: int| 0 <= j < i ==> !dotdot_at(p@, j),
        decreases n - i,
    {
        let two_dots = p.get_char(i) == '.' && p.get_char(i + 1) == '.';
        let open_left = i == 0 || p.get_char(i - 1) == '/';
        let open_right = i + 2 == n || p.get_char(i + 2) == '/';
        if two_dots && open_left && open_right {
            assert(dotdot_at(p@, i as int));
            return true;
        }
        i += 1;
    }
    proof {
        assert(forall|j: int| j + 2 > p@.len() ==> !dotdot_at(p@, j));
    }
    false
}

/// Maps a caller-supplied path specification to a confined path under the
/// caller's sandbox root, exactly as `resolve_spec` says: upward traversal
/// is rejected, an already-rooted path is accepted as-is, and anything else
/// is treated as a name to be joined onto the root.
pub fn resolve_vault_path(path_spec: &str, vault_root: &str) -> (r: Result<
    String,
    ValidationError,
>)
    ensures
        match r {
            Ok(p) => resolve_spec(path_spec@, vault_root@) == Ok::<Seq<char>, ValidationError>(
                p@,
            ),
            Err(e) => resolve_spec(path_spec@, vault_root@) == Err::<Seq<char>, ValidationError>(
                e,
            ),
        },
{
    if find_dotdot(path_spec) {
        return Err(ValidationError::PathEscapesSandbox);
    }
    let mut rooted = String::from_str(vault_root);
    rooted.append("/");
    if str_starts_with(path_spec, rooted.as_str()) {
        Ok(String::from_str(path_spec))
    } else {
        rooted.append(path_spec);
        Ok(rooted)
    }
}

/// The segments of a resolved path can never leave the sandbox: whenever the
/// root itself is free of upward traversal, a path the resolver accepts is
/// free of upward traversal too and begins with the sandbox root followed by
/// a separator, while a specification holding an upward-traversal segment is
/// rejected with `PathEscapesSandbox`.
pub proof fn lemma_sandbox_confinement(p: Seq<char>, root: Seq<char>)
    requires
        !has_dotdot(root),
    ensures
        has_dotdot(p) ==> resolve_spec(p, root) == Err::<Seq<char>, ValidationError>(
            ValidationError::PathEscapesSandbox,
        ),
        resolve_spec(p, root) is Ok ==> {
            let q = resolve_spec(p, root)->Ok_0;
            &&& !has_dotdot(q)
            &&& rooted_at(q, root)
        },
{
    if resolve_spec(p, root) is Ok {
        let q = resolve_spec(p, root)->Ok_0;
        if rooted_at(p, root) {
            assert(q == p);
        } else {
            lemma_join_no_dotdot(root, p);
            proof_join_rooted(root, p);
        }
    }
}

/// A path the resolver accepts always carries a separator right after the
/// sandbox root.
pub proof fn lemma_resolved_has_slash(p: Seq<char>, root: Seq<char>)
    requires
        resolve_spec(p, root) is Ok,
    ensures
        ({
            let q = resolve_spec(p, root)->Ok_0;
            &&& root.len() < q.len()
            &&& q[root.len() as int] == '/'
        }),
{
    reveal_strlit("/");
    let q = resolve_spec(p, root)->Ok_0;
    let rl = root.len() as int;
    if rooted_at(p, root) {
        assert(p.subrange(0, (root + "/"@).len() as int)[rl] == p[rl]);
        assert((root + "/"@)[rl] == '/');
    } else {
        assert(q[rl] == '/');
    }
}

proof fn proof_join_rooted(root: Seq<char>, p: Seq<char>)
    ensures
        rooted_at(root + "/"@ + p, root),
{
    let q = root + "/"@ + p;
    assert(q.subrange(0, (root + "/"@).len() as int) =~= root + "/"@);
}

proof fn lemma_join_no_dotdot(root: Seq<char>, p: Seq<char>)
    requires
        !has_dotdot(root),
        !has_dotdot(p),
    ensures
        !has_dotdot(root + "/"@ + p),
{
    reveal_strlit("/");
    let q = root + "/"@ + p;
    let rl = root.len() as int;
    assert(q[rl] == '/');
    assert forall|i: int| !dotdot_at(q, i) by {
        if 0 <= i && i + 2 <= q.len() {
            if i + 2 <= rl {
                if dotdot_at(q, i) {
                    assert(q[i] == root[i]);
                    assert(q[i + 1] == root[i + 1]);
                    if i > 0 {
                        assert(q[i - 1] == root[i - 1]);
                    }
                    if i + 2 < rl {
                        assert(q[i + 2] == root[i + 2]);
                    }
                    assert(dotdot_at(root, i));
                }
            } else if i >= rl + 1 {
                if dotdot_at(q, i) {
                    let k = i - rl - 1;
                    assert(q[i] == p[k]);
                    assert(q[i + 1] == p[k + 1]);
                    if k > 0 {
                        assert(q[i - 1] == p[k - 1]);
                    }
                    if i + 2 < q.len() {
                        assert(q[i + 2] == p[k + 2]);
                    }
                    assert(dotdot_at(p, k));
                }
            } else {
                assert(i == rl - 1 || i == rl);
                if dotdot_at(q, i) {
                    assert(q[rl] == '/');
                }
            }
        }
    }
}

} // verus!
