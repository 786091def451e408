//! Canonical paths, the fixed-filename join, and the containment check.
//!
//! Paths are handled as plain text in their canonical form: absolute, with all
//! symbolic links followed and all relative components removed. Resolution is
//! performed afresh on every call — nothing is cached — so the checks stay
//! correct when the filesystem changes between calls.
//!
//! The text model takes `/` as the separator between path segments, the form
//! canonical paths have on Unix-family systems; on a platform whose canonical
//! paths are written otherwise, the containment check fails closed.

use vstd::prelude::*;

use crate::outcome::AgentMdError;

verus! {

/// The target path for a given canonical root: the fixed filename joined onto
/// the root, with a separator added unless the root already ends with one (a
/// canonical root only does when it is the filesystem root itself).
pub open spec fn spec_joined(root: Seq<char>) -> Seq<char> {
    if root.len() > 0 && root[root.len() - 1] == '/' {
        root + "AGENTS.md"@
    } else {
        root + "/AGENTS.md"@
    }
}

/// A canonical target path lies within a canonical root when the root is a
/// path-segment prefix of the target: the target is the root itself, or it
/// continues below the root past a separator.
pub open spec fn spec_contained(root: Seq<char>, target: Seq<char>) -> bool {
    &&& root.is_prefix_of(target)
    &&& {
        ||| target.len() == root.len()
        ||| target[root.len() as int] == '/'
        ||| (root.len() > 0 && root[root.len() - 1] == '/')
    }
}

/// Join the fixed filename onto a canonical root.
pub fn join_agent_md(root: &str) -> (r: String)
    ensures
        r@ == spec_joined(root@),
{
    let n = root.unicode_len();
    if n > 0 && root.get_char(n - 1) == '/' {
        String::from_str(root).concat("AGENTS.md")
    } else {
        String::from_str(root).concat("/AGENTS.md")
    }
}

/// Decide containment of one canonical path within another.
pub fn is_contained(root: &str, target: &str) -> (b: bool)
    ensures
        b == spec_contained(root@, target@),
{
    let rlen = root.unicode_len();
    let tlen = target.unicode_len();
    if rlen > tlen {
        return false;
    }
    let mut i: usize = 0;
    while i < rlen
        invariant
            i <= rlen <= tlen,
            rlen == root@.len(),
            tlen == target@.len(),
            forall|j: int| 0 <= j < i ==> root@[j] == target@[j],
        decreases rlen - i,
    {
        if root.get_char(i) != target.get_char(i) {
            proof {
                assert(!root@.is_prefix_of(target@)) by {
                    if root@.is_prefix_of(target@) {
                        assert(root@[i as int] == target@.subrange(0, rlen as int)[i as int]);
                    }
                }
            }
            return false;
        }
        i += 1;
    }
    proof {
        assert(root@ =~= target@.subrange(0, rlen as int));
    }
    if tlen == rlen {
        return true;
    }
    if target.get_char(rlen) == '/' {
        return true;
    }
    if rlen > 0 && root.get_char(rlen - 1) == '/' {
        return true;
    }
    false
}

/// Law: for every canonical root, the root-relative join of the fixed filename
/// lies within that root. This is the deferred containment guarantee for a
/// target that does not exist yet and so cannot be resolved: the unresolved
/// join itself never escapes.
pub proof fn lemma_joined_contained(root: Seq<char>)
    ensures
        spec_contained(root, spec_joined(root)),
{
    reveal_strlit("AGENTS.md");
    reveal_strlit("/AGENTS.md");
    if root.len() > 0 && root[root.len() - 1] == '/' {
        let target = root + "AGENTS.md"@;
        assert(root =~= target.subrange(0, root.len() as int));
    } else {
        let target = root + "/AGENTS.md"@;
        assert(root =~= target.subrange(0, root.len() as int));
        assert(target[root.len() as int] == '/');
    }
}

/// Relies on std::path::Path::canonicalize: on success the result is the
/// canonical, absolute form of the given path, with all symbolic links
/// followed and all relative components removed; it fails when the path cannot
/// be resolved (missing, inaccessible). The result is handed back as text; a
/// resolved path that is not valid UTF-8 is reported as a failure too. The
/// failure text carries the cause.
#[verifier::external_body]
pub(crate) fn canonicalize_path(path: &str) -> Result<String, String> {
    match std::path::Path::new(path).canonicalize() {
        Ok(resolved) => match resolved.to_str() {
            Some(text) => Ok(text.to_string()),
            None => Err("resolved path is not valid UTF-8 text".to_string()),
        },
        Err(cause) => Err(format!("{cause}")),
    }
}

/// Relies on std::path::Path::exists: whether the path currently points at an
/// existing filesystem entity, with symbolic links followed.
#[verifier::external_body]
pub(crate) fn path_exists(path: &str) -> bool {
    std::path::Path::new(path).exists()
}

/// Decide the outcome of resolving the workspace root: a resolved root is
/// passed through untouched, and a failure to resolve is reported as
/// `RootResolutionError` carrying the cause.
pub fn resolution_outcome(outcome: Result<String, String>) -> (r: Result<String, AgentMdError>)
    ensures
        outcome matches Ok(resolved) ==> (r matches Ok(p) && p@ == resolved@),
        outcome matches Err(cause) ==> (r matches Err(e) && e is RootResolutionError
            && e->RootResolutionError_0@ == cause@),
{
    match outcome {
        Ok(resolved) => Ok(resolved),
        Err(cause) => Err(AgentMdError::RootResolutionError(cause)),
    }
}

/// Resolve the caller-supplied workspace root to its canonical form, afresh on
/// every call. A root that cannot be resolved is the one condition reported as
/// `RootResolutionError`.
pub fn canonical_root(root: &str) -> (r: Result<String, AgentMdError>)
    ensures
        r matches Err(e) ==> e is RootResolutionError,
{
    resolution_outcome(canonicalize_path(root))
}

/// The candidate target path for both operations: the fixed filename joined
/// onto the freshly resolved workspace root, and so contained in that root.
pub fn agent_md_path(root: &str) -> (r: Result<String, AgentMdError>)
    ensures
        r matches Err(e) ==> e is RootResolutionError,
        r matches Ok(p) ==> exists|c: Seq<char>|
            p@ == spec_joined(c) && spec_contained(c, p@),
{
    match canonical_root(root) {
        Ok(resolved) => {
            let joined = join_agent_md(resolved.as_str());
            proof {
                lemma_joined_contained(resolved@);
                assert(joined@ == spec_joined(resolved@));
                assert(spec_contained(resolved@, joined@));
            }
            Ok(joined)
        },
        Err(e) => Err(e),
    }
}

} // verus!
