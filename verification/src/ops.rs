//! The read and write operations: every path resolution, containment check and
//! decision is verified here, around the one step left to the caller — the raw
//! byte transfer to or from the checked target path.

use vstd::prelude::*;
use vstd::utf8::decode_utf8;
use vstd::utf8::encode_utf8;
use vstd::utf8::valid_utf8;

use crate::outcome::AgentMdError;
use crate::outcome::AgentMdResponse;
use crate::paths::canonical_root;
use crate::paths::canonicalize_path;
use crate::paths::is_contained;
use crate::paths::join_agent_md;
use crate::paths::lemma_joined_contained;
use crate::paths::path_exists;
use crate::paths::spec_contained;
use crate::paths::spec_joined;

verus! {

/// Accept a resolved target path exactly when it lies within the resolved
/// root; one outside the root is the security boundary violation, reported as
/// `PathEscapeError` and never auto-corrected.
pub fn classify_target(canonical_root: &str, resolved_target: String) -> (r: Result<
    String,
    AgentMdError,
>)
    ensures
        spec_contained(canonical_root@, resolved_target@) ==> (r matches Ok(p) && p@
            == resolved_target@),
        !spec_contained(canonical_root@, resolved_target@) ==> (r matches Err(e)
            && e is PathEscapeError),
{
    if is_contained(canonical_root, resolved_target.as_str()) {
        Ok(resolved_target)
    } else {
        Err(AgentMdError::PathEscapeError)
    }
}

/// Decide a read from the existence probe's answer: when the candidate path
/// does not exist, the read is already complete — the file is absent, which is
/// a normal outcome, never an error — and when it does exist, resolution must
/// go on.
pub fn absent_read_target(canonical_root: &str, exists: bool) -> (r: Option<ReadTarget>)
    ensures
        !exists ==> (r matches Some(t) && t.canonical_root@ == canonical_root@
            && t.found is None),
        exists ==> r is None,
{
    if exists {
        None
    } else {
        Some(ReadTarget { canonical_root: String::from_str(canonical_root), found: None })
    }
}

/// Decide the write target from the existence probe's answer: a file that does
/// not exist yet cannot be resolved, so the target is the root-relative join
/// itself — and nothing else, no other in-root path is ever written — while an
/// existing file must still be resolved and checked.
pub fn absent_write_target(canonical_root: &str, exists: bool) -> (r: Option<String>)
    ensures
        !exists ==> (r matches Some(t) && t@ == spec_joined(canonical_root@) && spec_contained(
            canonical_root@,
            t@,
        )),
        exists ==> r is None,
{
    if exists {
        None
    } else {
        proof {
            lemma_joined_contained(canonical_root@);
        }
        Some(join_agent_md(canonical_root))
    }
}

/// Where a read found the file, after every check passed.
pub struct ReadTarget {
    /// The canonical form of the workspace root, resolved for this call.
    pub canonical_root: String,
    /// The canonical path of the file when it exists; the caller transfers its
    /// bytes and hands them to `read_found_response`. `None` when it does not,
    /// which is a normal outcome, answered by `missing_response`.
    pub found: Option<String>,
}

/// Resolve and check everything a read needs before any byte is transferred:
/// resolve the root, join the fixed filename, and — when the file exists —
/// resolve the file itself, following symbolic links, and require that the
/// resolved path is still within the resolved root.
pub fn resolve_read_target(root: &str) -> (r: Result<ReadTarget, AgentMdError>)
    ensures
        r matches Ok(t) ==> (t.found matches Some(p) ==> spec_contained(t.canonical_root@, p@)),
        r matches Err(e) ==> (e is RootResolutionError || e is IoError || e is PathEscapeError),
{
    let croot = match canonical_root(root) {
        Ok(c) => c,
        Err(e) => return Err(e),
    };
    let candidate = join_agent_md(croot.as_str());
    let exists = path_exists(candidate.as_str());
    if let Some(absent) = absent_read_target(croot.as_str(), exists) {
        return Ok(absent);
    }
    let resolved = match canonicalize_path(candidate.as_str()) {
        Ok(p) => p,
        Err(cause) => return Err(
            AgentMdError::IoError(String::from_str("Failed to open file: ").concat(cause.as_str())),
        ),
    };
    match classify_target(croot.as_str(), resolved) {
        Ok(target) => Ok(ReadTarget { canonical_root: croot, found: Some(target) }),
        Err(e) => Err(e),
    }
}

/// Relies on String::from_utf8: it succeeds exactly on byte sequences that are
/// valid UTF-8, and the returned text consists of those very bytes — stated
/// through vstd's UTF-8 model, in the same form vstd gives str::from_utf8_unchecked.
#[verifier::external_body]
fn string_from_utf8_bytes(bytes: Vec<u8>) -> (r: Option<String>)
    ensures
        r is Some <==> valid_utf8(bytes@),
        r matches Some(content) ==> encode_utf8(content@) == bytes@,
{
    String::from_utf8(bytes).ok()
}

/// Decide the outcome of a read whose target was found and whose bytes were
/// transferred: the decoded text when the bytes are valid UTF-8, and
/// `EncodingError` otherwise — never lossily decoded content.
pub fn read_found_response(bytes: Vec<u8>) -> (r: Result<AgentMdResponse, AgentMdError>)
    ensures
        valid_utf8(bytes@) ==> (r matches Ok(resp) && resp.exists == true && resp.content@
            == decode_utf8(bytes@) && resp.truncated == false),
        !valid_utf8(bytes@) ==> (r matches Err(e) && e is EncodingError),
{
    match string_from_utf8_bytes(bytes) {
        Some(content) => {
            proof {
                vstd::utf8::encode_utf8_decode_utf8(content@);
            }
            Ok(AgentMdResponse { exists: true, content, truncated: false })
        },
        None => Err(AgentMdError::EncodingError),
    }
}

/// Everything a write needs after its checks passed: the checked path to
/// store to, and the exact bytes to store — the UTF-8 encoding of the new
/// content, whatever the file held before.
pub struct WritePlan {
    /// The canonical form of the workspace root, resolved for this call.
    pub canonical_root: String,
    /// The path to store the bytes at: the resolved file when it exists, the
    /// root-relative join when it does not.
    pub target: String,
    /// The bytes to store, replacing the file's entire prior content.
    pub bytes: Vec<u8>,
}

/// Resolve and check everything a write needs before anything touches disk:
/// resolve the root, join the fixed filename, and — when the file already
/// exists — resolve it, following symbolic links, and require that the
/// resolved path is still within the resolved root. A failed check leaves the
/// filesystem untouched, since no byte has been handed out yet.
pub fn plan_write(root: &str, content: &str) -> (r: Result<WritePlan, AgentMdError>)
    ensures
        r matches Ok(plan) ==> plan.bytes@ == encode_utf8(content@) && spec_contained(
            plan.canonical_root@,
            plan.target@,
        ),
        r matches Err(e) ==> (e is RootResolutionError || e is IoError || e is PathEscapeError),
{
    let croot = match canonical_root(root) {
        Ok(c) => c,
        Err(e) => return Err(e),
    };
    let candidate = join_agent_md(croot.as_str());
    let exists = path_exists(candidate.as_str());
    let target = match absent_write_target(croot.as_str(), exists) {
        Some(joined) => joined,
        None => {
            let resolved = match canonicalize_path(candidate.as_str()) {
                Ok(p) => p,
                Err(cause) => return Err(
                    AgentMdError::IoError(
                        String::from_str("Failed to resolve AGENTS.md: ").concat(cause.as_str()),
                    ),
                ),
            };
            match classify_target(croot.as_str(), resolved) {
                Ok(t) => t,
                Err(e) => return Err(e),
            }
        },
    };
    let bytes = content.as_bytes_vec();
    Ok(WritePlan { canonical_root: croot, target, bytes })
}

/// Law: a write followed by a read that receives exactly the bytes the write
/// stored reports the written content. The bytes a write stores are the UTF-8
/// encoding of the new content; they are valid UTF-8, and decoding them gives
/// the content back, so the read answers with `exists` true, the same content,
/// and `truncated` false.
pub proof fn lemma_write_read_round_trip(content: Seq<char>)
    ensures
        valid_utf8(encode_utf8(content)),
        decode_utf8(encode_utf8(content)) == content,
{
    vstd::utf8::encode_utf8_valid_utf8(content);
    vstd::utf8::encode_utf8_decode_utf8(content);
}

/// Law: a write replaces the file's entire prior content. The bytes stored by
/// a later write are a function of its own content alone — two writes store
/// the same bytes only when their contents agree — and a read that receives
/// the bytes of the latest write reports the latest content.
pub proof fn lemma_overwrite(first: Seq<char>, second: Seq<char>)
    ensures
        valid_utf8(encode_utf8(second)),
        decode_utf8(encode_utf8(second)) == second,
        encode_utf8(first) == encode_utf8(second) ==> first == second,
{
    lemma_write_read_round_trip(first);
    lemma_write_read_round_trip(second);
}

} // verus!
