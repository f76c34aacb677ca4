//! The local resource protocol: map a requested path and addressing
//! authority to a file path under one of two roots, and guess the content
//! type from the extension.

use vstd::prelude::*;
use vstd::string::StrSliceExecFns;
use vstd::string::StringExecFns;
use crate::text::{contains_seq, contains_substr, join_seq, join_path, str_eq};

verus! {

/// The result of the content-type guess that `mime_guess` makes for a
/// path: a pure function of the path's extension.
pub uninterp spec fn mime_of(path: Seq<char>) -> Seq<char>;

/// Relies on `mime_guess::MimeGuess::from_path` and
/// `Mime::essence_str`: a deterministic table lookup from the path's
/// extension, falling back to the generic binary type when nothing matches.
#[verifier::external_body]
fn guess_mime(path: &str) -> (r: String)
    ensures
        r@ == mime_of(path@),
{
    mime_guess::MimeGuess::from_path(path).first_or_octet_stream().essence_str().to_string()
}

/// An authority that carries the reserved marker routes to the filesystem
/// root instead of the bundled UI assets.
pub open spec fn authority_is_resource(authority: Seq<char>) -> bool {
    contains_seq(authority, "nai_res"@)
}

/// Which root the authority selects: the filesystem root for authorities
/// holding the reserved marker, the bundled assets directory otherwise.
pub open spec fn root_for(authority: Seq<char>) -> Seq<char> {
    if authority_is_resource(authority) {
        "/"@
    } else {
        "installer_view"@
    }
}

/// The path relative to the chosen root: the root path (or an empty path)
/// means the entry document; any other path loses its leading slash.
pub open spec fn rel_of(path: Seq<char>) -> Seq<char> {
    if path.len() == 0 || path == "/"@ {
        "index.html"@
    } else {
        path.skip(1)
    }
}

/// The path holds a `..` segment — one that could climb out of the chosen
/// root.
pub open spec fn has_dotdot(p: Seq<char>) -> bool {
    exists|i: int|
        0 <= i && i + 2 <= p.len() && #[trigger] p[i] == '.' && p[i + 1] == '.' && (i == 0 || p[i
            - 1] == '/') && (i + 2 == p.len() || p[i + 2] == '/')
}

/// Check a relative path for `..` segments.
fn check_dotdot(p: &str) -> (r: bool)
    ensures
        r == has_dotdot(p@),
{
    let n: usize = p.unicode_len();
    if n < 2 {
        proof {
            assert(!has_dotdot(p@));
        }
        return false;
    }
    let mut i: usize = 0;
    while i <= n - 2
        invariant
            2 <= n == p@.len(),
            0 <= i <= n - 1,
            forall|k: int|
                0 <= k < i ==> !(#[trigger] p@[k] == '.' && p@[k + 1] == '.' && (k == 0 || p@[k
                    - 1] == '/') && (k + 2 == p@.len() || p@[k + 2] == '/')),
        decreases n - i,
    {
        let c0 = p.get_char(i);
        let c1 = p.get_char(i + 1);
        let before_ok = i == 0 || p.get_char(i - 1) == '/';
        let after_ok = i + 2 == n || p.get_char(i + 2) == '/';
        if c0 == '.' && c1 == '.' && before_ok && after_ok {
            return true;
        }
        i = i + 1;
    }
    proof {
        assert forall|k: int| !(0 <= k && k + 2 <= p@.len() && #[trigger] p@[k] == '.' && p@[k
            + 1] == '.' && (k == 0 || p@[k - 1] == '/') && (k + 2 == p@.len() || p@[k + 2]
            == '/')) by {
            if 0 <= k && k + 2 <= p@.len() {
                assert(k < i);
            }
        }
    }
    false
}

/// What a resolved request hands back to the protocol layer: the file to
/// read and the content type to answer with.
#[derive(Debug)]
pub struct ResolvedResource {
    pub full_path: String,
    pub content_type: String,
}

/// Resolution failures. The protocol layer turns any of them (like any
/// read failure) into a textual error response, never a process fault.
#[derive(Clone, Copy, PartialEq, Eq, Structural, Debug)]
pub enum ResolveError {
    EscapingPath,
}

/// Resolve a request. The authority picks the root, the root path maps to
/// the entry document, any other path is taken relative to the root; a
/// path with a `..` segment is refused rather than allowed to climb out of
/// the root. Success is owed on every path free of `..` segments.
pub fn resolve_request(path: &str, authority: &str) -> (r: Result<
    ResolvedResource,
    ResolveError,
>)
    ensures
        match r {
            Ok(res) => !has_dotdot(rel_of(path@)) && res.full_path@ == join_seq(
                root_for(authority@),
                rel_of(path@),
            ) && res.content_type@ == mime_of(res.full_path@),
            Err(e) => has_dotdot(rel_of(path@)) && e == ResolveError::EscapingPath,
        },
{
    let n: usize = path.unicode_len();
    let rel: &str = if n == 0 || str_eq(path, "/") {
        "index.html"
    } else {
        path.substring_char(1, n)
    };
    proof {
        if path@.len() == 0 || path@ == "/"@ {
        } else {
            assert(rel@ =~= path@.skip(1));
        }
        assert(rel@ == rel_of(path@));
    }
    if check_dotdot(rel) {
        return Err(ResolveError::EscapingPath);
    }
    let root: &str = if contains_substr(authority, "nai_res") {
        "/"
    } else {
        "installer_view"
    };
    let full_path = join_path(root, rel);
    let content_type = guess_mime(full_path.as_str());
    Ok(ResolvedResource { full_path, content_type })
}

} // verus!
