//! Turning an untrusted request path into the candidate filesystem path:
//! stripping the routing slash, joining onto the served root, and the
//! directory-to-index rewrite. All of it is purely syntactic; the result
//! is only ever used after canonicalization and the containment check.

use vstd::prelude::*;

verus! {

/// Exactly one leading separator is removed; requests reach the handler
/// with one prefixed by the router.
pub open spec fn strip_one_slash_spec(req: Seq<char>) -> Seq<char> {
    if req.len() > 0 && req[0] == '/' {
        req.drop_first()
    } else {
        req
    }
}

/// Joining the stripped request onto the root follows path-append
/// semantics: a stripped request that is still absolute (a request with
/// several leading slashes) replaces the root outright, an empty request
/// leaves the root itself, and otherwise a single separator is placed
/// between root and request. The replacement case is safe because every
/// candidate still runs through canonicalization and containment.
pub open spec fn join_spec(root: Seq<char>, req: Seq<char>) -> Seq<char> {
    let rel = strip_one_slash_spec(req);
    if rel.len() > 0 && rel[0] == '/' {
        rel
    } else if rel.len() == 0 {
        root
    } else if root.len() > 0 && root.last() == '/' {
        root + rel
    } else {
        root + "/"@ + rel
    }
}

/// A candidate that denotes a directory is rewritten to its index file.
pub open spec fn with_index_spec(p: Seq<char>, is_dir: bool) -> Seq<char> {
    if !is_dir {
        p
    } else if p.len() > 0 && p.last() == '/' {
        p + "index.html"@
    } else {
        p + "/"@ + "index.html"@
    }
}

/// Builds the candidate path for a request: strip one leading slash,
/// then join syntactically onto the served root.
pub fn join_request(root: &str, request: &str) -> (j: String)
    ensures
        j@ == join_spec(root@, request@),
{
    let n = request.unicode_len();
    let rel: &str = if n > 0 && request.get_char(0) == '/' {
        request.substring_char(1, n)
    } else {
        request
    };
    proof {
        assert(rel@ =~= strip_one_slash_spec(request@));
    }
    let rn = rel.unicode_len();
    if rn > 0 && rel.get_char(0) == '/' {
        return rel.to_owned();
    }
    if rn == 0 {
        return root.to_owned();
    }
    let rl = root.unicode_len();
    if rl > 0 && root.get_char(rl - 1) == '/' {
        return root.to_owned().concat(rel);
    }
    root.to_owned().concat("/").concat(rel)
}

/// Appends the index file name when the candidate is a directory, the
/// caller having asked the filesystem which it is.
pub fn append_index(path: &str, is_dir: bool) -> (r: String)
    ensures
        r@ == with_index_spec(path@, is_dir),
{
    if !is_dir {
        return path.to_owned();
    }
    let n = path.unicode_len();
    if n > 0 && path.get_char(n - 1) == '/' {
        return path.to_owned().concat("index.html");
    }
    path.to_owned().concat("/").concat("index.html")
}

} // verus!
