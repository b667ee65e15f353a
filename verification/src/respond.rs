//! Building the HTTP outcome: the typed rejections, and the success
//! response with its body and inferred content type.

use vstd::prelude::*;
use vstd::string::StringSliceAdditionalSpecFns;
use crate::paths::CanonPath;
use crate::resolve::Resolution;

verus! {

/// The media type that the extension of a file name maps to, `None`
/// when the name yields no known mapping.
pub uninterp spec fn mime_of(name: Seq<char>) -> Option<Seq<char>>;

/// Relies on `mime_guess::from_path` and `Mime::essence_str`: the guess
/// is computed from the name's extension against a fixed table, with no
/// disk access, so it depends on the file name alone; an unknown or
/// missing extension yields an empty guess.
#[verifier::external_body]
fn guess_mime(name: &str) -> (r: Option<String>)
    ensures
        r.deep_view() == mime_of(name@),
{
    mime_guess::from_path(std::path::Path::new(name))
        .first()
        .map(|m| m.essence_str().to_string())
}

/// The content type attached to a served file: the mime guess for its
/// final component, omitted when there is no mapping (the client then
/// sniffs), and omitted for the degenerate path with no components.
pub open spec fn content_type_of(p: Seq<Seq<char>>) -> Option<Seq<char>> {
    if p.len() > 0 {
        mime_of(p.last())
    } else {
        None
    }
}

/// The fixed human-readable body of every forbidden response.
pub open spec fn forbidden_body() -> Seq<u8> {
    ("<h1>Forbidden</h1>\n").spec_bytes()
}

/// One HTTP outcome, ready for the transport to frame: a status code,
/// the full body, and the content-type header value when one is owed.
pub struct HttpResponse {
    pub status: u16,
    pub body: Vec<u8>,
    pub content_type: Option<String>,
}

/// A bare status response: no body, no content type.
pub open spec fn plain_status(r: HttpResponse, status: u16) -> bool {
    &&& r.status == status
    &&& r.body@ == Seq::<u8>::empty()
    &&& r.content_type is None
}

/// Turns a resolution into either the path to serve or the finished
/// rejection response: 403 with the fixed body when containment failed,
/// 404 for a missing target, 500 for any other canonicalization fault.
pub fn resolution_response(r: Resolution) -> (out: Result<CanonPath, HttpResponse>)
    ensures
        match r {
            Resolution::Resolved(p) => out matches Ok(q) && q == p,
            Resolution::Forbidden => out matches Err(e) && e.status == 403
                && e.body@ == forbidden_body() && e.content_type is None,
            Resolution::NotFound => out matches Err(e) && plain_status(e, 404),
            Resolution::InternalError => out matches Err(e) && plain_status(e, 500),
        },
{
    match r {
        Resolution::Resolved(p) => Ok(p),
        Resolution::Forbidden => Err(
            HttpResponse {
                status: 403,
                body: ("<h1>Forbidden</h1>\n").as_bytes_vec(),
                content_type: None,
            },
        ),
        Resolution::NotFound => Err(
            HttpResponse { status: 404, body: Vec::new(), content_type: None },
        ),
        Resolution::InternalError => Err(
            HttpResponse { status: 500, body: Vec::new(), content_type: None },
        ),
    }
}

/// Builds the response once the resolved file has been read: the full
/// bytes with the inferred content type on success, and a uniform 404
/// when the file became unreadable between resolution and read.
pub fn read_result_response(path: &CanonPath, data: Option<Vec<u8>>) -> (r: HttpResponse)
    ensures
        match data {
            Some(d) => r.status == 200 && r.body@ == d@
                && r.content_type.deep_view() == content_type_of(path@),
            None => plain_status(r, 404),
        },
{
    match data {
        Some(d) => {
            let ct = match path.last_component() {
                Some(name) => guess_mime(name.as_str()),
                None => None,
            };
            HttpResponse { status: 200, body: d, content_type: ct }
        },
        None => HttpResponse { status: 404, body: Vec::new(), content_type: None },
    }
}

} // verus!
