use vstd::prelude::*;
use vstd::string::{StrSliceExecFns, StringExecFns};

verus! {

/// The status of the redirect sent for a plaintext request: moved permanently.
pub const REDIRECT_STATUS: u16 = 301;

/// What the plaintext gate does with a request.
pub enum GateDecision {
    /// The request arrived encrypted: dispatch it to the routes.
    Forward,
    /// Answer with a redirect to this location.
    Redirect(String),
}

/// The secure address of a request: the same host, path and query under `https`.
pub open spec fn secure_location(host: Seq<char>, uri: Seq<char>) -> Seq<char> {
    "https://"@ + host + uri
}

/// Whether `a` and `b` hold the same text.
fn same_text(a: &str, b: &str) -> (r: bool)
    ensures
        r == (a@ == b@),
{
    String::from_str(a) == String::from_str(b)
}

/// The address that a plaintext request is redirected to: `https://`, then the
/// request's host, then its path and query as they came.
pub fn redirect_location(host: &str, uri: &str) -> (r: String)
    ensures
        r@ == secure_location(host@, uri@),
{
    let s = String::from_str("https://");
    let s = s.concat(host);
    s.concat(uri)
}

/// Lets requests that came over `https` through and redirects every other to
/// its secure address.
pub fn gate(scheme: &str, host: &str, uri: &str) -> (r: GateDecision)
    ensures
        scheme@ == "https"@ ==> r is Forward,
        scheme@ != "https"@ ==> (r matches GateDecision::Redirect(loc) && loc@ == secure_location(
            host@,
            uri@,
        )),
{
    if same_text(scheme, "https") {
        GateDecision::Forward
    } else {
        GateDecision::Redirect(redirect_location(host, uri))
    }
}

} // verus!
