//! A request router for a host runtime that delivers one decoded HTTP
//! request per call: method, path and fully drained body in, response
//! descriptor out.
//!
//! Three routes exist. `POST /publish` decodes the body as a
//! [`api::schema::CustomerDetails`] record and greets the customer by name,
//! or answers 400 when the body does not decode. `GET /isalive` is a health
//! check answering `ok`. Every other method/path pair answers 501.

use vstd::prelude::*;

pub mod api;
mod json;

verus! {

use vstd::string::StringExecFns;
use vstd::string::StrSliceExecFns;
use crate::api::schema::{parse_customer_details, spec_customer_of};

/// The request methods the router distinguishes. Only `Post` and `Get`
/// can reach a route; the rest fall through to the default branch.
#[derive(Clone, Copy, Debug, PartialEq, Eq, Structural)]
pub enum HttpMethod {
    Get,
    Post,
    Put,
    Delete,
    Head,
    Options,
    Connect,
    Patch,
    Trace,
    /// A method outside the registered set; it can only reach the default
    /// branch.
    Other,
}

/// The response descriptor handed back to the host runtime: status code,
/// optional content type header, and the body text.
pub struct HttpResponse {
    pub status: u16,
    pub content_type: Option<String>,
    pub body: String,
}

/// The publish route: `POST /publish`.
pub open spec fn is_publish_route(method: HttpMethod, path: Seq<char>) -> bool {
    method == HttpMethod::Post && path == "/publish"@
}

/// The health route: `GET /isalive`.
pub open spec fn is_alive_route(method: HttpMethod, path: Seq<char>) -> bool {
    method == HttpMethod::Get && path == "/isalive"@
}

/// Compares two string slices character by character.
pub fn str_eq(a: &str, b: &str) -> (r: bool)
    ensures
        r == (a@ == b@),
{
    let alen = a.unicode_len();
    let blen = b.unicode_len();
    if alen != blen {
        return false;
    }
    let mut i: usize = 0;
    while i < alen
        invariant
            alen == a@.len(),
            blen == b@.len(),
            alen == blen,
            i <= alen,
            forall|j: int| 0 <= j < i ==> a@[j] == b@[j],
        decreases alen - i,
    {
        if a.get_char(i) != b.get_char(i) {
            return false;
        }
        i = i + 1;
    }
    proof {
        assert(a@ =~= b@);
    }
    true
}

/// Maps one inbound request to its response, as an ordered match on
/// method and path.
///
/// `POST /publish` answers 200 with `well hello <name>` exactly when the
/// body decodes as a customer record, and 400 otherwise; `GET /isalive`
/// always answers 200 with `ok`; everything else answers 501 with
/// `error not implemented` and no content type.
pub fn process_handler(method: HttpMethod, path: &str, body: &[u8]) -> (r: HttpResponse)
    ensures
        is_publish_route(method, path@) ==> match spec_customer_of(body@) {
            Some(c) => {
                &&& r.status == 200
                &&& r.content_type matches Some(ct) && ct@ == "application/json"@
                &&& r.body@ == "well hello "@ + c.name
            },
            None => {
                &&& r.status == 400
                &&& r.content_type is None
                &&& r.body@ == "error bad request"@
            },
        },
        is_alive_route(method, path@) ==> {
            &&& r.status == 200
            &&& r.content_type matches Some(ct) && ct@ == "application/json"@
            &&& r.body@ == "ok"@
        },
        !is_publish_route(method, path@) && !is_alive_route(method, path@) ==> {
            &&& r.status == 501
            &&& r.content_type is None
            &&& r.body@ == "error not implemented"@
        },
{
    if method == HttpMethod::Post && str_eq(path, "/publish") {
        match parse_customer_details(body) {
            Ok(data) => {
                let mut greeting = "well hello ".to_owned();
                greeting.append(data.name.as_str());
                HttpResponse {
                    status: 200,
                    content_type: Some("application/json".to_owned()),
                    body: greeting,
                }
            },
            Err(_) => HttpResponse {
                status: 400,
                content_type: None,
                body: "error bad request".to_owned(),
            },
        }
    } else if method == HttpMethod::Get && str_eq(path, "/isalive") {
        HttpResponse {
            status: 200,
            content_type: Some("application/json".to_owned()),
            body: "ok".to_owned(),
        }
    } else {
        HttpResponse { status: 501, content_type: None, body: "error not implemented".to_owned() }
    }
}

} // verus!
