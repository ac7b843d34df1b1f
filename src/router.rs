use vstd::prelude::*;
use crate::response::{error_headers, error_json, error_response, header_views, HttpResponse};
use crate::vendor::{assume_role_request, is_request_for, AssumeRoleRequest, VendorConfig};

verus! {

/// The one route that vends credentials.
pub open spec fn is_vend_route_spec(method: Seq<char>, path: Seq<char>) -> bool {
    method == "POST"@ && path == "/Prod/api-zhongli"@
}

/// The message of the 404 response for an unmatched request. It names the
/// method and the path only, never the headers or the body.
pub open spec fn not_found_message(method: Seq<char>, path: Seq<char>) -> Seq<char> {
    "Received request: "@ + method + " "@ + path
}

/// `r` is the 404 response for an unmatched request.
pub open spec fn is_not_found_response(r: HttpResponse, method: Seq<char>, path: Seq<char>) -> bool {
    &&& r.status == 404
    &&& header_views(r.headers@) == error_headers()
    &&& r.body@ == error_json(not_found_message(method, path))
}

/// What the host does next with a request.
pub enum Dispatch {
    /// Call the identity service with this request, then hand what it
    /// returned to `vend_response`.
    AssumeRole(AssumeRoleRequest),
    /// Send this response as it is.
    Respond(HttpResponse),
}

/// Whether `method` and `path` name the credential route.
pub fn is_vend_route(method: &str, path: &str) -> (r: bool)
    ensures
        r == is_vend_route_spec(method@, path@),
{
    let m = String::from_str(method);
    let p = String::from_str(path);
    m == String::from_str("POST") && p == String::from_str("/Prod/api-zhongli")
}

/// The 404 response for an unmatched request.
pub fn not_found_response(method: &str, path: &str) -> (r: HttpResponse)
    ensures
        is_not_found_response(r, method@, path@),
{
    let mut message = String::from_str("Received request: ");
    message.append(method);
    message.append(" ");
    message.append(path);
    error_response(404, message.as_str())
}

/// Routes a request: on the credential route, the assume-role request that
/// `config` calls for; on any other, the 404 response. The body of the
/// request is not an input, so it cannot reach the policy.
pub fn dispatch(config: &VendorConfig, method: &str, path: &str) -> (r: Dispatch)
    ensures
        match r {
            Dispatch::AssumeRole(req) => is_vend_route_spec(method@, path@) && is_request_for(*config, req),
            Dispatch::Respond(resp) => !is_vend_route_spec(method@, path@) && is_not_found_response(
                resp,
                method@,
                path@,
            ),
        },
{
    if is_vend_route(method, path) {
        Dispatch::AssumeRole(assume_role_request(config))
    } else {
        Dispatch::Respond(not_found_response(method, path))
    }
}

} // verus!
