use vstd::prelude::*;
use crate::json::{json_quote, json_string_of};

verus! {

/// An HTTP response as the host transport sends it.
pub struct HttpResponse {
    pub status: u16,
    pub headers: Vec<(String, String)>,
    pub body: String,
}

/// The names and values of a header list.
pub open spec fn header_views(headers: Seq<(String, String)>) -> Seq<(Seq<char>, Seq<char>)> {
    headers.map_values(|h: (String, String)| (h.0@, h.1@))
}

/// The header that marks a JSON body.
pub open spec fn content_type_json() -> (Seq<char>, Seq<char>) {
    ("content-type"@, "application/json"@)
}

/// The cross-origin headers sent with issued credentials.
pub open spec fn cors_headers() -> Seq<(Seq<char>, Seq<char>)> {
    seq![
        ("access-control-allow-origin"@, "*"@),
        ("access-control-allow-methods"@, "POST, OPTIONS"@),
        ("access-control-allow-headers"@, "Content-Type"@),
    ]
}

/// The headers of an error response.
pub open spec fn error_headers() -> Seq<(Seq<char>, Seq<char>)> {
    seq![content_type_json()]
}

/// The headers of a response that carries credentials.
pub open spec fn credential_headers() -> Seq<(Seq<char>, Seq<char>)> {
    seq![content_type_json()] + cors_headers()
}

/// The JSON body `{"error": message}`.
pub open spec fn error_json(message: Seq<char>) -> Seq<char> {
    "{\"error\":"@ + json_string_of(message) + "}"@
}

/// The JSON body of a credential bundle, fields in their documented order.
pub open spec fn credential_json(
    access_key_id: Seq<char>,
    secret_access_key: Seq<char>,
    session_token: Seq<char>,
    expiration: Seq<char>,
) -> Seq<char> {
    "{\"access_key_id\":"@ + json_string_of(access_key_id) + ",\"secret_access_key\":"@
        + json_string_of(secret_access_key) + ",\"session_token\":"@ + json_string_of(session_token)
        + ",\"expiration\":"@ + json_string_of(expiration) + "}"@
}

fn header(name: &str, value: &str) -> (r: (String, String))
    ensures
        r.0@ == name@,
        r.1@ == value@,
{
    (String::from_str(name), String::from_str(value))
}

/// A JSON response with the given status whose body is `{"error": message}`.
pub fn error_response(status: u16, message: &str) -> (r: HttpResponse)
    ensures
        r.status == status,
        header_views(r.headers@) == error_headers(),
        r.body@ == error_json(message@),
{
    let quoted = json_quote(message);
    let mut body = String::from_str("{\"error\":");
    body.append(quoted.as_str());
    body.append("}");
    let headers = vec![header("content-type", "application/json")];
    proof {
        assert(header_views(headers@) =~= error_headers());
    }
    HttpResponse { status, headers, body }
}

/// A 200 response whose JSON body is the credential bundle, with the
/// cross-origin headers.
pub fn credential_response(
    access_key_id: &str,
    secret_access_key: &str,
    session_token: &str,
    expiration: &str,
) -> (r: HttpResponse)
    ensures
        r.status == 200,
        header_views(r.headers@) == credential_headers(),
        r.body@ == credential_json(access_key_id@, secret_access_key@, session_token@, expiration@),
{
    let mut body = String::from_str("{\"access_key_id\":");
    body.append(json_quote(access_key_id).as_str());
    body.append(",\"secret_access_key\":");
    body.append(json_quote(secret_access_key).as_str());
    body.append(",\"session_token\":");
    body.append(json_quote(session_token).as_str());
    body.append(",\"expiration\":");
    body.append(json_quote(expiration).as_str());
    body.append("}");
    let headers = vec![
        header("content-type", "application/json"),
        header("access-control-allow-origin", "*"),
        header("access-control-allow-methods", "POST, OPTIONS"),
        header("access-control-allow-headers", "Content-Type"),
    ];
    proof {
        assert(header_views(headers@) =~= credential_headers());
        assert(body@ =~= credential_json(access_key_id@, secret_access_key@, session_token@, expiration@));
    }
    HttpResponse { status: 200, headers, body }
}

/// Cross-origin headers come with every credential response and with no error
/// response: each of them is in the one header list and none in the other.
pub proof fn lemma_cors_only_with_credentials()
    ensures
        forall|i: int| 0 <= i < cors_headers().len() ==> credential_headers().contains(#[trigger] cors_headers()[i]),
        forall|i: int, j: int|
            0 <= i < cors_headers().len() && 0 <= j < error_headers().len()
                ==> #[trigger] cors_headers()[i].0 != #[trigger] error_headers()[j].0,
{
    reveal_strlit("content-type");
    reveal_strlit("access-control-allow-origin");
    reveal_strlit("access-control-allow-methods");
    reveal_strlit("access-control-allow-headers");
    assert forall|i: int| 0 <= i < cors_headers().len() implies credential_headers().contains(
        #[trigger] cors_headers()[i],
    ) by {
        assert(credential_headers()[i + 1] == cors_headers()[i]);
    }
    assert forall|i: int, j: int|
        0 <= i < cors_headers().len() && 0 <= j < error_headers().len()
            implies #[trigger] cors_headers()[i].0 != #[trigger] error_headers()[j].0 by {
        assert(cors_headers()[i].0[0] == 'a');
        assert(error_headers()[j].0[0] == 'c');
    }
}

} // verus!
