use vstd::prelude::*;
use crate::policy::{bucket_policy_text, policy_document};
use crate::response::{
    credential_headers, credential_json, credential_response, error_headers, error_json, error_response,
    header_views, HttpResponse,
};

verus! {

/// What the vendor is configured with. Nothing in it comes from a request.
pub struct VendorConfig {
    pub role_arn: String,
    pub bucket_name: String,
    pub session_name: String,
    pub duration_seconds: i32,
}

/// The request handed to the identity service's assume-role operation.
pub struct AssumeRoleRequest {
    pub role_arn: String,
    pub session_name: String,
    pub policy: String,
    pub duration_seconds: i32,
}

/// A temporary credential bundle; `expiration` is kept in its textual form.
pub struct TemporaryCredential {
    pub access_key_id: String,
    pub secret_access_key: String,
    pub session_token: String,
    pub expiration: String,
}

/// Why no credential could be vended for a request.
pub enum VendError {
    /// The identity service refused or failed; the remote detail is kept for
    /// the server's log and never sent to the caller.
    AssumeRoleRpcError(String),
    /// The identity service reported success without a credential bundle.
    MissingCredentialsError,
}

/// The status of every response for which no credential could be vended.
pub const VEND_FAILURE_STATUS: u16 = 502;

/// The message of every response for which no credential could be vended.
pub open spec fn vend_failure_message() -> Seq<char> {
    "failed to obtain temporary credentials"@
}

impl VendorConfig {
    /// The deployed configuration: the broker role, the development bucket,
    /// the frontend's session name and one hour of validity.
    pub fn standard() -> (r: VendorConfig)
        ensures
            r.role_arn@ == "arn:aws:iam::658140043938:role/api-zhongli"@,
            r.bucket_name@ == "storage-zhongli-dev"@,
            r.session_name@ == "blog-frontend-session"@,
            r.duration_seconds == 3600,
    {
        VendorConfig {
            role_arn: String::from_str("arn:aws:iam::658140043938:role/api-zhongli"),
            bucket_name: String::from_str("storage-zhongli-dev"),
            session_name: String::from_str("blog-frontend-session"),
            duration_seconds: 3600,
        }
    }
}

/// `req` is the assume-role request that `config` calls for: its role, its
/// session name, its duration and the session policy for its bucket.
pub open spec fn is_request_for(config: VendorConfig, req: AssumeRoleRequest) -> bool {
    &&& req.role_arn@ == config.role_arn@
    &&& req.session_name@ == config.session_name@
    &&& req.policy@ == bucket_policy_text(config.bucket_name@)
    &&& req.duration_seconds == config.duration_seconds
}

/// Whatever two requests were routed to the vendor, the policies they carry
/// are one and the same: the session policy of the configured bucket.
pub proof fn lemma_policy_independent_of_request(
    config: VendorConfig,
    first: AssumeRoleRequest,
    second: AssumeRoleRequest,
)
    requires
        is_request_for(config, first),
        is_request_for(config, second),
    ensures
        first.policy@ == second.policy@,
        first.policy@ == bucket_policy_text(config.bucket_name@),
{
}

/// The assume-role request for `config`, its policy synthesized afresh.
pub fn assume_role_request(config: &VendorConfig) -> (r: AssumeRoleRequest)
    ensures
        is_request_for(*config, r),
{
    AssumeRoleRequest {
        role_arn: config.role_arn.clone(),
        session_name: config.session_name.clone(),
        policy: policy_document(config.bucket_name.as_str()),
        duration_seconds: config.duration_seconds,
    }
}

/// Classifies what the identity service returned: a bundle, a success that
/// lacks one, or a remote failure with its detail.
pub fn credentials_from_outcome(outcome: Result<Option<TemporaryCredential>, String>) -> (r: Result<
    TemporaryCredential,
    VendError,
>)
    ensures
        match outcome {
            Ok(Some(c)) => r == Ok::<TemporaryCredential, VendError>(c),
            Ok(None) => r == Err::<TemporaryCredential, VendError>(VendError::MissingCredentialsError),
            Err(detail) => r == Err::<TemporaryCredential, VendError>(VendError::AssumeRoleRpcError(detail)),
        },
{
    match outcome {
        Ok(Some(c)) => Ok(c),
        Ok(None) => Err(VendError::MissingCredentialsError),
        Err(detail) => Err(VendError::AssumeRoleRpcError(detail)),
    }
}

/// `r` is the response that carries credential `c`.
pub open spec fn is_credential_response(r: HttpResponse, c: TemporaryCredential) -> bool {
    &&& r.status == 200
    &&& header_views(r.headers@) == credential_headers()
    &&& r.body@ == credential_json(c.access_key_id@, c.secret_access_key@, c.session_token@, c.expiration@)
}

/// `r` is the response sent when no credential could be vended: a fixed
/// status and message, no remote detail and no credential field.
pub open spec fn is_vend_failure_response(r: HttpResponse) -> bool {
    &&& r.status == VEND_FAILURE_STATUS
    &&& header_views(r.headers@) == error_headers()
    &&& r.body@ == error_json(vend_failure_message())
}

/// The response for a vending error. Both kinds of error look alike to the
/// caller.
pub fn vend_error_response(_error: &VendError) -> (r: HttpResponse)
    ensures
        is_vend_failure_response(r),
{
    error_response(VEND_FAILURE_STATUS, "failed to obtain temporary credentials")
}

/// The response for what the identity service returned: the credential
/// bundle with status 200, or the vending failure response.
pub fn vend_response(outcome: Result<Option<TemporaryCredential>, String>) -> (r: HttpResponse)
    ensures
        match outcome {
            Ok(Some(c)) => is_credential_response(r, c),
            _ => is_vend_failure_response(r),
        },
{
    match credentials_from_outcome(outcome) {
        Ok(c) => credential_response(
            c.access_key_id.as_str(),
            c.secret_access_key.as_str(),
            c.session_token.as_str(),
            c.expiration.as_str(),
        ),
        Err(e) => vend_error_response(&e),
    }
}

} // verus!
