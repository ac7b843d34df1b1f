//! A credential broker that mints short-lived storage credentials scoped to a
//! single bucket, plus the URL helpers of a small sticker-bot proxy.
//!
//! The library decides; the host performs. Routing, policy synthesis, the
//! request handed to the identity service and the shaping of every HTTP
//! response are verified here. The network call and the HTTP transport stay
//! with the host, which passes the outcome back in as plain values.

pub mod bot_api;
pub mod json;
pub mod policy;
pub mod response;
pub mod router;
pub mod vendor;

pub use bot_api::{file_download_url, file_info_url, root, sticker_set_url};
pub use policy::{policy_document, policy_statements, render_policy, PolicyStatement};
pub use response::{credential_response, error_response, HttpResponse};
pub use router::{dispatch, is_vend_route, not_found_response, Dispatch};
pub use vendor::{
    assume_role_request, credentials_from_outcome, vend_error_response, vend_response, AssumeRoleRequest,
    TemporaryCredential, VendError, VendorConfig, VEND_FAILURE_STATUS,
};
