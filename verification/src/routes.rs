//! Response values of the gateway's own endpoints.
//!
//! These endpoints are thin stubs around the control plane; the HTTP
//! handlers serialising the values live outside this crate.

use vstd::prelude::*;

use crate::clock::utc_now_rfc3339;

pub mod health;
pub mod users;

verus! {

/// The reply of the mirror-test endpoint.
#[derive(Debug)]
pub struct MirrorTestResponse {
    pub message: String,
    pub timestamp: String,
    pub note: String,
}

/// The fixed reply of the endpoint that exists to be mirrored.
pub fn mirror_test_response() -> (r: MirrorTestResponse)
    ensures
        r.message@ == "Mirror test endpoint"@,
        r.note@ == "This request should be mirrored if mirror mode is enabled"@,
{
    MirrorTestResponse {
        message: "Mirror test endpoint".to_owned(),
        timestamp: utc_now_rfc3339(),
        note: "This request should be mirrored if mirror mode is enabled".to_owned(),
    }
}

} // verus!
