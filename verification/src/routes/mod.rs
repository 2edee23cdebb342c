//! The three endpoints of the core: enrollment, confirmation, and
//! authenticated newsletter delivery.

use vstd::prelude::*;

pub mod newsletter;
pub mod subscriptions;
pub mod subscriptions_confirm;

verus! {

/// The externally observable shape of a response from these endpoints: a
/// status code and, for authentication failures, the challenge header value
/// to present under `WWW-Authenticate`.
pub struct HttpResponse {
    pub status: u16,
    pub www_authenticate: Option<String>,
}

impl HttpResponse {
    pub fn ok() -> (r: HttpResponse)
        ensures
            r.status == 200,
            r.www_authenticate is None,
    {
        HttpResponse { status: 200, www_authenticate: None }
    }
}

} // verus!
