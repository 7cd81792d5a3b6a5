use vstd::prelude::*;

verus! {

/// The most ids that one call of the batch endpoint may carry.
pub const MAX_IDS_IN_BATCH_REQUEST: usize = 100;

/// The API error message that signals a rate limit.
pub const RATE_LIMITED_MESSAGE: &'static str = "Too many requests";

/// The API error message that signals an identity challenge.
pub const CAPTCHA_MESSAGE: &'static str = "Captcha";

/// The cookie that carries the session.
pub const AUTHENTICATION_COOKIE_NAME: &'static str = ".ROBLOSECURITY";

/// The cookie that carries the browser identity.
pub const BROWSER_ID_COOKIE_NAME: &'static str = "RBXEventTrackerV2";

/// The header that carries the anti-forgery token.
pub const CSRF_TOKEN_HEADER: &'static str = "X-CSRF-TOKEN";

} // verus!
