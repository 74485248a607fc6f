//! Messages of the device-code login flow.
use vstd::prelude::*;
use crate::text::{owned, push_str, str_eq};

verus! {

/// What Twitch answered to the device-code request, as the login flow keeps it.
#[derive(Debug, Clone)]
pub struct DeviceCodeInfo {
    pub verification_uri: String,
    pub user_code: String,
    pub device_code: String,
    pub interval: u64,
    pub expires_in: u64,
}

/// Steps and results of logging in and keeping the access token valid.
#[derive(Debug, Clone)]
pub enum AuthMessage {
    StartAuth,
    DeviceCodeReceived(Result<DeviceCodeInfo, String>),
    PollForTokens { device_code: String, interval: u64, expires_in: u64 },
    AuthCompleted(Result<(String, String), String>),
    TokensStored(bool),
    ConfirmFallback,
    FallbackConfirmed(bool),
    ValidateToken,
    TokenValidated(Result<Option<String>, String>),
    RefreshToken,
}

/// What the token endpoint's error means for the device flow: `None` while the user
/// has not authorized yet (keep polling), otherwise the failure to report.
pub fn device_flow_failure(message: &str) -> (r: Option<String>)
    ensures
        message@ == "authorization_pending"@ ==> r is None,
        message@ != "authorization_pending"@ ==> (r matches Some(e) && e@ == "Authorization failed: "@ + message@),
{
    if str_eq(message, "authorization_pending") {
        None
    } else {
        let mut e = owned("Authorization failed: ");
        push_str(&mut e, message);
        Some(e)
    }
}

} // verus!
