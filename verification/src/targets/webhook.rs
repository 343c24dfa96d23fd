//! Webhook target: delivers content by an HTTP request.

use vstd::prelude::*;

verus! {

use crate::common::TargetVerifySpec;

/// HTTP basic-auth settings of a webhook target.
#[derive(Debug, Clone, PartialEq, Default)]
pub struct WebhookBasicAuthSpec {
    /// Name of the Secret holding the `username` and `password` fields.
    pub secret: String,
}

/// Configuration of a webhook target.
#[derive(Debug, Clone, PartialEq, Default)]
pub struct WebhookTargetSpec {
    /// URL template for the webhook.
    pub url: String,
    /// Verification settings.
    pub verify: Option<TargetVerifySpec>,
    /// HTTP method override; `"POST"` when unset.
    pub method: Option<String>,
    /// Request timeout duration string; `"10s"` when unset.
    pub timeout: Option<String>,
    /// Optional HTTP basic-auth settings.
    pub basic_auth: Option<WebhookBasicAuthSpec>,
    /// Extra HTTP headers sent with each request, as name/value pairs.
    pub headers: Option<Vec<(String, String)>>,
}

} // verus!
