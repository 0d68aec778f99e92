//! Types spoken over the cloud API.

use vstd::prelude::*;

verus! {

/// A point in time: whole seconds since the epoch and the nanosecond part.
#[derive(Debug, PartialEq, Eq, Clone, Copy, Structural)]
pub struct Timestamp {
    pub seconds: i64,
    pub nanos: u32,
}

/// The authenticated user together with the feature flags enabled for them.
#[derive(Debug, PartialEq, Clone)]
pub struct GetAuthenticatedUserResponse {
    pub user: AuthenticatedUser,
    pub feature_flags: Vec<String>,
}

/// The server's view of an authenticated user.
#[derive(Debug, PartialEq, Clone)]
pub struct AuthenticatedUser {
    pub id: i32,
    pub metrics_id: String,
    pub avatar_url: String,
    pub name: Option<String>,
    pub is_staff: bool,
    pub accepted_tos_at: Option<Timestamp>,
}

/// One billing period's bounds.
#[derive(Debug, PartialEq, Clone, Copy, Structural, Eq)]
pub struct SubscriptionPeriod {
    pub started_at: Timestamp,
    pub ended_at: Timestamp,
}

/// The user as it stands after accepting the terms of service.
#[derive(Debug, PartialEq, Clone)]
pub struct AcceptTermsOfServiceResponse {
    pub user: AuthenticatedUser,
}

/// A token for talking to the language-model backend.
#[derive(Debug, PartialEq, Clone)]
pub struct LlmToken(pub String);

/// A freshly minted language-model token.
#[derive(Debug, PartialEq, Clone)]
pub struct CreateLlmTokenResponse {
    pub token: LlmToken,
}

} // verus!
