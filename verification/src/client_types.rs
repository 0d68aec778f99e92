//! Client-side identifier and contact types.

use vstd::prelude::*;

verus! {

/// A collaboration channel's id.
#[derive(Debug, PartialEq, Eq, PartialOrd, Ord, Hash, Clone, Copy, Structural)]
pub struct ChannelId(pub u64);

/// A shared project's id.
#[derive(Debug, PartialEq, Eq, PartialOrd, Ord, Hash, Clone, Copy, Structural)]
pub struct ProjectId(pub u64);

impl ProjectId {
    /// The id as carried on the wire.
    pub fn to_proto(&self) -> (r: u64)
        ensures
            r == self.0,
    {
        self.0
    }
}

/// A dev-server project's id.
#[derive(Debug, PartialEq, Eq, PartialOrd, Ord, Hash, Clone, Copy, Structural)]
pub struct DevServerProjectId(pub u64);

/// A participant's position in a call's color rotation.
#[derive(Debug, Clone, Copy, PartialEq, Eq, Structural)]
pub struct ParticipantIndex(pub u32);

/// Where a contact request between two users stands.
#[derive(Debug, Clone, Copy, PartialEq, Eq, Structural)]
pub enum ContactRequestStatus {
    NoRequest,
    RequestSent,
    RequestReceived,
    RequestAccepted,
}

/// An invitation's remaining count and redemption URL.
#[derive(Clone, Debug)]
pub struct InviteInfo {
    pub count: u32,
    pub url: String,
}

/// What happened to a contact request.
#[derive(Clone, Copy, Debug, PartialEq, Eq, Structural)]
pub enum ContactEventKind {
    Requested,
    Accepted,
    Cancelled,
}

} // verus!
