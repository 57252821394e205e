//! Raw room state events as the sync layer hands them over, and the
//! provenance that each model keeps of its event.
use vstd::prelude::*;

verus! {

/// Where a model came from: its event, room, sender and time, and the
/// event that redacted it, if any.
#[derive(Debug, Clone, PartialEq, Eq)]
pub struct EventMeta {
    pub event_id: String,
    pub room_id: String,
    pub sender: String,
    pub origin_server_ts: u64,
    pub redacted: Option<String>,
}

/// The old and the new value of a profile field.
#[derive(Debug, Clone, PartialEq, Eq)]
pub struct Change {
    pub new_val: Option<String>,
    pub old_val: Option<String>,
}

/// How a membership event changed its member, compared with the previous
/// membership state.
#[derive(Debug, Clone, PartialEq, Eq)]
pub enum MembershipChange {
    /// Nothing changed.
    NoChange,
    Error,
    Joined,
    Left,
    Banned,
    Unbanned,
    Kicked,
    Invited,
    KickedAndBanned,
    InvitationAccepted,
    InvitationRejected,
    InvitationRevoked,
    Knocked,
    KnockAccepted,
    KnockRetracted,
    KnockDenied,
    /// Membership stayed as it was; the display name or avatar changed.
    /// A field that did not change is `None`.
    ProfileChanged { displayname_change: Option<Change>, avatar_url_change: Option<Change> },
    NotImplemented,
}

/// The type of a state event. A membership event carries the change it
/// made to its member.
#[derive(Debug, Clone, PartialEq, Eq)]
pub enum StateEventType {
    RoomMember(MembershipChange),
    PolicyRuleRoom,
    PolicyRuleServer,
    PolicyRuleUser,
    RoomAvatar,
    RoomCreate,
    RoomEncryption,
    RoomGuestAccess,
    RoomHistoryVisibility,
    RoomJoinRules,
    RoomName,
    RoomPinnedEvents,
    RoomPowerLevels,
    RoomServerAcl,
    RoomTombstone,
    RoomTopic,
    SpaceChild,
    SpaceParent,
    /// Any other type, by its name.
    Other(String),
}

/// A room state event: its envelope, its type, its content and the
/// previous content of the same state, and whether it is still original
/// (not redacted or stripped).
#[derive(Debug, Clone, PartialEq, Eq)]
pub struct RawStateEvent {
    pub event_id: String,
    pub room_id: String,
    pub sender: String,
    pub origin_server_ts: u64,
    pub state_key: String,
    pub event_type: StateEventType,
    pub is_original: bool,
    pub content: String,
    pub prev_content: Option<String>,
}

} // verus!
