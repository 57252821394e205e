//! Room-status models: one typed model for each supported room state
//! event, and the decoder that builds it.
use vstd::prelude::*;

use crate::event::{Change, EventMeta, MembershipChange, RawStateEvent, StateEventType};
use crate::referencing::IndexKey;

verus! {

/// A membership transition that a membership model records.
#[derive(Debug, Clone, Copy, PartialEq, Eq, Structural)]
pub enum MembershipTransition {
    Joined,
    Left,
    Banned,
    Unbanned,
    Kicked,
    Invited,
    KickedAndBanned,
    InvitationAccepted,
    InvitationRejected,
    InvitationRevoked,
    Knocked,
    KnockAccepted,
    KnockRetracted,
    KnockDenied,
}

/// The transition that a membership change records, if it is one.
pub open spec fn transition_of(c: MembershipChange) -> Option<MembershipTransition> {
    match c {
        MembershipChange::Joined => Some(MembershipTransition::Joined),
        MembershipChange::Left => Some(MembershipTransition::Left),
        MembershipChange::Banned => Some(MembershipTransition::Banned),
        MembershipChange::Unbanned => Some(MembershipTransition::Unbanned),
        MembershipChange::Kicked => Some(MembershipTransition::Kicked),
        MembershipChange::Invited => Some(MembershipTransition::Invited),
        MembershipChange::KickedAndBanned => Some(MembershipTransition::KickedAndBanned),
        MembershipChange::InvitationAccepted => Some(MembershipTransition::InvitationAccepted),
        MembershipChange::InvitationRejected => Some(MembershipTransition::InvitationRejected),
        MembershipChange::InvitationRevoked => Some(MembershipTransition::InvitationRevoked),
        MembershipChange::Knocked => Some(MembershipTransition::Knocked),
        MembershipChange::KnockAccepted => Some(MembershipTransition::KnockAccepted),
        MembershipChange::KnockRetracted => Some(MembershipTransition::KnockRetracted),
        MembershipChange::KnockDenied => Some(MembershipTransition::KnockDenied),
        _ => None,
    }
}

impl MembershipTransition {
    /// The transition that `change` records; `None` for no change, an
    /// error, an unknown change, or a change of profile alone.
    pub fn from_change(change: &MembershipChange) -> (r: Option<MembershipTransition>)
        ensures
            r == transition_of(*change),
    {
        match change {
            MembershipChange::Joined => Some(MembershipTransition::Joined),
            MembershipChange::Left => Some(MembershipTransition::Left),
            MembershipChange::Banned => Some(MembershipTransition::Banned),
            MembershipChange::Unbanned => Some(MembershipTransition::Unbanned),
            MembershipChange::Kicked => Some(MembershipTransition::Kicked),
            MembershipChange::Invited => Some(MembershipTransition::Invited),
            MembershipChange::KickedAndBanned => Some(MembershipTransition::KickedAndBanned),
            MembershipChange::InvitationAccepted => Some(MembershipTransition::InvitationAccepted),
            MembershipChange::InvitationRejected => Some(MembershipTransition::InvitationRejected),
            MembershipChange::InvitationRevoked => Some(MembershipTransition::InvitationRevoked),
            MembershipChange::Knocked => Some(MembershipTransition::Knocked),
            MembershipChange::KnockAccepted => Some(MembershipTransition::KnockAccepted),
            MembershipChange::KnockRetracted => Some(MembershipTransition::KnockRetracted),
            MembershipChange::KnockDenied => Some(MembershipTransition::KnockDenied),
            _ => None,
        }
    }
}

/// A member's membership changed.
#[derive(Debug, Clone, PartialEq, Eq)]
pub struct MembershipContent {
    pub user_id: String,
    pub change: MembershipTransition,
}

/// A member changed display name or avatar; a field that did not change
/// is `None`.
#[derive(Debug, Clone, PartialEq, Eq)]
pub struct ProfileContent {
    pub user_id: String,
    pub display_name: Option<Change>,
    pub avatar_url: Option<Change>,
}

/// The content of a state event, with the previous content of the same
/// state if the event carried it.
#[derive(Debug, Clone, PartialEq, Eq)]
pub struct StateContent {
    pub content: String,
    pub prev_content: Option<String>,
}

/// The content of a space relation, with the room it relates to.
#[derive(Debug, Clone, PartialEq, Eq)]
pub struct SpaceRelationContent {
    pub state_key: String,
    pub content: String,
    pub prev_content: Option<String>,
}

/// The typed content of a room-status model, one variant per supported
/// state event type.
#[derive(Debug, Clone, PartialEq, Eq)]
pub enum ActerSupportedRoomStatusEvents {
    MembershipChange(MembershipContent),
    ProfileChange(ProfileContent),
    PolicyRuleRoom(StateContent),
    PolicyRuleServer(StateContent),
    PolicyRuleUser(StateContent),
    RoomAvatar(StateContent),
    RoomCreate(StateContent),
    RoomEncryption(StateContent),
    RoomGuestAccess(StateContent),
    RoomHistoryVisibility(StateContent),
    RoomJoinRules(StateContent),
    RoomName(StateContent),
    RoomPinnedEvents(StateContent),
    RoomPowerLevels(StateContent),
    RoomServerAcl(StateContent),
    RoomTombstone(StateContent),
    RoomTopic(StateContent),
    SpaceChild(SpaceRelationContent),
    SpaceParent(SpaceRelationContent),
}

/// A feature that a model offers to its users.
#[derive(Debug, Clone, Copy, PartialEq, Eq, Structural)]
pub enum Capability {
    Commentable,
    HasAttachments,
}

/// A model of one room state event.
#[derive(Debug, Clone, PartialEq, Eq)]
pub struct RoomStatus {
    pub inner: ActerSupportedRoomStatusEvents,
    pub meta: EventMeta,
}

/// Why an event could not be decoded.
#[derive(Debug, Clone, PartialEq, Eq)]
pub enum ParseError {
    /// The event's type or shape is not supported; the event as it came.
    UnsupportedEvent(RawStateEvent),
}

/// The provenance of a model decoded from `e`: not redacted.
pub open spec fn meta_of(e: RawStateEvent) -> EventMeta {
    EventMeta {
        event_id: e.event_id,
        room_id: e.room_id,
        sender: e.sender,
        origin_server_ts: e.origin_server_ts,
        redacted: None,
    }
}

pub open spec fn state_of(e: RawStateEvent) -> StateContent {
    StateContent { content: e.content, prev_content: e.prev_content }
}

pub open spec fn relation_of(e: RawStateEvent) -> SpaceRelationContent {
    SpaceRelationContent { state_key: e.state_key, content: e.content, prev_content: e.prev_content }
}

/// The typed content of the model of `e`, if `e` is supported.
pub open spec fn decoded_content(e: RawStateEvent) -> Option<ActerSupportedRoomStatusEvents> {
    if !e.is_original {
        None
    } else {
        match e.event_type {
            StateEventType::RoomMember(c) => match c {
                MembershipChange::ProfileChanged { displayname_change, avatar_url_change } => Some(
                    ActerSupportedRoomStatusEvents::ProfileChange(
                        ProfileContent {
                            user_id: e.state_key,
                            display_name: displayname_change,
                            avatar_url: avatar_url_change,
                        },
                    ),
                ),
                _ => match transition_of(c) {
                    Some(t) => Some(
                        ActerSupportedRoomStatusEvents::MembershipChange(
                            MembershipContent { user_id: e.state_key, change: t },
                        ),
                    ),
                    None => None,
                },
            },
            StateEventType::PolicyRuleRoom => Some(ActerSupportedRoomStatusEvents::PolicyRuleRoom(state_of(e))),
            StateEventType::PolicyRuleServer => Some(ActerSupportedRoomStatusEvents::PolicyRuleServer(state_of(e))),
            StateEventType::PolicyRuleUser => Some(ActerSupportedRoomStatusEvents::PolicyRuleUser(state_of(e))),
            StateEventType::RoomAvatar => Some(ActerSupportedRoomStatusEvents::RoomAvatar(state_of(e))),
            StateEventType::RoomCreate => Some(ActerSupportedRoomStatusEvents::RoomCreate(state_of(e))),
            StateEventType::RoomEncryption => Some(ActerSupportedRoomStatusEvents::RoomEncryption(state_of(e))),
            StateEventType::RoomGuestAccess => Some(ActerSupportedRoomStatusEvents::RoomGuestAccess(state_of(e))),
            StateEventType::RoomHistoryVisibility => Some(ActerSupportedRoomStatusEvents::RoomHistoryVisibility(state_of(e))),
            StateEventType::RoomJoinRules => Some(ActerSupportedRoomStatusEvents::RoomJoinRules(state_of(e))),
            StateEventType::RoomName => Some(ActerSupportedRoomStatusEvents::RoomName(state_of(e))),
            StateEventType::RoomPinnedEvents => Some(ActerSupportedRoomStatusEvents::RoomPinnedEvents(state_of(e))),
            StateEventType::RoomPowerLevels => Some(ActerSupportedRoomStatusEvents::RoomPowerLevels(state_of(e))),
            StateEventType::RoomServerAcl => Some(ActerSupportedRoomStatusEvents::RoomServerAcl(state_of(e))),
            StateEventType::RoomTombstone => Some(ActerSupportedRoomStatusEvents::RoomTombstone(state_of(e))),
            StateEventType::RoomTopic => Some(ActerSupportedRoomStatusEvents::RoomTopic(state_of(e))),
            StateEventType::SpaceChild => Some(ActerSupportedRoomStatusEvents::SpaceChild(relation_of(e))),
            StateEventType::SpaceParent => Some(ActerSupportedRoomStatusEvents::SpaceParent(relation_of(e))),
            StateEventType::Other(_) => None,
        }
    }
}

/// What decoding `e` gives: its model, or `e` itself as unsupported.
pub open spec fn decode_event(e: RawStateEvent) -> Result<RoomStatus, ParseError> {
    match decoded_content(e) {
        Some(inner) => Ok(RoomStatus { inner, meta: meta_of(e) }),
        None => Err(ParseError::UnsupportedEvent(e)),
    }
}

/// The index buckets of a room-status model.
pub open spec fn status_indizes(m: RoomStatus) -> Seq<IndexKey> {
    seq![IndexKey::RoomHistory(m.meta.room_id), IndexKey::AllHistory]
}

/// Whether a model's content is of the variant that belongs to an event
/// type.
pub open spec fn content_matches_type(t: StateEventType, c: ActerSupportedRoomStatusEvents) -> bool {
    match t {
        StateEventType::RoomMember(MembershipChange::ProfileChanged { .. }) => c is ProfileChange,
        StateEventType::RoomMember(_) => c is MembershipChange,
        StateEventType::PolicyRuleRoom => c is PolicyRuleRoom,
        StateEventType::PolicyRuleServer => c is PolicyRuleServer,
        StateEventType::PolicyRuleUser => c is PolicyRuleUser,
        StateEventType::RoomAvatar => c is RoomAvatar,
        StateEventType::RoomCreate => c is RoomCreate,
        StateEventType::RoomEncryption => c is RoomEncryption,
        StateEventType::RoomGuestAccess => c is RoomGuestAccess,
        StateEventType::RoomHistoryVisibility => c is RoomHistoryVisibility,
        StateEventType::RoomJoinRules => c is RoomJoinRules,
        StateEventType::RoomName => c is RoomName,
        StateEventType::RoomPinnedEvents => c is RoomPinnedEvents,
        StateEventType::RoomPowerLevels => c is RoomPowerLevels,
        StateEventType::RoomServerAcl => c is RoomServerAcl,
        StateEventType::RoomTombstone => c is RoomTombstone,
        StateEventType::RoomTopic => c is RoomTopic,
        StateEventType::SpaceChild => c is SpaceChild,
        StateEventType::SpaceParent => c is SpaceParent,
        StateEventType::Other(_) => false,
    }
}

/// Whether an event type is supported: a known type, and for a membership
/// event a change of profile or one of the recorded transitions.
pub open spec fn supported_type(t: StateEventType) -> bool {
    match t {
        StateEventType::RoomMember(c) => c is ProfileChanged || transition_of(c) is Some,
        StateEventType::Other(_) => false,
        _ => true,
    }
}

/// An original event of a supported type decodes to a model of the variant
/// that belongs to its type, with the event's provenance, never to an
/// error.
pub proof fn lemma_supported_decodes(e: RawStateEvent)
    requires
        e.is_original,
        supported_type(e.event_type),
    ensures
        decode_event(e) is Ok,
        content_matches_type(e.event_type, decode_event(e)->Ok_0.inner),
        decode_event(e)->Ok_0.meta == meta_of(e),
{
}

/// An event that is not original, or whose type is not known, is rejected
/// with the event itself.
pub proof fn lemma_unsupported_rejected(e: RawStateEvent)
    requires
        !e.is_original || e.event_type is Other,
    ensures
        decode_event(e) == Err::<RoomStatus, ParseError>(ParseError::UnsupportedEvent(e)),
{
}

/// A membership event that changed only the profile gives a profile model
/// that holds exactly the changes it carried; a membership event that
/// records a transition gives a membership model of that transition.
pub proof fn lemma_profile_split(e: RawStateEvent, c: MembershipChange)
    requires
        e.is_original,
        e.event_type == StateEventType::RoomMember(c),
    ensures
        (c matches MembershipChange::ProfileChanged { displayname_change, avatar_url_change }
            ==> decoded_content(e) == Some(
            ActerSupportedRoomStatusEvents::ProfileChange(
                ProfileContent {
                    user_id: e.state_key,
                    display_name: displayname_change,
                    avatar_url: avatar_url_change,
                },
            ),
        )),
        (transition_of(c) matches Some(t) ==> decoded_content(e) == Some(
            ActerSupportedRoomStatusEvents::MembershipChange(
                MembershipContent { user_id: e.state_key, change: t },
            ),
        )),
        (!(c is ProfileChanged) && transition_of(c) is None ==> decoded_content(e) is None),
{
}

/// The index buckets of a model depend on the model alone, and always hold
/// its room's history and the history of everything.
pub proof fn lemma_index_memberships(m1: RoomStatus, m2: RoomStatus)
    requires
        m1 == m2,
    ensures
        status_indizes(m1) == status_indizes(m2),
        status_indizes(m1).contains(IndexKey::RoomHistory(m1.meta.room_id)),
        status_indizes(m1).contains(IndexKey::AllHistory),
{
    assert(status_indizes(m1)[0] == IndexKey::RoomHistory(m1.meta.room_id));
    assert(status_indizes(m1)[1] == IndexKey::AllHistory);
}

/// Whether `e` is supported; decided before its fields are moved out.
fn is_supported(e: &RawStateEvent) -> (r: bool)
    ensures
        r == (decoded_content(*e) is Some),
{
    if !e.is_original {
        return false;
    }
    match &e.event_type {
        StateEventType::RoomMember(c) => match c {
            MembershipChange::ProfileChanged { .. } => true,
            _ => MembershipTransition::from_change(c).is_some(),
        },
        StateEventType::Other(_) => false,
        _ => true,
    }
}

impl RoomStatus {
    /// Decodes a room state event into its model. An event that is not
    /// original, whose type is not supported, or whose membership change is
    /// none of the recorded transitions, comes back as unsupported.
    pub fn try_from(event: RawStateEvent) -> (r: Result<RoomStatus, ParseError>)
        ensures
            r == decode_event(event),
    {
        if !is_supported(&event) {
            return Err(ParseError::UnsupportedEvent(event));
        }
        let ghost e = event;
        let RawStateEvent {
            event_id,
            room_id,
            sender,
            origin_server_ts,
            state_key,
            event_type,
            is_original: _,
            content,
            prev_content,
        } = event;
        let meta = EventMeta { event_id, room_id, sender, origin_server_ts, redacted: None };
        let state = StateContent { content, prev_content };
        let inner = match event_type {
            StateEventType::RoomMember(c) => match c {
                MembershipChange::ProfileChanged { displayname_change, avatar_url_change } => {
                    ActerSupportedRoomStatusEvents::ProfileChange(
                        ProfileContent {
                            user_id: state_key,
                            display_name: displayname_change,
                            avatar_url: avatar_url_change,
                        },
                    )
                },
                other => match MembershipTransition::from_change(&other) {
                    Some(t) => ActerSupportedRoomStatusEvents::MembershipChange(
                        MembershipContent { user_id: state_key, change: t },
                    ),
                    None => vstd::pervasive::unreached(),
                },
            },
            StateEventType::PolicyRuleRoom => ActerSupportedRoomStatusEvents::PolicyRuleRoom(state),
            StateEventType::PolicyRuleServer => ActerSupportedRoomStatusEvents::PolicyRuleServer(state),
            StateEventType::PolicyRuleUser => ActerSupportedRoomStatusEvents::PolicyRuleUser(state),
            StateEventType::RoomAvatar => ActerSupportedRoomStatusEvents::RoomAvatar(state),
            StateEventType::RoomCreate => ActerSupportedRoomStatusEvents::RoomCreate(state),
            StateEventType::RoomEncryption => ActerSupportedRoomStatusEvents::RoomEncryption(state),
            StateEventType::RoomGuestAccess => ActerSupportedRoomStatusEvents::RoomGuestAccess(state),
            StateEventType::RoomHistoryVisibility => ActerSupportedRoomStatusEvents::RoomHistoryVisibility(state),
            StateEventType::RoomJoinRules => ActerSupportedRoomStatusEvents::RoomJoinRules(state),
            StateEventType::RoomName => ActerSupportedRoomStatusEvents::RoomName(state),
            StateEventType::RoomPinnedEvents => ActerSupportedRoomStatusEvents::RoomPinnedEvents(state),
            StateEventType::RoomPowerLevels => ActerSupportedRoomStatusEvents::RoomPowerLevels(state),
            StateEventType::RoomServerAcl => ActerSupportedRoomStatusEvents::RoomServerAcl(state),
            StateEventType::RoomTombstone => ActerSupportedRoomStatusEvents::RoomTombstone(state),
            StateEventType::RoomTopic => ActerSupportedRoomStatusEvents::RoomTopic(state),
            StateEventType::SpaceChild => ActerSupportedRoomStatusEvents::SpaceChild(
                SpaceRelationContent {
                    state_key,
                    content: state.content,
                    prev_content: state.prev_content,
                },
            ),
            StateEventType::SpaceParent => ActerSupportedRoomStatusEvents::SpaceParent(
                SpaceRelationContent {
                    state_key,
                    content: state.content,
                    prev_content: state.prev_content,
                },
            ),
            StateEventType::Other(_) => vstd::pervasive::unreached(),
        };
        Ok(RoomStatus { inner, meta })
    }

    /// The typed content of the model.
    pub fn inner(&self) -> (r: &ActerSupportedRoomStatusEvents)
        ensures
            *r == self.inner,
    {
        &self.inner
    }

    /// The index buckets the model belongs to: its room's history and the
    /// history of everything. The acting user does not change them.
    pub fn indizes(&self, _user_id: &str) -> (r: Vec<IndexKey>)
        ensures
            r@ == status_indizes(*self),
    {
        let mut r: Vec<IndexKey> = Vec::new();
        r.push(IndexKey::RoomHistory(self.meta.room_id.clone()));
        r.push(IndexKey::AllHistory);
        proof {
            assert(r@ =~= status_indizes(*self));
        }
        r
    }

    /// Where the model came from.
    pub fn event_meta(&self) -> (r: &EventMeta)
        ensures
            *r == self.meta,
    {
        &self.meta
    }

    /// A room-status model offers no capabilities.
    pub fn capabilities(&self) -> (r: Vec<Capability>)
        ensures
            r@ == Seq::<Capability>::empty(),
    {
        Vec::new()
    }

    /// A room-status model has no parent to refresh.
    pub fn belongs_to(&self) -> (r: Option<Vec<String>>)
        ensures
            r is None,
    {
        None
    }
}

} // verus!
