use acter_core::event::{Change, EventMeta, MembershipChange, RawStateEvent, StateEventType};
use acter_core::referencing::{ExecuteReference, IndexKey};
use acter_core::status::{
    ActerSupportedRoomStatusEvents, MembershipContent, MembershipTransition, ParseError,
    ProfileContent, RoomStatus, SpaceRelationContent, StateContent,
};
use acter_core::store::Store;

fn event(event_type: StateEventType) -> RawStateEvent {
    RawStateEvent {
        event_id: "$event".to_owned(),
        room_id: "!room".to_owned(),
        sender: "@user".to_owned(),
        origin_server_ts: 1_700_000_000_000,
        state_key: "".to_owned(),
        event_type,
        is_original: true,
        content: "{}".to_owned(),
        prev_content: None,
    }
}

fn topic_event() -> RawStateEvent {
    RawStateEvent {
        event_id: "$topic".to_owned(),
        room_id: "!R".to_owned(),
        sender: "@U".to_owned(),
        origin_server_ts: 42,
        state_key: "".to_owned(),
        event_type: StateEventType::RoomTopic,
        is_original: true,
        content: "new".to_owned(),
        prev_content: Some("old".to_owned()),
    }
}

#[test]
fn room_topic_scenario() {
    let model = RoomStatus::try_from(topic_event()).unwrap();
    assert_eq!(
        model.inner(),
        &ActerSupportedRoomStatusEvents::RoomTopic(StateContent {
            content: "new".to_owned(),
            prev_content: Some("old".to_owned()),
        })
    );
    assert_eq!(
        model.event_meta(),
        &EventMeta {
            event_id: "$topic".to_owned(),
            room_id: "!R".to_owned(),
            sender: "@U".to_owned(),
            origin_server_ts: 42,
            redacted: None,
        }
    );
    let mut store = Store::new("@me".to_owned());
    let refs = model.execute(&mut store);
    assert!(refs.contains(&ExecuteReference::Model("$topic".to_owned())));
    assert!(refs.contains(&ExecuteReference::Index(IndexKey::RoomHistory("!R".to_owned()))));
    assert!(refs.contains(&ExecuteReference::Index(IndexKey::AllHistory)));
    assert_eq!(refs.len(), 3);
}

#[test]
fn every_supported_type_decodes() {
    let cases: Vec<(StateEventType, fn(&ActerSupportedRoomStatusEvents) -> bool)> = vec![
        (StateEventType::PolicyRuleRoom, |c| matches!(c, ActerSupportedRoomStatusEvents::PolicyRuleRoom(_))),
        (StateEventType::PolicyRuleServer, |c| matches!(c, ActerSupportedRoomStatusEvents::PolicyRuleServer(_))),
        (StateEventType::PolicyRuleUser, |c| matches!(c, ActerSupportedRoomStatusEvents::PolicyRuleUser(_))),
        (StateEventType::RoomAvatar, |c| matches!(c, ActerSupportedRoomStatusEvents::RoomAvatar(_))),
        (StateEventType::RoomCreate, |c| matches!(c, ActerSupportedRoomStatusEvents::RoomCreate(_))),
        (StateEventType::RoomEncryption, |c| matches!(c, ActerSupportedRoomStatusEvents::RoomEncryption(_))),
        (StateEventType::RoomGuestAccess, |c| matches!(c, ActerSupportedRoomStatusEvents::RoomGuestAccess(_))),
        (StateEventType::RoomHistoryVisibility, |c| matches!(c, ActerSupportedRoomStatusEvents::RoomHistoryVisibility(_))),
        (StateEventType::RoomJoinRules, |c| matches!(c, ActerSupportedRoomStatusEvents::RoomJoinRules(_))),
        (StateEventType::RoomName, |c| matches!(c, ActerSupportedRoomStatusEvents::RoomName(_))),
        (StateEventType::RoomPinnedEvents, |c| matches!(c, ActerSupportedRoomStatusEvents::RoomPinnedEvents(_))),
        (StateEventType::RoomPowerLevels, |c| matches!(c, ActerSupportedRoomStatusEvents::RoomPowerLevels(_))),
        (StateEventType::RoomServerAcl, |c| matches!(c, ActerSupportedRoomStatusEvents::RoomServerAcl(_))),
        (StateEventType::RoomTombstone, |c| matches!(c, ActerSupportedRoomStatusEvents::RoomTombstone(_))),
        (StateEventType::RoomTopic, |c| matches!(c, ActerSupportedRoomStatusEvents::RoomTopic(_))),
        (StateEventType::SpaceChild, |c| matches!(c, ActerSupportedRoomStatusEvents::SpaceChild(_))),
        (StateEventType::SpaceParent, |c| matches!(c, ActerSupportedRoomStatusEvents::SpaceParent(_))),
        (StateEventType::RoomMember(MembershipChange::Joined), |c| matches!(c, ActerSupportedRoomStatusEvents::MembershipChange(_))),
    ];
    for (t, is_variant) in cases {
        let model = RoomStatus::try_from(event(t.clone())).unwrap();
        assert!(is_variant(model.inner()), "wrong variant for {t:?}");
        assert_eq!(model.meta.redacted, None);
    }
}

#[test]
fn space_child_keeps_state_key() {
    let mut e = event(StateEventType::SpaceChild);
    e.state_key = "!child".to_owned();
    e.prev_content = Some("{\"via\":[]}".to_owned());
    let model = RoomStatus::try_from(e).unwrap();
    assert_eq!(
        model.inner,
        ActerSupportedRoomStatusEvents::SpaceChild(SpaceRelationContent {
            state_key: "!child".to_owned(),
            content: "{}".to_owned(),
            prev_content: Some("{\"via\":[]}".to_owned()),
        })
    );
}

#[test]
fn unknown_type_is_rejected_with_event() {
    let e = event(StateEventType::Other("m.room.third_party_invite".to_owned()));
    assert_eq!(
        RoomStatus::try_from(e.clone()),
        Err(ParseError::UnsupportedEvent(e))
    );
}

#[test]
fn redacted_event_is_rejected_with_event() {
    let mut e = event(StateEventType::RoomName);
    e.is_original = false;
    assert_eq!(
        RoomStatus::try_from(e.clone()),
        Err(ParseError::UnsupportedEvent(e))
    );
}

#[test]
fn unclassified_membership_is_rejected() {
    for c in [
        MembershipChange::NoChange,
        MembershipChange::Error,
        MembershipChange::NotImplemented,
    ] {
        let e = event(StateEventType::RoomMember(c));
        assert_eq!(
            RoomStatus::try_from(e.clone()),
            Err(ParseError::UnsupportedEvent(e))
        );
    }
}

#[test]
fn profile_change_keeps_only_changed_field() {
    let mut e = event(StateEventType::RoomMember(MembershipChange::ProfileChanged {
        displayname_change: Some(Change {
            new_val: Some("New".to_owned()),
            old_val: Some("Old".to_owned()),
        }),
        avatar_url_change: None,
    }));
    e.state_key = "@member".to_owned();
    let model = RoomStatus::try_from(e).unwrap();
    assert_eq!(
        model.inner,
        ActerSupportedRoomStatusEvents::ProfileChange(ProfileContent {
            user_id: "@member".to_owned(),
            display_name: Some(Change {
                new_val: Some("New".to_owned()),
                old_val: Some("Old".to_owned()),
            }),
            avatar_url: None,
        })
    );
}

#[test]
fn membership_transition_gives_membership_model() {
    let mut e = event(StateEventType::RoomMember(MembershipChange::KickedAndBanned));
    e.state_key = "@member".to_owned();
    let model = RoomStatus::try_from(e).unwrap();
    assert_eq!(
        model.inner,
        ActerSupportedRoomStatusEvents::MembershipChange(MembershipContent {
            user_id: "@member".to_owned(),
            change: MembershipTransition::KickedAndBanned,
        })
    );
}

#[test]
fn transitions_from_changes() {
    assert_eq!(
        MembershipTransition::from_change(&MembershipChange::InvitationAccepted),
        Some(MembershipTransition::InvitationAccepted)
    );
    assert_eq!(
        MembershipTransition::from_change(&MembershipChange::ProfileChanged {
            displayname_change: None,
            avatar_url_change: None,
        }),
        None
    );
}

#[test]
fn index_memberships_are_stable() {
    let model = RoomStatus::try_from(topic_event()).unwrap();
    let first = model.indizes("@a");
    let second = model.indizes("@b");
    assert_eq!(first, second);
    assert_eq!(
        first,
        vec![IndexKey::RoomHistory("!R".to_owned()), IndexKey::AllHistory]
    );
    assert!(model.capabilities().is_empty());
    assert!(model.belongs_to().is_none());
}

#[test]
fn execute_twice_is_idempotent() {
    let m1 = RoomStatus::try_from(topic_event()).unwrap();
    let m2 = RoomStatus::try_from(topic_event()).unwrap();
    let mut store = Store::new("@me".to_owned());
    let r1 = m1.execute(&mut store);
    assert_eq!(store.len(), 1);
    let r2 = m2.execute(&mut store);
    assert_eq!(store.len(), 1);
    let mut s1 = r1.clone();
    let mut s2 = r2.clone();
    s1.sort();
    s2.sort();
    assert_eq!(s1, s2);
    let stored = store.get(&"$topic".to_owned()).unwrap();
    assert_eq!(stored, &RoomStatus::try_from(topic_event()).unwrap());
}

#[test]
fn store_keeps_models_apart() {
    let mut store = Store::new("@me".to_owned());
    assert_eq!(store.user_id(), "@me");
    RoomStatus::try_from(topic_event()).unwrap().execute(&mut store);
    let mut other = event(StateEventType::RoomName);
    other.content = "name".to_owned();
    RoomStatus::try_from(other).unwrap().execute(&mut store);
    assert_eq!(store.len(), 2);
    let mut newer = topic_event();
    newer.content = "newer".to_owned();
    let refs = store.save(RoomStatus::try_from(newer).unwrap());
    assert_eq!(refs[0], ExecuteReference::Model("$topic".to_owned()));
    assert_eq!(store.len(), 2);
    match &store.get(&"$topic".to_owned()).unwrap().inner {
        ActerSupportedRoomStatusEvents::RoomTopic(c) => assert_eq!(c.content, "newer"),
        other => panic!("unexpected {other:?}"),
    }
    assert!(store.get(&"$missing".to_owned()).is_none());
}
