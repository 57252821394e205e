use acter_core::referencing::{
    ExecuteReference, IndexKey, ModelParam, ObjectListIndex, RoomParam, SectionIndex,
    SpecialListsIndex,
};

#[test]
fn model_storage_key() {
    let r = ExecuteReference::Model("$ev:example.org".to_owned());
    assert_eq!(r.as_storage_key(), "acter::$ev:example.org");
}

#[test]
fn model_param_storage_keys() {
    let cases = [
        (ModelParam::CommentsStats, "$e::comments_stats"),
        (ModelParam::AttachmentsStats, "$e::attachments_stats"),
        (ModelParam::ReactionStats, "$e::reaction_stats"),
        (ModelParam::RsvpStats, "$e::rsvp_stats"),
        (ModelParam::ReadReceiptsStats, "$e::read_receipts"),
        (ModelParam::InviteStats, "$e::invites"),
    ];
    for (p, key) in cases {
        let r = ExecuteReference::ModelParam("$e".to_owned(), p);
        assert_eq!(r.as_storage_key(), key);
    }
}

#[test]
fn room_param_storage_key() {
    let r = ExecuteReference::RoomParam("!room:example.org".to_owned(), RoomParam::LatestMessage);
    assert_eq!(r.as_storage_key(), "!room:example.org::latest_message");
}

#[test]
fn model_type_and_invited_storage_keys() {
    assert_eq!(
        ExecuteReference::from_model_type("pin").as_storage_key(),
        "pin"
    );
    let invited = ExecuteReference::Index(IndexKey::Special(SpecialListsIndex::InvitedTo));
    assert_eq!(invited.as_storage_key(), "global_invited");
}

#[test]
fn storage_key_is_deterministic() {
    let a = ExecuteReference::ModelParam("$x".to_owned(), ModelParam::RsvpStats);
    let b = a.clone();
    assert_eq!(a.as_storage_key(), b.as_storage_key());
}

#[test]
fn reference_constructors() {
    assert_eq!(
        ExecuteReference::from_event_id("$e"),
        ExecuteReference::Model("$e".to_owned())
    );
    assert_eq!(
        ExecuteReference::from_room_id("!r"),
        ExecuteReference::Room("!r".to_owned())
    );
    assert_eq!(
        ExecuteReference::from_index(IndexKey::AllHistory),
        ExecuteReference::Index(IndexKey::AllHistory)
    );
    assert_eq!(
        ExecuteReference::from_section(SectionIndex::Pins),
        ExecuteReference::Index(IndexKey::Section(SectionIndex::Pins))
    );
}

#[test]
fn index_names_are_snake_case() {
    assert_eq!(SectionIndex::Boosts.as_str(), "boosts");
    assert_eq!(SectionIndex::Calendar.as_str(), "calendar");
    assert_eq!(ObjectListIndex::ReadReceipt.as_str(), "read_receipt");
    assert_eq!(ObjectListIndex::Invites.as_str(), "invites");
    assert_eq!(SpecialListsIndex::MyOpenTasks.as_str(), "my_open_tasks");
    assert_eq!(SpecialListsIndex::MyDoneTasks.as_str(), "my_done_tasks");
    assert_eq!(RoomParam::LatestMessage.as_str(), "latest_message");
}

#[test]
fn index_keys_are_ordered() {
    assert!(IndexKey::RoomHistory("!a".to_owned()) < IndexKey::RoomHistory("!b".to_owned()));
    assert!(IndexKey::Redacted < IndexKey::AllHistory);
    assert!(SectionIndex::Boosts < SectionIndex::Tasks);
}

#[test]
fn unsupported_kinds_have_no_storage_key() {
    let without = [
        ExecuteReference::Index(IndexKey::AllHistory),
        ExecuteReference::Index(IndexKey::Special(SpecialListsIndex::MyOpenTasks)),
        ExecuteReference::Index(IndexKey::RoomHistory("!r".to_owned())),
        ExecuteReference::Room("!r".to_owned()),
        ExecuteReference::RoomAccountData("!r".to_owned(), "k".to_owned()),
        ExecuteReference::AccountData("k".to_owned()),
    ];
    for r in without {
        assert!(!r.has_storage_key(), "{r:?}");
    }
    let with = [
        ExecuteReference::Model("$e".to_owned()),
        ExecuteReference::ModelType("t".to_owned()),
        ExecuteReference::ModelParam("$e".to_owned(), ModelParam::InviteStats),
        ExecuteReference::RoomParam("!r".to_owned(), RoomParam::LatestMessage),
        ExecuteReference::Index(IndexKey::Special(SpecialListsIndex::InvitedTo)),
    ];
    for r in with {
        assert!(r.has_storage_key(), "{r:?}");
    }
}
