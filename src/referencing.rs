//! Names of storage slots and index buckets, and the string key under
//! which each supported slot is stored.
use vstd::prelude::*;

verus! {

/// A section of a room or of the whole account.
#[derive(Debug, Clone, Copy, PartialEq, Eq, Structural, PartialOrd, Ord, Hash)]
pub enum SectionIndex {
    Boosts,
    Calendar,
    Pins,
    Stories,
    Tasks,
}

/// A list that hangs off one object.
#[derive(Debug, Clone, Copy, PartialEq, Eq, Structural, PartialOrd, Ord, Hash)]
pub enum ObjectListIndex {
    Attachments,
    Comments,
    Reactions,
    ReadReceipt,
    Rsvp,
    Tasks,
    Invites,
}

/// A list kept for the whole account.
#[derive(Debug, Clone, Copy, PartialEq, Eq, Structural, PartialOrd, Ord, Hash)]
pub enum SpecialListsIndex {
    MyOpenTasks,
    MyDoneTasks,
    InvitedTo,
}

/// A bucket of models that can be queried.
#[derive(Debug, Clone, PartialEq, Eq, PartialOrd, Ord, Hash)]
pub enum IndexKey {
    RoomHistory(String),
    RoomModels(String),
    ObjectHistory(String),
    Section(SectionIndex),
    RoomSection(String, SectionIndex),
    ObjectList(String, ObjectListIndex),
    Special(SpecialListsIndex),
    Redacted,
    AllHistory,
}

/// A statistic kept per model.
#[derive(Debug, Clone, Copy, PartialEq, Eq, Structural, PartialOrd, Ord, Hash)]
pub enum ModelParam {
    CommentsStats,
    AttachmentsStats,
    ReactionStats,
    RsvpStats,
    ReadReceiptsStats,
    InviteStats,
}

/// A value kept per room.
#[derive(Debug, Clone, Copy, PartialEq, Eq, Structural, PartialOrd, Ord, Hash)]
pub enum RoomParam {
    LatestMessage,
}

/// A slot whose content may change when a model is stored.
#[derive(Debug, Clone, PartialEq, Eq, PartialOrd, Ord, Hash)]
pub enum ExecuteReference {
    Index(IndexKey),
    Model(String),
    Room(String),
    RoomAccountData(String, String),
    ModelParam(String, ModelParam),
    RoomParam(String, RoomParam),
    AccountData(String),
    ModelType(String),
}

pub open spec fn section_name(s: SectionIndex) -> Seq<char> {
    match s {
        SectionIndex::Boosts => "boosts"@,
        SectionIndex::Calendar => "calendar"@,
        SectionIndex::Pins => "pins"@,
        SectionIndex::Stories => "stories"@,
        SectionIndex::Tasks => "tasks"@,
    }
}

pub open spec fn object_list_name(o: ObjectListIndex) -> Seq<char> {
    match o {
        ObjectListIndex::Attachments => "attachments"@,
        ObjectListIndex::Comments => "comments"@,
        ObjectListIndex::Reactions => "reactions"@,
        ObjectListIndex::ReadReceipt => "read_receipt"@,
        ObjectListIndex::Rsvp => "rsvp"@,
        ObjectListIndex::Tasks => "tasks"@,
        ObjectListIndex::Invites => "invites"@,
    }
}

pub open spec fn special_list_name(l: SpecialListsIndex) -> Seq<char> {
    match l {
        SpecialListsIndex::MyOpenTasks => "my_open_tasks"@,
        SpecialListsIndex::MyDoneTasks => "my_done_tasks"@,
        SpecialListsIndex::InvitedTo => "invited_to"@,
    }
}

pub open spec fn model_param_name(p: ModelParam) -> Seq<char> {
    match p {
        ModelParam::CommentsStats => "comments_stats"@,
        ModelParam::AttachmentsStats => "attachments_stats"@,
        ModelParam::ReactionStats => "reaction_stats"@,
        ModelParam::RsvpStats => "rsvp_stats"@,
        ModelParam::ReadReceiptsStats => "read_receipts"@,
        ModelParam::InviteStats => "invites"@,
    }
}

pub open spec fn room_param_name(p: RoomParam) -> Seq<char> {
    match p {
        RoomParam::LatestMessage => "latest_message"@,
    }
}

impl SectionIndex {
    /// The stable name of the section.
    pub fn as_str(&self) -> (r: &'static str)
        ensures
            r@ == section_name(*self),
    {
        match self {
            SectionIndex::Boosts => "boosts",
            SectionIndex::Calendar => "calendar",
            SectionIndex::Pins => "pins",
            SectionIndex::Stories => "stories",
            SectionIndex::Tasks => "tasks",
        }
    }
}

impl ObjectListIndex {
    /// The stable name of the list.
    pub fn as_str(&self) -> (r: &'static str)
        ensures
            r@ == object_list_name(*self),
    {
        match self {
            ObjectListIndex::Attachments => "attachments",
            ObjectListIndex::Comments => "comments",
            ObjectListIndex::Reactions => "reactions",
            ObjectListIndex::ReadReceipt => "read_receipt",
            ObjectListIndex::Rsvp => "rsvp",
            ObjectListIndex::Tasks => "tasks",
            ObjectListIndex::Invites => "invites",
        }
    }
}

impl SpecialListsIndex {
    /// The stable name of the list.
    pub fn as_str(&self) -> (r: &'static str)
        ensures
            r@ == special_list_name(*self),
    {
        match self {
            SpecialListsIndex::MyOpenTasks => "my_open_tasks",
            SpecialListsIndex::MyDoneTasks => "my_done_tasks",
            SpecialListsIndex::InvitedTo => "invited_to",
        }
    }
}

impl ModelParam {
    /// The stable name of the statistic.
    pub fn as_str(&self) -> (r: &'static str)
        ensures
            r@ == model_param_name(*self),
    {
        match self {
            ModelParam::CommentsStats => "comments_stats",
            ModelParam::AttachmentsStats => "attachments_stats",
            ModelParam::ReactionStats => "reaction_stats",
            ModelParam::RsvpStats => "rsvp_stats",
            ModelParam::ReadReceiptsStats => "read_receipts",
            ModelParam::InviteStats => "invites",
        }
    }
}

impl RoomParam {
    /// The stable name of the value.
    pub fn as_str(&self) -> (r: &'static str)
        ensures
            r@ == room_param_name(*self),
    {
        match self {
            RoomParam::LatestMessage => "latest_message",
        }
    }
}

/// The references that have a storage key: models, per-model and per-room
/// parameters, model types, and the list of rooms one is invited to.
pub open spec fn has_storage_key(r: ExecuteReference) -> bool {
    match r {
        ExecuteReference::Model(_) => true,
        ExecuteReference::ModelParam(_, _) => true,
        ExecuteReference::RoomParam(_, _) => true,
        ExecuteReference::ModelType(_) => true,
        ExecuteReference::Index(IndexKey::Special(SpecialListsIndex::InvitedTo)) => true,
        _ => false,
    }
}

/// The storage key of a reference that has one.
pub open spec fn storage_key(r: ExecuteReference) -> Seq<char> {
    match r {
        ExecuteReference::Model(id) => "acter::"@ + id@,
        ExecuteReference::ModelParam(id, p) => id@ + "::"@ + model_param_name(p),
        ExecuteReference::RoomParam(id, p) => id@ + "::"@ + room_param_name(p),
        ExecuteReference::ModelType(t) => t@,
        _ => "global_invited"@,
    }
}

/// `<id>::<name>`
fn join_key(id: &String, name: &str) -> (r: String)
    ensures
        r@ == id@ + "::"@ + name@,
{
    let mut r = id.clone();
    r.append("::");
    r.append(name);
    r
}

impl ExecuteReference {
    /// Whether the reference has a storage key; [`Self::as_storage_key`]
    /// asks for one.
    pub fn has_storage_key(&self) -> (r: bool)
        ensures
            r == has_storage_key(*self),
    {
        match self {
            ExecuteReference::Model(_) => true,
            ExecuteReference::ModelParam(_, _) => true,
            ExecuteReference::RoomParam(_, _) => true,
            ExecuteReference::ModelType(_) => true,
            ExecuteReference::Index(IndexKey::Special(SpecialListsIndex::InvitedTo)) => true,
            _ => false,
        }
    }

    /// The key under which the referenced slot is stored. Ordinary index
    /// buckets, rooms and account data have none.
    pub fn as_storage_key(&self) -> (r: String)
        requires
            has_storage_key(*self),
        ensures
            r@ == storage_key(*self),
    {
        match self {
            ExecuteReference::Model(id) => {
                let mut r = "acter::".to_owned();
                r.append(id.as_str());
                r
            },
            ExecuteReference::ModelParam(id, p) => join_key(id, p.as_str()),
            ExecuteReference::RoomParam(id, p) => join_key(id, p.as_str()),
            ExecuteReference::ModelType(t) => t.clone(),
            ExecuteReference::Index(IndexKey::Special(SpecialListsIndex::InvitedTo)) => {
                "global_invited".to_owned()
            },
            _ => vstd::pervasive::unreached(),
        }
    }

    /// The slot of a model type.
    pub fn from_model_type(t: &str) -> (r: ExecuteReference)
        ensures
            (r matches ExecuteReference::ModelType(s) && s@ == t@),
    {
        ExecuteReference::ModelType(t.to_owned())
    }

    /// The canonical slot of the model of an event.
    pub fn from_event_id(event_id: &str) -> (r: ExecuteReference)
        ensures
            (r matches ExecuteReference::Model(s) && s@ == event_id@),
    {
        ExecuteReference::Model(event_id.to_owned())
    }

    /// The slot of a room.
    pub fn from_room_id(room_id: &str) -> (r: ExecuteReference)
        ensures
            (r matches ExecuteReference::Room(s) && s@ == room_id@),
    {
        ExecuteReference::Room(room_id.to_owned())
    }

    /// The slot of an index bucket.
    pub fn from_index(key: IndexKey) -> (r: ExecuteReference)
        ensures
            r == ExecuteReference::Index(key),
    {
        ExecuteReference::Index(key)
    }

    /// The slot of the index bucket of a section.
    pub fn from_section(section: SectionIndex) -> (r: ExecuteReference)
        ensures
            r == ExecuteReference::Index(IndexKey::Section(section)),
    {
        ExecuteReference::Index(IndexKey::Section(section))
    }
}

} // verus!
