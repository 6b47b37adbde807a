//! What the operations around the ledger take and give, and how the records
//! of the data layer turn into it.

use vstd::prelude::*;
use vstd::std_specs::convert::FromSpecImpl;
use crate::event::{EventData, InspectionResult};
use crate::history::Request;
use crate::auth::LoginError;
use crate::ledger::{Event, Rejection};
use crate::models::{InsertItem, InsertItemTag, InsertTag, InsertUser, ItemTag, User};
use crate::password::{argon2_hash, hash_password};
use crate::time::Timestamp;

verus! {

/// The ids of the tags that the links `links` name, in their order.
pub open spec fn tag_ids(links: Seq<ItemTag>) -> Seq<i64> {
    links.map_values(|link: ItemTag| link.tag_id)
}

/// The entries of the events `events`, in their order.
pub open spec fn item_events(events: Seq<Event>) -> Seq<ItemEvent> {
    events.map_values(|event: Event| (ItemEvent { id: event.id, ts: event.ts }))
}

/// The links that give the item `item_id` the tags `tags`, in their order.
pub open spec fn tag_links(item_id: i64, tags: Seq<i64>) -> Seq<InsertItemTag> {
    tags.map_values(|tag_id: i64| (InsertItemTag { item_id, tag_id }))
}

/// The requests that open the history of a new item: its manufacture where
/// the date is known, then its entry into service where that date is known.
pub open spec fn creation_requests(
    item_id: i64,
    manufactured_on: Option<Timestamp>,
    put_into_service_on: Option<Timestamp>,
) -> Seq<Request> {
    let manufacture = match manufactured_on {
        Some(ts) => seq![
            (Request { item_id, ts, data: (EventData::Manufactured {  }), parent_id: None }),
        ],
        None => seq![],
    };
    let service = match put_into_service_on {
        Some(ts) => seq![
            (Request { item_id, ts, data: (EventData::PutIntoService {  }), parent_id: None }),
        ],
        None => seq![],
    };
    manufacture + service
}

fn collect_tag_ids(links: &Vec<ItemTag>) -> (ids: Vec<i64>)
    ensures
        ids@ == tag_ids(links@),
{
    let mut ids: Vec<i64> = Vec::new();
    let mut i: usize = 0;
    while i < links.len()
        invariant
            i <= links.len(),
            ids@ == tag_ids(links@.take(i as int)),
        decreases links.len() - i,
    {
        ids.push(links[i].tag_id);
        i += 1;
    }
    ids
}

/// An item with the tags it carries.
#[derive(Debug, PartialEq, Eq)]
pub struct Item {
    /// Id of the item
    pub id: i64,
    /// Name of the item
    pub name: String,
    /// Optional inspection period
    pub inspection_period_days: Option<i32>,
    /// Optional serial number
    pub serial_number: Option<String>,
    /// Ids of all tags associated to this item
    pub tags: Vec<i64>,
}

impl From<(crate::models::Item, Vec<ItemTag>)> for Item {
    /// The item with the ids of its tags, in the order of the links.
    fn from(value: (crate::models::Item, Vec<ItemTag>)) -> (item: Item)
        ensures
            item.id == value.0.id,
            item.name == value.0.name,
            item.inspection_period_days == value.0.inspection_period_days,
            item.serial_number == value.0.serial_number,
            item.tags@ == tag_ids(value.1@),
    {
        let tags = collect_tag_ids(&value.1);
        Item {
            id: value.0.id,
            name: value.0.name,
            serial_number: value.0.serial_number,
            inspection_period_days: value.0.inspection_period_days,
            tags,
        }
    }
}

impl FromSpecImpl<(crate::models::Item, Vec<ItemTag>)> for Item {
    open spec fn obeys_from_spec() -> bool {
        false
    }

    open spec fn from_spec(value: (crate::models::Item, Vec<ItemTag>)) -> Item {
        arbitrary()
    }
}

/// An entry of an item's history: which event, and when.
#[derive(Debug, Clone, Copy, PartialEq, Eq, Structural)]
pub struct ItemEvent {
    /// Id of the event
    pub id: i64,
    /// Timestamp of the event
    pub ts: Timestamp,
}

impl From<Event> for ItemEvent {
    fn from(value: Event) -> (entry: ItemEvent) {
        ItemEvent { id: value.id, ts: value.ts }
    }
}

impl FromSpecImpl<Event> for ItemEvent {
    open spec fn obeys_from_spec() -> bool {
        true
    }

    open spec fn from_spec(value: Event) -> ItemEvent {
        ItemEvent { id: value.id, ts: value.ts }
    }
}

/// An item with the tags it carries and its history.
#[derive(Debug, PartialEq, Eq)]
pub struct ItemDetails {
    /// Id of the item
    pub id: i64,
    /// Name of the item
    pub name: String,
    /// Optional inspection period
    pub inspection_period_days: Option<i32>,
    /// Optional serial number
    pub serial_number: Option<String>,
    /// Ids of all tags associated to this item
    pub tags: Vec<i64>,
    /// Events for this item
    pub events: Vec<ItemEvent>,
}

impl From<(crate::models::Item, Vec<ItemTag>, Vec<Event>)> for ItemDetails {
    /// The item with the ids of its tags and the entries of its events, both
    /// in the order given.
    fn from(value: (crate::models::Item, Vec<ItemTag>, Vec<Event>)) -> (details: ItemDetails)
        ensures
            details.id == value.0.id,
            details.name == value.0.name,
            details.inspection_period_days == value.0.inspection_period_days,
            details.serial_number == value.0.serial_number,
            details.tags@ == tag_ids(value.1@),
            details.events@ == item_events(value.2@),
    {
        let tags = collect_tag_ids(&value.1);
        let mut events: Vec<ItemEvent> = Vec::new();
        let mut i: usize = 0;
        while i < value.2.len()
            invariant
                i <= value.2.len(),
                events@ == item_events(value.2@.take(i as int)),
            decreases value.2.len() - i,
        {
            events.push(ItemEvent { id: value.2[i].id, ts: value.2[i].ts });
            i += 1;
        }
        ItemDetails {
            id: value.0.id,
            name: value.0.name,
            serial_number: value.0.serial_number,
            inspection_period_days: value.0.inspection_period_days,
            tags,
            events,
        }
    }
}

impl FromSpecImpl<(crate::models::Item, Vec<ItemTag>, Vec<Event>)> for ItemDetails {
    open spec fn obeys_from_spec() -> bool {
        false
    }

    open spec fn from_spec(value: (crate::models::Item, Vec<ItemTag>, Vec<Event>)) -> ItemDetails {
        arbitrary()
    }
}

/// What it takes to create an item.
#[derive(Debug, PartialEq, Eq)]
pub struct CreateItem {
    pub name: String,
    pub inspection_period_days: Option<i32>,
    pub serial_number: Option<String>,
    pub tags: Vec<i64>,
    pub manufactured_on: Option<Timestamp>,
    pub put_into_service_on: Option<Timestamp>,
}

impl CreateItem {
    /// The links that give the new item, stored under `item_id`, its tags.
    pub fn tag_rows(&self, item_id: i64) -> (rows: Vec<InsertItemTag>)
        ensures
            rows@ == tag_links(item_id, self.tags@),
    {
        let mut rows: Vec<InsertItemTag> = Vec::new();
        let mut i: usize = 0;
        while i < self.tags.len()
            invariant
                i <= self.tags.len(),
                rows@ == tag_links(item_id, self.tags@.take(i as int)),
            decreases self.tags.len() - i,
        {
            rows.push(InsertItemTag { item_id, tag_id: self.tags[i] });
            i += 1;
        }
        rows
    }

    /// The requests that open the history of the new item, stored under
    /// `item_id`, in the order in which they are to be recorded.
    pub fn events(&self, item_id: i64) -> (requests: Vec<Request>)
        ensures
            requests@ == creation_requests(item_id, self.manufactured_on, self.put_into_service_on),
    {
        let mut requests: Vec<Request> = Vec::new();
        if let Some(ts) = self.manufactured_on {
            requests.push(Request { item_id, ts, data: EventData::Manufactured {  }, parent_id: None });
        }
        if let Some(ts) = self.put_into_service_on {
            requests.push(
                Request { item_id, ts, data: EventData::PutIntoService {  }, parent_id: None },
            );
        }
        requests
    }

    /// The record of the new item.
    pub fn into_item(self) -> (item: InsertItem)
        ensures
            item.name == self.name,
            item.inspection_period_days == self.inspection_period_days,
            item.serial_number == self.serial_number,
    {
        InsertItem {
            name: self.name,
            inspection_period_days: self.inspection_period_days,
            serial_number: self.serial_number,
        }
    }
}

/// What it takes to record an inspection.
#[derive(Debug, PartialEq, Eq)]
pub struct InspectItem {
    /// Inspection result
    pub result: InspectionResult,
    /// Comment of inspector
    pub comment: Option<String>,
    /// Time of the inspection in UTC. Will default to now if unset.
    pub ts: Option<Timestamp>,
}

impl InspectItem {
    /// The request that records the inspection of `item_id` by `inspector`,
    /// at the time given with the inspection, or at `now` where none is.
    pub fn into_request(self, item_id: i64, inspector: String, now: Timestamp) -> (request: Request)
        ensures
            request == (Request {
                item_id,
                ts: match self.ts {
                    Some(ts) => ts,
                    None => now,
                },
                data: (EventData::Inspected {
                    inspector,
                    result: self.result,
                    comment: self.comment,
                }),
                parent_id: None,
            }),
    {
        let ts = match self.ts {
            Some(ts) => ts,
            None => now,
        };
        Request {
            item_id,
            ts,
            data: EventData::Inspected { inspector, result: self.result, comment: self.comment },
            parent_id: None,
        }
    }
}

/// A tag, as the operations show it.
#[derive(Debug, PartialEq, Eq)]
pub struct Tag {
    /// Id of the tag
    pub id: i64,
    /// Name of the tag
    pub name: String,
    /// Color of the tag
    pub color: String,
}

impl From<crate::models::Tag> for Tag {
    fn from(value: crate::models::Tag) -> (tag: Tag) {
        Tag { id: value.id, name: value.name, color: value.color }
    }
}

impl FromSpecImpl<crate::models::Tag> for Tag {
    open spec fn obeys_from_spec() -> bool {
        true
    }

    open spec fn from_spec(value: crate::models::Tag) -> Tag {
        Tag { id: value.id, name: value.name, color: value.color }
    }
}

/// What it takes to create a tag.
#[derive(Debug, PartialEq, Eq)]
pub struct CreateTag {
    /// Name of the tag to create
    pub name: String,
    /// Color of the tag
    pub color: String,
}

impl CreateTag {
    /// The record of the new tag.
    pub fn into_tag(self) -> (tag: InsertTag)
        ensures
            tag == (InsertTag { name: self.name, color: self.color }),
    {
        InsertTag { name: self.name, color: self.color }
    }
}

/// What it takes to create an account.
#[derive(Debug, PartialEq, Eq)]
pub struct CreateUser {
    pub login: String,
    pub password: String,
    pub is_active: bool,
    pub perm_users: bool,
    pub perm_tags: bool,
    pub perm_items: bool,
    pub perm_action_inspect: bool,
    pub perm_action_lend: bool,
}

impl CreateUser {
    /// The record of the new account, which holds the Argon2 hash of the
    /// password under the salt `salt` in place of the password; or the text
    /// of the error where the password cannot be hashed under that salt.
    pub fn hashed(self, salt: &str) -> (result: Result<InsertUser, String>)
        ensures
            match argon2_hash(self.password@, salt@) {
                Ok(hash) => {
                    &&& result matches Ok(user)
                    &&& user.password@ == hash
                    &&& user.login == self.login
                    &&& user.is_active == self.is_active
                    &&& user.perm_users == self.perm_users
                    &&& user.perm_tags == self.perm_tags
                    &&& user.perm_items == self.perm_items
                    &&& user.perm_action_inspect == self.perm_action_inspect
                    &&& user.perm_action_lend == self.perm_action_lend
                },
                Err(error) => result matches Err(text) && text@ == error,
            },
    {
        match hash_password(self.password.as_str(), salt) {
            Ok(hash) => Ok(self.into_user(hash)),
            Err(error) => Err(error),
        }
    }

    /// The record of the new account, which holds `password_hash` in place
    /// of the password.
    pub fn into_user(self, password_hash: String) -> (user: InsertUser)
        ensures
            user == (InsertUser {
                login: self.login,
                password: password_hash,
                is_active: self.is_active,
                perm_users: self.perm_users,
                perm_tags: self.perm_tags,
                perm_items: self.perm_items,
                perm_action_inspect: self.perm_action_inspect,
                perm_action_lend: self.perm_action_lend,
            }),
    {
        InsertUser {
            login: self.login,
            password: password_hash,
            is_active: self.is_active,
            perm_users: self.perm_users,
            perm_tags: self.perm_tags,
            perm_items: self.perm_items,
            perm_action_inspect: self.perm_action_inspect,
            perm_action_lend: self.perm_action_lend,
        }
    }
}

/// An account with what it may do, without its password.
#[derive(Debug, PartialEq, Eq)]
pub struct UserWithPermissions {
    /// Id of the user
    pub id: i64,
    /// Login of the user
    pub login: String,
    /// Whether the user is enabled or disabled
    pub is_active: bool,
    /// User has permission to manage other users
    pub perm_users: bool,
    /// User has permission to manage tags
    pub perm_tags: bool,
    /// User has permission to manage items
    pub perm_items: bool,
    /// User has permission to inspect items
    pub perm_action_inspect: bool,
    /// User has permission to lend items
    pub perm_action_lend: bool,
}

impl From<User> for UserWithPermissions {
    fn from(value: User) -> (user: UserWithPermissions) {
        UserWithPermissions {
            id: value.id,
            login: value.login,
            is_active: value.is_active,
            perm_users: value.perm_users,
            perm_tags: value.perm_tags,
            perm_items: value.perm_items,
            perm_action_inspect: value.perm_action_inspect,
            perm_action_lend: value.perm_action_lend,
        }
    }
}

impl FromSpecImpl<User> for UserWithPermissions {
    open spec fn obeys_from_spec() -> bool {
        true
    }

    open spec fn from_spec(value: User) -> UserWithPermissions {
        UserWithPermissions {
            id: value.id,
            login: value.login,
            is_active: value.is_active,
            perm_users: value.perm_users,
            perm_tags: value.perm_tags,
            perm_items: value.perm_items,
            perm_action_inspect: value.perm_action_inspect,
            perm_action_lend: value.perm_action_lend,
        }
    }
}

/// What it takes to log in.
#[derive(Debug, PartialEq, Eq)]
pub struct LoginUser {
    pub login: String,
    pub password: String,
}

/// What a login gives: the token to show with later requests.
#[derive(Debug, PartialEq, Eq)]
pub struct UserToken {
    pub jwt_token: String,
}

/// What went wrong with an operation, as far as the answer depends on it.
#[derive(Debug, Clone, Copy, PartialEq, Eq, Structural)]
pub enum Failure {
    /// What was asked for does not exist
    NotFound,
    /// The database failed
    Database,
    /// No connection to the database could be had
    Pool,
    /// An account tried to delete itself
    CannotDeleteSelf,
    /// The password could not be hashed
    PasswordHash,
    /// A task in the background failed
    Join,
    /// The ledger refused the event
    Rejected(Rejection),
}

impl Failure {
    /// The HTTP status that reports the failure: 404 for what does not
    /// exist, 400 for what the caller must not ask (to delete itself, or an
    /// event that the validation rejects), 500 for what failed on this side.
    pub open spec fn spec_status_code(self) -> u16 {
        match self {
            Failure::NotFound => 404,
            Failure::CannotDeleteSelf => 400,
            Failure::Rejected(rejection) => if rejection.spec_is_validation() {
                400
            } else {
                500
            },
            Failure::Database | Failure::Pool | Failure::PasswordHash | Failure::Join => 500,
        }
    }

    /// The HTTP status that reports the failure.
    #[verifier::when_used_as_spec(spec_status_code)]
    pub fn status_code(self) -> (code: u16)
        ensures
            code == self.spec_status_code(),
    {
        match self {
            Failure::NotFound => 404,
            Failure::CannotDeleteSelf => 400,
            Failure::Rejected(rejection) => if rejection.is_validation() {
                400
            } else {
                500
            },
            Failure::Database | Failure::Pool | Failure::PasswordHash | Failure::Join => 500,
        }
    }
}

impl From<LoginError> for Failure {
    /// A refused login does not say why: whatever the reason, the account is
    /// reported as one that does not exist.
    fn from(value: LoginError) -> (failure: Failure) {
        Failure::NotFound
    }
}

impl FromSpecImpl<LoginError> for Failure {
    open spec fn obeys_from_spec() -> bool {
        true
    }

    open spec fn from_spec(value: LoginError) -> Failure {
        Failure::NotFound
    }
}

} // verus!
