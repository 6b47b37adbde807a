//! The records of the collaborators around the ledger: items, tags and
//! users, as the data layer hands them over.

use vstd::prelude::*;

verus! {

/// A piece of equipment.
#[derive(Debug, PartialEq, Eq)]
pub struct Item {
    pub id: i64,
    pub name: String,
    /// Days between two inspections, where the item is to be inspected
    pub inspection_period_days: Option<i32>,
    pub serial_number: Option<String>,
}

/// An item that is still to be stored.
#[derive(Debug, PartialEq, Eq)]
pub struct InsertItem {
    pub name: String,
    pub inspection_period_days: Option<i32>,
    pub serial_number: Option<String>,
}

/// A label that items can carry.
#[derive(Debug, PartialEq, Eq)]
pub struct Tag {
    pub id: i64,
    pub name: String,
    pub color: String,
}

/// A tag that is still to be stored.
#[derive(Debug, PartialEq, Eq)]
pub struct InsertTag {
    pub name: String,
    pub color: String,
}

/// The fact that an item carries a tag.
#[derive(Debug, Clone, Copy, PartialEq, Eq, Structural)]
pub struct ItemTag {
    pub id: i64,
    pub item_id: i64,
    pub tag_id: i64,
}

/// A link between an item and a tag that is still to be stored.
#[derive(Debug, Clone, Copy, PartialEq, Eq, Structural)]
pub struct InsertItemTag {
    pub item_id: i64,
    pub tag_id: i64,
}

/// An account, with what it may do.
#[derive(Debug, PartialEq, Eq)]
pub struct User {
    pub id: i64,
    pub login: String,
    /// The stored hash of the password
    pub password: String,
    pub is_active: bool,
    pub perm_users: bool,
    pub perm_tags: bool,
    pub perm_items: bool,
    pub perm_action_inspect: bool,
    pub perm_action_lend: bool,
}

/// An account that is still to be stored.
#[derive(Debug, PartialEq, Eq)]
pub struct InsertUser {
    pub login: String,
    /// The hash of the password
    pub password: String,
    pub is_active: bool,
    pub perm_users: bool,
    pub perm_tags: bool,
    pub perm_items: bool,
    pub perm_action_inspect: bool,
    pub perm_action_lend: bool,
}

} // verus!
