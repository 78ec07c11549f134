//! The record writer: which region to write to, which record to write, and
//! the single write that stores it.
//!
//! Every record is written under a freshly drawn primary key, a random UUID in
//! text form. As long as that key is not in use, the write creates a row and
//! changes no other; [`crate::table`] states this. The write is described as
//! a plain value, [`PutItem`]; sending it, once and without a retry, is the
//! caller's part, and so is finding out which region is configured.

use crate::model::{Record, RecordView};
use vstd::prelude::*;

verus! {

/// The table that holds the users.
pub const TABLE_NAME: &'static str = "tb_users";

/// The attribute that holds the primary key of a record.
pub const USER_ID_ATTRIBUTE: &'static str = "user_id";

/// The attribute that holds the name of the user.
pub const USER_NAME_ATTRIBUTE: &'static str = "user_name";

/// The region to write to where none is configured.
pub const DEFAULT_REGION: &'static str = "sa-east-1";

/// One attribute of an item. Every attribute of a user record is a string.
#[derive(Debug, Clone, PartialEq, Eq)]
pub struct Attribute {
    pub name: String,
    pub value: String,
}

/// A write that creates the item under its primary key, or replaces the item
/// that is already there.
#[derive(Debug, Clone, PartialEq, Eq)]
pub struct PutItem {
    pub table_name: String,
    pub item: Vec<Attribute>,
}

/// An [`Attribute`] as mathematical text.
pub struct AttributeView {
    pub name: Seq<char>,
    pub value: Seq<char>,
}

/// A [`PutItem`] as mathematical text, the attributes in their order.
pub struct PutItemView {
    pub table_name: Seq<char>,
    pub item: Seq<AttributeView>,
}

impl View for Attribute {
    type V = AttributeView;

    open spec fn view(&self) -> AttributeView {
        AttributeView { name: self.name@, value: self.value@ }
    }
}

impl View for PutItem {
    type V = PutItemView;

    open spec fn view(&self) -> PutItemView {
        PutItemView {
            table_name: self.table_name@,
            item: self.item@.map_values(|attribute: Attribute| attribute@),
        }
    }
}

/// A digit of lower-case hexadecimal.
pub open spec fn is_lower_hex(c: char) -> bool {
    ('0' <= c && c <= '9') || ('a' <= c && c <= 'f')
}

/// The four places of a hyphenated UUID at which the hyphens stand.
pub open spec fn is_hyphen_place(i: int) -> bool {
    i == 8 || i == 13 || i == 18 || i == 23
}

/// What may stand at place `i` of a hyphenated lower-case UUID: a hyphen at
/// the four hyphen places, a hexadecimal digit elsewhere.
pub open spec fn fits_uuid_place(i: int, c: char) -> bool {
    if is_hyphen_place(i) {
        c == '-'
    } else {
        is_lower_hex(c)
    }
}

/// The text of a random (version 4) UUID in its hyphenated lower-case form:
/// 36 characters in groups of 8, 4, 4, 4 and 12 hexadecimal digits with
/// hyphens between them, the third group starting with the version, `4`, and
/// the fourth with a digit whose two high bits are `10`.
pub open spec fn is_random_uuid_text(s: Seq<char>) -> bool {
    &&& s.len() == 36
    &&& forall|i: int| 0 <= i < 36 ==> fits_uuid_place(i, #[trigger] s[i])
    &&& s[14] == '4'
    &&& (s[19] == '8' || s[19] == '9' || s[19] == 'a' || s[19] == 'b')
}

/// The region that the write goes to: the configured one where there is one,
/// [`DEFAULT_REGION`] where there is none.
pub open spec fn region_for(configured: Option<Seq<char>>) -> Seq<char> {
    match configured {
        Some(region) => region,
        None => DEFAULT_REGION@,
    }
}

/// The write that stores `record`: into [`TABLE_NAME`], the primary key
/// first, then the name.
pub open spec fn put_of(record: RecordView) -> PutItemView {
    PutItemView {
        table_name: TABLE_NAME@,
        item: seq![
            AttributeView { name: USER_ID_ATTRIBUTE@, value: record.user_id },
            AttributeView { name: USER_NAME_ATTRIBUTE@, value: record.user_name },
        ],
    }
}

/// Picks the region: `configured` where a region is configured, else
/// [`DEFAULT_REGION`].
pub fn resolve_region(configured: Option<String>) -> (region: String)
    ensures
        configured matches Some(named) ==> region@ == region_for(Some(named@)),
        configured is None ==> region@ == region_for(None),
{
    match configured {
        Some(named) => named,
        None => String::from_str(DEFAULT_REGION),
    }
}

/// Draws a fresh identifier: `uuid::Uuid::new_v4`, rendered by its `Display`
/// impl through `to_string`.
///
/// Trusted, not proved: whatever was drawn, the text is a version 4 UUID of
/// the RFC variant in hyphenated lower-case form. Nothing is claimed about
/// which one; two calls may even return the same. `new_v4` panics where the
/// operating system hands out no random bytes.
#[verifier::external_body]
fn fresh_user_id() -> (user_id: String)
    ensures
        is_random_uuid_text(user_id@),
{
    uuid::Uuid::new_v4().to_string()
}

/// Makes the record for `user_name` under a fresh primary key.
pub fn new_record(user_name: &String) -> (record: Record)
    ensures
        record@.user_name == user_name@,
        is_random_uuid_text(record@.user_id),
{
    Record { user_id: fresh_user_id(), user_name: user_name.clone() }
}

/// Describes the write that stores `record`.
pub fn put_record(record: Record) -> (put: PutItem)
    ensures
        put@ == put_of(record@),
{
    let mut item: Vec<Attribute> = Vec::new();
    item.push(Attribute { name: String::from_str(USER_ID_ATTRIBUTE), value: record.user_id });
    item.push(Attribute { name: String::from_str(USER_NAME_ATTRIBUTE), value: record.user_name });
    let put = PutItem { table_name: String::from_str(TABLE_NAME), item };
    assert(put@.item =~= put_of(record@).item);
    put
}

/// Describes the one write that registers `user_name`: the record of
/// [`new_record`], stored as [`put_record`] says.
pub fn insert_user(user_name: &String) -> (put: PutItem)
    ensures
        exists|user_id: Seq<char>|
            is_random_uuid_text(user_id) && put@ == #[trigger] put_of(
                RecordView { user_id, user_name: user_name@ },
            ),
{
    let record = new_record(user_name);
    let put = put_record(record);
    assert(put@ == put_of(RecordView { user_id: record@.user_id, user_name: user_name@ }));
    put
}

} // verus!
