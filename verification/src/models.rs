//! The data carried by requests and replies.

use vstd::prelude::*;

verus! {

/// The value column of an item: a signed 64-bit integer stored as `bigint`.
#[derive(Debug, PartialEq, Eq, Structural)]
pub struct ItemValue(pub i64);

/// One row of the `items` table: a UUID key (its 128 bits, most significant
/// byte first), a name and a value.
#[derive(Debug)]
pub struct Item {
    pub id: u128,
    pub name: String,
    pub value: ItemValue,
}

/// The JSON body sent back after a successful write.
#[derive(Debug, PartialEq, Eq, Structural)]
pub struct InsertResponse {
    pub success: bool,
}

/// A request for one page of a paged read: an optional paging state
/// (base64 text) and an optional page size.
#[derive(Debug)]
pub struct PageRequest {
    pub paging_state: Option<String>,
    pub page_size: Option<i32>,
}

/// The body of `/custom_insert`: the text to store.
#[derive(Debug)]
pub struct CustomInsertRequest {
    pub text: String,
}

/// The body of `/custom_query_token_range`: the token range
/// `(start_token, end_token]` to read, and an optional page size.
#[derive(Debug, Clone, Copy, PartialEq, Eq, Structural)]
pub struct TokenRangeRequest {
    pub start_token: i64,
    pub end_token: i64,
    pub page_size: Option<i32>,
}

/// The values bound to one `INSERT INTO demo.items (id, name, value)`.
pub type InsertValues = (u128, String, ItemValue);

impl Item {
    /// The values that an insert of this item binds, in column order.
    pub fn insert_values(&self) -> (r: InsertValues)
        ensures
            r.0 == self.id,
            r.1@ == self.name@,
            r.2 == self.value,
    {
        (self.id, self.name.clone(), ItemValue(self.value.0))
    }
}

} // verus!
