//! The item domain: records, derived risk fields, and the persistence
//! semantics of the list and create operations.
//!
//! The store keeps only `(id, name)` (plus a creation timestamp it uses for
//! ordering). The risk fields are never persisted: they are recomputed from
//! the name on every read, so a change of the classification rules changes
//! them on the next read without a migration.

use vstd::prelude::*;
use vstd::utf8::encode_utf8;

use crate::classify::{
    classify, spec_level, spec_score, RiskLevel,
};
use crate::ids::{fresh_id, is_canonical_id};

verus! {

/// The most items one list operation ever returns.
pub const LIST_LIMIT: usize = 100;

/// An item as clients see it: the stored identity plus the derived risk
/// fields.
pub struct Item {
    pub id: String,
    pub name: String,
    pub risk_score: u8,
    pub risk_level: RiskLevel,
}

/// A creation request: the client supplies only the name.
pub struct NewItem {
    pub name: String,
}

/// A stored row as the relational store hands it back: identifier and name,
/// both plain strings.
pub struct ItemRow {
    pub id: String,
    pub name: String,
}

/// The risk score an item with this name carries, derived from the name's
/// UTF-8 bytes.
pub open spec fn derived_score(name: Seq<char>) -> int {
    spec_score(encode_utf8(name))
}

impl Item {
    /// Well-formed: the risk fields are exactly the derived ones, and the
    /// score sits in the documented range.
    pub open spec fn wf(self) -> bool {
        &&& self.risk_score == derived_score(self.name@)
        &&& self.risk_level == spec_level(self.risk_score as int)
        &&& 0 <= self.risk_score <= 100
    }
}

/// The item `item` is the read-time projection of the stored row `row`:
/// same identity, risk fields derived from the row's name.
pub open spec fn item_matches_row(item: Item, row: ItemRow) -> bool {
    &&& item.id@ == row.id@
    &&& item.name@ == row.name@
    &&& item.wf()
}

/// Every score the classifier produces lies in the documented range.
pub proof fn lemma_score_in_range(name: Seq<char>)
    ensures
        0 <= derived_score(name) <= 100,
{
}

/// Round trip: an item created under some name and the item read back from
/// the stored row of that name carry the same derived risk fields. Creation
/// computes them for the response and the list operation recomputes them
/// from the row, but both are the same pure function of the name.
pub proof fn lemma_create_list_round_trip(created: Item, row: ItemRow, listed: Item)
    requires
        created.wf(),
        item_matches_row(listed, row),
        row.name@ == created.name@,
    ensures
        listed.risk_score == created.risk_score,
        listed.risk_level == created.risk_level,
{
}

/// Projects one stored row to the item clients see, recomputing the risk
/// fields from the name.
pub fn item_from_row(row: &ItemRow) -> (item: Item)
    ensures
        item_matches_row(item, *row),
{
    let (score, level) = classify(row.name.as_str());
    Item { id: row.id.clone(), name: row.name.clone(), risk_score: score, risk_level: level }
}

/// Assembles the list response from the rows the store returned, newest
/// first as the store handed them over: at most `LIST_LIMIT` items, the
/// store's order kept, each item the projection of the row at its position.
pub fn list_items(rows: &Vec<ItemRow>) -> (items: Vec<Item>)
    ensures
        items@.len() == if rows@.len() <= LIST_LIMIT {
            rows@.len() as int
        } else {
            LIST_LIMIT as int
        },
        forall|i: int| 0 <= i < items@.len() ==> item_matches_row(#[trigger] items@[i], rows@[i]),
{
    let n = if rows.len() <= LIST_LIMIT {
        rows.len()
    } else {
        LIST_LIMIT
    };
    let mut items: Vec<Item> = Vec::new();
    let mut i: usize = 0;
    while i < n
        invariant
            n <= rows@.len(),
            i <= n,
            items@.len() == i,
            forall|k: int| 0 <= k < i ==> item_matches_row(#[trigger] items@[k], rows@[k]),
        decreases n - i,
    {
        let item = item_from_row(&rows[i]);
        items.push(item);
        i += 1;
    }
    items
}

/// Creates the item for a new name: draws a fresh random identifier and
/// computes the risk fields for the response. Nothing is persisted here;
/// the caller inserts `(id, name)` and, on insert failure, must not hand
/// the generated id out (see the pipeline's create step).
pub fn create_item(name: String) -> (item: Item)
    ensures
        item.name@ == name@,
        item.wf(),
        is_canonical_id(item.id@),
{
    let (score, level) = classify(name.as_str());
    let id = fresh_id();
    Item { id, name, risk_score: score, risk_level: level }
}

} // verus!
