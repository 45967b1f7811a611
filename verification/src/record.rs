//! The record that the store keeps of a lot: a tuple of plain values in the
//! order of the persisted layout, which is name, unit price, category tag,
//! quantity, date bought.

use vstd::prelude::*;

verus! {

/// A record as the store holds it.
pub type Record = (String, u128, u8, i16, u64);

/// A record as plain mathematical values.
pub type RecordView = (Seq<char>, u128, u8, i16, u64);

/// A record as plain mathematical values: the name by its characters.
pub open spec fn record_view(r: Record) -> RecordView {
    (r.0@, r.1, r.2, r.3, r.4)
}

/// What a lookup in the store found, as plain mathematical values.
pub open spec fn found_view(found: Option<Record>) -> Option<RecordView> {
    match found {
        Some(record) => Some(record_view(record)),
        None => None,
    }
}

} // verus!
