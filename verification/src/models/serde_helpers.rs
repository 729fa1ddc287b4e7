//! The null-tolerant readers that every attribute field goes through.

use vstd::prelude::*;
use crate::decode::{
    is_blank, slot_tree, tolerant_decodes, tolerant_mismatch, Decode, Fallback,
};
use crate::error::{unplaced, Expected, SchemaError};
use crate::json::Json;
use crate::time::{epoch, instant_of_text, Timestamp};

verus! {

/// Reads a slot, taking `null` and absence for "nothing reported". A value
/// that is present and malformed is an error, never the fallback.
pub fn de_null_default<T: Decode + Fallback>(slot: Option<&Json>) -> (r: Result<T, SchemaError>)
    ensures
        r is Ok <==> tolerant_mismatch::<T>(slot_tree(slot)) is None,
        r is Ok ==> tolerant_decodes::<T>(slot_tree(slot), r->Ok_0),
        r is Err ==> tolerant_mismatch::<T>(slot_tree(slot)) == Some(r->Err_0@),
{
    match slot {
        None => Ok(T::fallback()),
        Some(json) => match json {
            Json::Null => Ok(T::fallback()),
            _ => T::decode(json),
        },
    }
}

/// Reads a timestamp slot, taking `null` and absence for the epoch.
pub fn de_null_unix_epoch(slot: Option<&Json>) -> (r: Result<Timestamp, SchemaError>)
    ensures
        r is Ok <==> tolerant_mismatch::<Timestamp>(slot_tree(slot)) is None,
        r is Ok && is_blank(slot_tree(slot)) ==> r->Ok_0 == epoch(),
        r is Ok && !is_blank(slot_tree(slot)) ==> instant_of_text(slot_tree(slot)->0->Text_0) == Some(
            r->Ok_0,
        ),
        r is Err ==> r->Err_0@ == unplaced(Expected::Timestamp),
{
    de_null_default::<Timestamp>(slot)
}

/// The instant that stands for "no time reported".
pub fn unix_epoch() -> (r: Timestamp)
    ensures
        r == epoch(),
{
    Timestamp { seconds: 0, nanos: 0 }
}

} // verus!
