//! Decoding JSON values into typed values.
//!
//! A type says with [`Decode`] which JSON values it accepts and what each of
//! them decodes to. A member of an object is then read under one of four
//! policies: tolerant of `null` and absence, with a default for absence
//! alone, required, or optional.
//!
//! A failure names the member at fault and what was expected there. Of
//! several members at fault the first in reading order is reported.

use vstd::prelude::*;
use crate::error::{placed, unplaced, Expected, Mismatch, PatreonError, SchemaError};
use crate::json::{json_document, lemma_trees_of, Json, JsonNumber, JsonTree};
use crate::models::serde_helpers::{de_null_default, unix_epoch};
use crate::time::{epoch, instant_of_text, Timestamp};

verus! {

/// A type that can be read from a JSON value.
pub trait Decode: Sized {
    /// Why `tree` is not acceptable; `None` when it is.
    spec fn mismatch(tree: JsonTree) -> Option<Mismatch>;

    /// Whether `value` is what an acceptable `tree` decodes to.
    spec fn decodes(tree: JsonTree, value: Self) -> bool;

    fn decode(json: &Json) -> (r: Result<Self, SchemaError>)
        ensures
            r is Ok <==> Self::mismatch(json@) is None,
            r is Ok ==> Self::decodes(json@, r->Ok_0),
            r is Err ==> Self::mismatch(json@) == Some(r->Err_0@),
    ;
}

/// A type with a value that stands in for "nothing reported": the empty
/// text, zero, `false`, the epoch.
pub trait Fallback: Sized {
    /// Whether `value` is that value.
    spec fn is_fallback(value: Self) -> bool;

    fn fallback() -> (r: Self)
        ensures
            Self::is_fallback(r),
    ;
}

/// The integer that a JSON number is, if it is one.
pub open spec fn integer_of(tree: JsonTree) -> Option<int> {
    match tree {
        JsonTree::Number(JsonNumber::Negative(i)) => Some(i as int),
        JsonTree::Number(JsonNumber::Unsigned(u)) => Some(u as int),
        _ => None,
    }
}

/// Whether `tree` is an integer from `low` to `high`.
pub open spec fn integer_within(tree: JsonTree, low: int, high: int) -> bool {
    integer_of(tree) is Some && low <= integer_of(tree)->0 <= high
}

impl Json {
    /// The integer that a number is, when it fits in 64 signed bits.
    pub fn as_i64(&self) -> (r: Option<i64>)
        ensures
            r is Some <==> integer_within(self@, i64::MIN as int, i64::MAX as int),
            r is Some ==> r->0 as int == integer_of(self@)->0,
    {
        match self {
            Json::Number(JsonNumber::Negative(i)) => Some(*i),
            Json::Number(JsonNumber::Unsigned(u)) => {
                if *u <= 0x7fff_ffff_ffff_ffffu64 {
                    Some(*u as i64)
                } else {
                    None
                }
            },
            _ => None,
        }
    }
}

impl Decode for String {
    open spec fn mismatch(tree: JsonTree) -> Option<Mismatch> {
        if tree is Text {
            None
        } else {
            Some(unplaced(Expected::Text))
        }
    }

    open spec fn decodes(tree: JsonTree, value: String) -> bool {
        tree == JsonTree::Text(value@)
    }

    fn decode(json: &Json) -> (r: Result<String, SchemaError>) {
        match json {
            Json::Text(s) => Ok(s.clone()),
            _ => Err(SchemaError::unplaced(Expected::Text)),
        }
    }
}

impl Fallback for String {
    open spec fn is_fallback(value: String) -> bool {
        value@ == Seq::<char>::empty()
    }

    fn fallback() -> (r: String) {
        String::new()
    }
}

impl Decode for bool {
    open spec fn mismatch(tree: JsonTree) -> Option<Mismatch> {
        if tree is Bool {
            None
        } else {
            Some(unplaced(Expected::Boolean))
        }
    }

    open spec fn decodes(tree: JsonTree, value: bool) -> bool {
        tree == JsonTree::Bool(value)
    }

    fn decode(json: &Json) -> (r: Result<bool, SchemaError>) {
        match json {
            Json::Bool(b) => Ok(*b),
            _ => Err(SchemaError::unplaced(Expected::Boolean)),
        }
    }
}

impl Fallback for bool {
    open spec fn is_fallback(value: bool) -> bool {
        !value
    }

    fn fallback() -> (r: bool) {
        false
    }
}

impl Decode for i64 {
    open spec fn mismatch(tree: JsonTree) -> Option<Mismatch> {
        if integer_within(tree, i64::MIN as int, i64::MAX as int) {
            None
        } else {
            Some(unplaced(Expected::Integer))
        }
    }

    open spec fn decodes(tree: JsonTree, value: i64) -> bool {
        integer_of(tree) == Some(value as int)
    }

    fn decode(json: &Json) -> (r: Result<i64, SchemaError>) {
        match json.as_i64() {
            Some(i) => Ok(i),
            None => Err(SchemaError::unplaced(Expected::Integer)),
        }
    }
}

impl Fallback for i64 {
    open spec fn is_fallback(value: i64) -> bool {
        value == 0
    }

    fn fallback() -> (r: i64) {
        0
    }
}

impl Decode for i32 {
    open spec fn mismatch(tree: JsonTree) -> Option<Mismatch> {
        if integer_within(tree, i32::MIN as int, i32::MAX as int) {
            None
        } else {
            Some(unplaced(Expected::Integer))
        }
    }

    open spec fn decodes(tree: JsonTree, value: i32) -> bool {
        integer_of(tree) == Some(value as int)
    }

    fn decode(json: &Json) -> (r: Result<i32, SchemaError>) {
        match json.as_i64() {
            Some(i) => {
                if -0x8000_0000i64 <= i && i <= 0x7fff_ffffi64 {
                    Ok(i as i32)
                } else {
                    Err(SchemaError::unplaced(Expected::Integer))
                }
            },
            None => Err(SchemaError::unplaced(Expected::Integer)),
        }
    }
}

impl Fallback for i32 {
    open spec fn is_fallback(value: i32) -> bool {
        value == 0
    }

    fn fallback() -> (r: i32) {
        0
    }
}

impl Decode for u64 {
    open spec fn mismatch(tree: JsonTree) -> Option<Mismatch> {
        if integer_within(tree, 0, u64::MAX as int) {
            None
        } else {
            Some(unplaced(Expected::Integer))
        }
    }

    open spec fn decodes(tree: JsonTree, value: u64) -> bool {
        integer_of(tree) == Some(value as int)
    }

    fn decode(json: &Json) -> (r: Result<u64, SchemaError>) {
        match json {
            Json::Number(JsonNumber::Unsigned(u)) => Ok(*u),
            Json::Number(JsonNumber::Negative(i)) => {
                if *i >= 0 {
                    Ok(*i as u64)
                } else {
                    Err(SchemaError::unplaced(Expected::Integer))
                }
            },
            _ => Err(SchemaError::unplaced(Expected::Integer)),
        }
    }
}

impl Fallback for u64 {
    open spec fn is_fallback(value: u64) -> bool {
        value == 0
    }

    fn fallback() -> (r: u64) {
        0
    }
}

impl Decode for Timestamp {
    open spec fn mismatch(tree: JsonTree) -> Option<Mismatch> {
        match tree {
            JsonTree::Text(s) => if instant_of_text(s) is Some {
                None
            } else {
                Some(unplaced(Expected::Timestamp))
            },
            _ => Some(unplaced(Expected::Timestamp)),
        }
    }

    open spec fn decodes(tree: JsonTree, value: Timestamp) -> bool {
        tree is Text && instant_of_text(tree->Text_0) == Some(value)
    }

    fn decode(json: &Json) -> (r: Result<Timestamp, SchemaError>) {
        match json {
            Json::Text(s) => match Timestamp::parse(s.as_str()) {
                Some(t) => Ok(t),
                None => Err(SchemaError::unplaced(Expected::Timestamp)),
            },
            _ => Err(SchemaError::unplaced(Expected::Timestamp)),
        }
    }
}

impl Fallback for Timestamp {
    open spec fn is_fallback(value: Timestamp) -> bool {
        value == epoch()
    }

    fn fallback() -> (r: Timestamp) {
        unix_epoch()
    }
}

impl Decode for Json {
    open spec fn mismatch(tree: JsonTree) -> Option<Mismatch> {
        None
    }

    open spec fn decodes(tree: JsonTree, value: Json) -> bool {
        value@ == tree
    }

    fn decode(json: &Json) -> (r: Result<Json, SchemaError>) {
        Ok(json.clone())
    }
}

impl Fallback for Json {
    open spec fn is_fallback(value: Json) -> bool {
        value@ == JsonTree::Null
    }

    fn fallback() -> (r: Json) {
        Json::Null
    }
}

/// The mismatch of the first item that `T` does not accept.
pub open spec fn first_item_mismatch<T: Decode>(items: Seq<JsonTree>) -> Option<Mismatch>
    decreases items.len(),
{
    if items.len() == 0 {
        None
    } else if T::mismatch(items[0]) is Some {
        T::mismatch(items[0])
    } else {
        first_item_mismatch::<T>(items.drop_first())
    }
}

impl<T: Decode> Decode for Vec<T> {
    open spec fn mismatch(tree: JsonTree) -> Option<Mismatch> {
        match tree {
            JsonTree::Array(items) => first_item_mismatch::<T>(items),
            _ => Some(unplaced(Expected::Array)),
        }
    }

    open spec fn decodes(tree: JsonTree, value: Vec<T>) -> bool {
        &&& tree is Array
        &&& value@.len() == tree->Array_0.len()
        &&& forall|i: int| 0 <= i < value@.len() ==> T::decodes(tree->Array_0[i], #[trigger] value@[i])
    }

    fn decode(json: &Json) -> (r: Result<Vec<T>, SchemaError>) {
        match json {
            Json::Array(items) => {
                let ghost all = json@->Array_0;
                proof {
                    lemma_trees_of(items@);
                    assert(all.skip(0) =~= all);
                }
                let mut out: Vec<T> = Vec::new();
                let mut i: usize = 0;
                while i < items.len()
                    invariant
                        i <= items.len(),
                        json@ == JsonTree::Array(all),
                        all.len() == items.len(),
                        forall|k: int| 0 <= k < items.len() ==> all[k] == items[k]@,
                        out@.len() == i,
                        forall|k: int| 0 <= k < i ==> T::decodes(all[k], #[trigger] out@[k]),
                        first_item_mismatch::<T>(all) == first_item_mismatch::<T>(all.skip(i as int)),
                    decreases items.len() - i,
                {
                    let ghost rest = all.skip(i as int);
                    assert(rest[0] == all[i as int]);
                    assert(rest.drop_first() =~= all.skip(i + 1));
                    match T::decode(&items[i]) {
                        Ok(v) => {
                            out.push(v);
                        },
                        Err(e) => {
                            return Err(e);
                        },
                    }
                    i += 1;
                }
                Ok(out)
            },
            _ => Err(SchemaError::unplaced(Expected::Array)),
        }
    }
}

impl<T> Fallback for Vec<T> {
    open spec fn is_fallback(value: Vec<T>) -> bool {
        value@.len() == 0
    }

    fn fallback() -> (r: Vec<T>) {
        Vec::new()
    }
}

/// What a slot holds: the value at a member, or nothing for a missing member.
pub open spec fn slot_tree(slot: Option<&Json>) -> Option<JsonTree> {
    match slot {
        Some(j) => Some(j@),
        None => None,
    }
}

/// Whether a slot reports nothing: it is absent or holds `null`.
pub open spec fn is_blank(slot: Option<JsonTree>) -> bool {
    slot is None || slot == Some(JsonTree::Null)
}

/// Why a null-tolerant read of a slot fails: the value is there, is not
/// `null`, and is not acceptable.
pub open spec fn tolerant_mismatch<T: Decode>(slot: Option<JsonTree>) -> Option<Mismatch> {
    if is_blank(slot) {
        None
    } else {
        T::mismatch(slot->0)
    }
}

/// Whether `value` is what a null-tolerant read of a slot gives: the
/// fallback for a blank slot, the decoded value otherwise.
pub open spec fn tolerant_decodes<T: Decode + Fallback>(slot: Option<JsonTree>, value: T) -> bool {
    if is_blank(slot) {
        T::is_fallback(value)
    } else {
        T::decodes(slot->0, value)
    }
}

/// Whether `value` is what an optional read of a slot gives: `None` for a
/// blank slot, the decoded value otherwise.
pub open spec fn optional_decodes<T: Decode>(slot: Option<JsonTree>, value: Option<T>) -> bool {
    if is_blank(slot) {
        value is None
    } else {
        value is Some && T::decodes(slot->0, value->0)
    }
}

/// Reads a slot that may be left out: `null` and absence give `None`. It
/// fails where a null-tolerant read fails.
pub fn de_optional<T: Decode>(slot: Option<&Json>) -> (r: Result<Option<T>, SchemaError>)
    ensures
        r is Ok <==> tolerant_mismatch::<T>(slot_tree(slot)) is None,
        r is Ok ==> optional_decodes::<T>(slot_tree(slot), r->Ok_0),
        r is Err ==> tolerant_mismatch::<T>(slot_tree(slot)) == Some(r->Err_0@),
{
    match slot {
        None => Ok(None),
        Some(json) => match json {
            Json::Null => Ok(None),
            _ => match T::decode(json) {
                Ok(v) => Ok(Some(v)),
                Err(e) => Err(e),
            },
        },
    }
}

/// Why a required read of a slot fails: the member is missing, or its value
/// is not acceptable.
pub open spec fn required_mismatch<T: Decode>(slot: Option<JsonTree>) -> Option<Mismatch> {
    match slot {
        None => Some(unplaced(Expected::Present)),
        Some(tree) => T::mismatch(tree),
    }
}

/// Whether `value` is what a required read of a slot gives.
pub open spec fn required_decodes<T: Decode>(slot: Option<JsonTree>, value: T) -> bool {
    slot is Some && T::decodes(slot->0, value)
}

/// Reads a slot that has to hold an acceptable value.
pub fn de_required<T: Decode>(slot: Option<&Json>) -> (r: Result<T, SchemaError>)
    ensures
        r is Ok <==> required_mismatch::<T>(slot_tree(slot)) is None,
        r is Ok ==> required_decodes::<T>(slot_tree(slot), r->Ok_0),
        r is Err ==> required_mismatch::<T>(slot_tree(slot)) == Some(r->Err_0@),
{
    match slot {
        None => Err(SchemaError::unplaced(Expected::Present)),
        Some(json) => T::decode(json),
    }
}

/// Why a read that takes absence alone for "nothing reported" fails.
pub open spec fn defaulted_mismatch<T: Decode>(slot: Option<JsonTree>) -> Option<Mismatch> {
    match slot {
        None => None,
        Some(tree) => T::mismatch(tree),
    }
}

/// Whether `value` is what such a read gives: the fallback for a missing
/// member, the decoded value otherwise. `null` is a value like any other.
pub open spec fn defaulted_decodes<T: Decode + Fallback>(slot: Option<JsonTree>, value: T) -> bool {
    match slot {
        None => T::is_fallback(value),
        Some(tree) => T::decodes(tree, value),
    }
}

/// Reads a slot, taking absence alone for "nothing reported".
pub fn de_defaulted<T: Decode + Fallback>(slot: Option<&Json>) -> (r: Result<T, SchemaError>)
    ensures
        r is Ok <==> defaulted_mismatch::<T>(slot_tree(slot)) is None,
        r is Ok ==> defaulted_decodes::<T>(slot_tree(slot), r->Ok_0),
        r is Err ==> defaulted_mismatch::<T>(slot_tree(slot)) == Some(r->Err_0@),
{
    match slot {
        None => Ok(T::fallback()),
        Some(json) => T::decode(json),
    }
}

/// A mismatch found at the member `key`, if any.
pub open spec fn at_member(found: Option<Mismatch>, key: Seq<char>) -> Option<Mismatch> {
    match found {
        Some(m) => Some(placed(m, key)),
        None => None,
    }
}

/// Why a null-tolerant read of the member `key` fails.
pub open spec fn tolerant_at<T: Decode>(tree: JsonTree, key: Seq<char>) -> Option<Mismatch> {
    at_member(tolerant_mismatch::<T>(tree.member(key)), key)
}

/// Why a required read of the member `key` fails.
pub open spec fn required_at<T: Decode>(tree: JsonTree, key: Seq<char>) -> Option<Mismatch> {
    at_member(required_mismatch::<T>(tree.member(key)), key)
}

/// Why a read of the member `key` with a default for absence fails.
pub open spec fn defaulted_at<T: Decode>(tree: JsonTree, key: Seq<char>) -> Option<Mismatch> {
    at_member(defaulted_mismatch::<T>(tree.member(key)), key)
}

/// Chains findings in reading order.
pub trait Otherwise {
    /// This finding if there is one, else `next`.
    spec fn otherwise(self, next: Self) -> Self;
}

impl Otherwise for Option<Mismatch> {
    open spec fn otherwise(self, next: Option<Mismatch>) -> Option<Mismatch> {
        if self is Some {
            self
        } else {
            next
        }
    }
}

/// Why `tree` is no object.
pub open spec fn object_mismatch(tree: JsonTree) -> Option<Mismatch> {
    if tree is Object {
        None
    } else {
        Some(unplaced(Expected::Object))
    }
}

/// Refuses anything but an object.
pub fn expect_object(json: &Json) -> (r: Result<(), SchemaError>)
    ensures
        r is Ok <==> object_mismatch(json@) is None,
        r is Err ==> object_mismatch(json@) == Some(r->Err_0@),
{
    match json {
        Json::Object(_) => Ok(()),
        _ => Err(SchemaError::unplaced(Expected::Object)),
    }
}

/// Reads the member `key` of `json`, taking `null` and absence for
/// "nothing reported".
pub fn member_or_default<T: Decode + Fallback>(json: &Json, key: &str) -> (r: Result<T, SchemaError>)
    ensures
        r is Ok <==> tolerant_at::<T>(json@, key@) is None,
        r is Ok ==> tolerant_decodes::<T>(json@.member(key@), r->Ok_0),
        r is Err ==> tolerant_at::<T>(json@, key@) == Some(r->Err_0@),
{
    match de_null_default::<T>(json.get(key)) {
        Ok(v) => Ok(v),
        Err(e) => Err(e.at(key)),
    }
}

/// Reads the member `key` of `json`, taking absence alone for "nothing
/// reported".
pub fn member_defaulted<T: Decode + Fallback>(json: &Json, key: &str) -> (r: Result<T, SchemaError>)
    ensures
        r is Ok <==> defaulted_at::<T>(json@, key@) is None,
        r is Ok ==> defaulted_decodes::<T>(json@.member(key@), r->Ok_0),
        r is Err ==> defaulted_at::<T>(json@, key@) == Some(r->Err_0@),
{
    match de_defaulted::<T>(json.get(key)) {
        Ok(v) => Ok(v),
        Err(e) => Err(e.at(key)),
    }
}

/// Reads the member `key` of `json`, which may be left out.
pub fn member_optional<T: Decode>(json: &Json, key: &str) -> (r: Result<Option<T>, SchemaError>)
    ensures
        r is Ok <==> tolerant_at::<T>(json@, key@) is None,
        r is Ok ==> optional_decodes::<T>(json@.member(key@), r->Ok_0),
        r is Err ==> tolerant_at::<T>(json@, key@) == Some(r->Err_0@),
{
    match de_optional::<T>(json.get(key)) {
        Ok(v) => Ok(v),
        Err(e) => Err(e.at(key)),
    }
}

/// Reads the member `key` of `json`, which has to be there.
pub fn member_required<T: Decode>(json: &Json, key: &str) -> (r: Result<T, SchemaError>)
    ensures
        r is Ok <==> required_at::<T>(json@, key@) is None,
        r is Ok ==> required_decodes::<T>(json@.member(key@), r->Ok_0),
        r is Err ==> required_at::<T>(json@, key@) == Some(r->Err_0@),
{
    match de_required::<T>(json.get(key)) {
        Ok(v) => Ok(v),
        Err(e) => Err(e.at(key)),
    }
}

/// Whether `r` is what reading `bytes` as a `T` gives: a parse failure for
/// bytes that are no JSON document, the first mismatch for a document that
/// `T` does not accept, and the decoded value otherwise.
pub open spec fn document_outcome<T: Decode>(bytes: Seq<u8>, r: Result<T, PatreonError>) -> bool {
    match json_document(bytes) {
        None => r is Err && r->Err_0 is SerdeJson,
        Some(tree) => match T::mismatch(tree) {
            Some(m) => r is Err && r->Err_0 is Schema && r->Err_0->Schema_0@ == m,
            None => r is Ok && T::decodes(tree, r->Ok_0),
        },
    }
}

/// Parses `bytes` as JSON and decodes the document as a `T`.
pub fn decode_document<T: Decode>(bytes: &[u8]) -> (r: Result<T, PatreonError>)
    ensures
        document_outcome::<T>(bytes@, r),
{
    match Json::parse(bytes) {
        Err(e) => Err(PatreonError::SerdeJson(e)),
        Ok(json) => match T::decode(&json) {
            Ok(value) => Ok(value),
            Err(e) => Err(PatreonError::Schema(e)),
        },
    }
}

} // verus!
