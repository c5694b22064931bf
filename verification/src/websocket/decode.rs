//! Decoding of JSON values into records.
//!
//! A record is read member by member. A member that the record does not know
//! is passed over; an optional member that is missing or `null` is absent; a
//! missing member with a default takes the default. The first member that
//! cannot be read, in the order of the record's fields, fails the decoding.

use vstd::prelude::*;
use crate::json::{json_document, lemma_array_view, lemma_object_view, parse_json, Json, JsonValue};
use crate::text::str_eq;
use crate::views::{view_opt, view_seq};
use crate::vrchat_api::types::enums::{DeveloperType, UserStatus};

verus! {

/// Why a JSON value does not decode as a record.
#[derive(Debug, Clone, Copy, PartialEq, Eq)]
pub enum DecodeFault {
    /// The value is no JSON object.
    NotAnObject,
    /// The value is no JSON string.
    NotAString,
    /// The value is neither missing nor `null`, where nothing is expected.
    NotEmpty,
    /// A member that the record needs is missing.
    MissingField(&'static str),
    /// A member holds what the record cannot take: a value of another type,
    /// a number out of range, a name outside the vocabulary.
    InvalidField(&'static str),
    /// A member is there twice, under two spellings.
    DuplicateField(&'static str),
}

/// The mathematical value of a [`DecodeFault`].
pub enum DecodeFaultView {
    NotAnObject,
    NotAString,
    NotEmpty,
    MissingField(Seq<char>),
    InvalidField(Seq<char>),
    DuplicateField(Seq<char>),
}

impl View for DecodeFault {
    type V = DecodeFaultView;

    open spec fn view(&self) -> DecodeFaultView {
        match self {
            DecodeFault::NotAnObject => DecodeFaultView::NotAnObject,
            DecodeFault::NotAString => DecodeFaultView::NotAString,
            DecodeFault::NotEmpty => DecodeFaultView::NotEmpty,
            DecodeFault::MissingField(key) => DecodeFaultView::MissingField(key@),
            DecodeFault::InvalidField(key) => DecodeFaultView::InvalidField(key@),
            DecodeFault::DuplicateField(key) => DecodeFaultView::DuplicateField(key@),
        }
    }
}

/// What the decoding of a JSON value gives: the value of a record, or the
/// fault.
pub type Decoded<V> = Result<V, DecodeFaultView>;

/// Whether the outcome of a decoding is a given one in value: the same
/// record, or the same fault.
pub open spec fn agrees<T: View>(r: Result<T, DecodeFault>, s: Decoded<T::V>) -> bool {
    match r {
        Ok(v) => s == Ok::<T::V, DecodeFaultView>(v@),
        Err(f) => s == Err::<T::V, DecodeFaultView>(f@),
    }
}

/// A record that can be read from a JSON value.
pub trait Payload: View + Sized {
    /// The record that a JSON value stands for, or why it stands for none.
    spec fn spec_decode(content: JsonValue) -> Decoded<Self::V>;

    /// Reads the record from a JSON value.
    fn decode(content: &Json) -> (r: Result<Self, DecodeFault>)
        ensures
            agrees(r, Self::spec_decode(content@)),
    ;
}

impl Payload for String {
    open spec fn spec_decode(content: JsonValue) -> Decoded<Seq<char>> {
        match content {
            JsonValue::Str(s) => Ok(s),
            _ => Err(DecodeFaultView::NotAString),
        }
    }

    fn decode(content: &Json) -> (r: Result<Self, DecodeFault>) {
        match content {
            Json::Str(s) => Ok(s.clone()),
            _ => Err(DecodeFault::NotAString),
        }
    }
}

/// The JSON document inside a JSON string, where the string holds one.
pub open spec fn spec_inner_document(content: JsonValue) -> Option<JsonValue> {
    match content {
        JsonValue::Str(s) => match json_document(s) {
            Ok(inner) => Some(inner),
            Err(_) => None,
        },
        _ => None,
    }
}

/// The record that a content stands for, directly or as a JSON string that
/// holds the record's document.
///
/// The content is decoded as it is. Where that fails and the content is a
/// string that holds a JSON document, the document is decoded in its place,
/// and its outcome counts; else the first fault does.
pub open spec fn spec_decode_value<T: Payload>(content: JsonValue) -> Decoded<T::V> {
    match T::spec_decode(content) {
        Ok(v) => Ok(v),
        Err(first) => match spec_inner_document(content) {
            Some(inner) => T::spec_decode(inner),
            None => Err(first),
        },
    }
}

/// The JSON document inside a JSON string, where the string holds one.
pub fn inner_document(content: &Json) -> (r: Option<Json>)
    ensures
        view_opt(r) == spec_inner_document(content@),
{
    match content {
        Json::Str(s) => match parse_json(s.as_str()) {
            Ok(inner) => Some(inner),
            Err(_) => None,
        },
        _ => None,
    }
}

/// Reads a record from a content that holds it directly or as a JSON string
/// with the record's document inside.
pub fn decode_value<T: Payload>(content: &Json) -> (r: Result<T, DecodeFault>)
    ensures
        agrees(r, spec_decode_value::<T>(content@)),
{
    match T::decode(content) {
        Ok(v) => Ok(v),
        Err(first) => match inner_document(content) {
            Some(inner) => T::decode(&inner),
            None => Err(first),
        },
    }
}

/// Whether a JSON value is an object.
pub fn is_object(content: &Json) -> (r: bool)
    ensures
        r == (content@ is Object),
{
    match content {
        Json::Object(_) => true,
        _ => false,
    }
}

/// A member that must be a string.
pub open spec fn spec_text(content: JsonValue, key: Seq<char>) -> Decoded<Seq<char>> {
    match content.member(key) {
        None => Err(DecodeFaultView::MissingField(key)),
        Some(JsonValue::Str(s)) => Ok(s),
        Some(_) => Err(DecodeFaultView::InvalidField(key)),
    }
}

/// A member that is a string, or missing and then empty.
pub open spec fn spec_text_or_empty(content: JsonValue, key: Seq<char>) -> Decoded<Seq<char>> {
    match content.member(key) {
        None => Ok(Seq::empty()),
        Some(JsonValue::Str(s)) => Ok(s),
        Some(_) => Err(DecodeFaultView::InvalidField(key)),
    }
}

/// A member that is a string, or missing or `null` and then absent.
pub open spec fn spec_opt_text(content: JsonValue, key: Seq<char>) -> Decoded<Option<Seq<char>>> {
    match content.member(key) {
        None => Ok(None),
        Some(JsonValue::Null) => Ok(None),
        Some(JsonValue::Str(s)) => Ok(Some(s)),
        Some(_) => Err(DecodeFaultView::InvalidField(key)),
    }
}

/// A member that must be a string, under either of two spellings.
pub open spec fn spec_text_alias(
    content: JsonValue,
    key: Seq<char>,
    alias: Seq<char>,
) -> Decoded<Seq<char>> {
    match (content.member(key), content.member(alias)) {
        (Some(_), Some(_)) => Err(DecodeFaultView::DuplicateField(key)),
        (Some(JsonValue::Str(s)), None) => Ok(s),
        (None, Some(JsonValue::Str(s))) => Ok(s),
        (None, None) => Err(DecodeFaultView::MissingField(key)),
        (_, _) => Err(DecodeFaultView::InvalidField(key)),
    }
}

/// A member that must be a boolean.
pub open spec fn spec_flag(content: JsonValue, key: Seq<char>) -> Decoded<bool> {
    match content.member(key) {
        None => Err(DecodeFaultView::MissingField(key)),
        Some(JsonValue::Bool(b)) => Ok(b),
        Some(_) => Err(DecodeFaultView::InvalidField(key)),
    }
}

/// A member that is a boolean, or missing and then false.
pub open spec fn spec_flag_or_false(content: JsonValue, key: Seq<char>) -> Decoded<bool> {
    match content.member(key) {
        None => Ok(false),
        Some(JsonValue::Bool(b)) => Ok(b),
        Some(_) => Err(DecodeFaultView::InvalidField(key)),
    }
}

/// A member that is a boolean, or missing or `null` and then absent.
pub open spec fn spec_opt_flag(content: JsonValue, key: Seq<char>) -> Decoded<Option<bool>> {
    match content.member(key) {
        None => Ok(None),
        Some(JsonValue::Null) => Ok(None),
        Some(JsonValue::Bool(b)) => Ok(Some(b)),
        Some(_) => Err(DecodeFaultView::InvalidField(key)),
    }
}

/// A member that must be an integer that fits 64 bits.
pub open spec fn spec_integer(content: JsonValue, key: Seq<char>) -> Decoded<i64> {
    match content.member(key) {
        None => Err(DecodeFaultView::MissingField(key)),
        Some(JsonValue::Number(n)) => match n.int {
            Some(i) => Ok(i),
            None => Err(DecodeFaultView::InvalidField(key)),
        },
        Some(_) => Err(DecodeFaultView::InvalidField(key)),
    }
}

/// A member that is an integer that fits 64 bits, or missing or `null` and
/// then absent.
pub open spec fn spec_opt_integer(content: JsonValue, key: Seq<char>) -> Decoded<Option<i64>> {
    match content.member(key) {
        None => Ok(None),
        Some(JsonValue::Null) => Ok(None),
        Some(JsonValue::Number(n)) => match n.int {
            Some(i) => Ok(Some(i)),
            None => Err(DecodeFaultView::InvalidField(key)),
        },
        Some(_) => Err(DecodeFaultView::InvalidField(key)),
    }
}

/// A member that must be an integer that fits 32 bits.
pub open spec fn spec_integer32(content: JsonValue, key: Seq<char>) -> Decoded<i32> {
    match spec_integer(content, key) {
        Ok(i) => if i32::MIN <= i <= i32::MAX {
            Ok(i as i32)
        } else {
            Err(DecodeFaultView::InvalidField(key))
        },
        Err(f) => Err(f),
    }
}

/// The texts of JSON strings, in order; `None` where one of the values is no
/// string.
pub open spec fn spec_all_text(items: Seq<JsonValue>) -> Option<Seq<Seq<char>>>
    decreases items.len(),
{
    if items.len() == 0 {
        Some(Seq::empty())
    } else {
        match (spec_all_text(items.drop_last()), items.last()) {
            (Some(front), JsonValue::Str(s)) => Some(front.push(s)),
            (_, _) => None,
        }
    }
}

/// A member that is an array of strings, or missing and then empty.
pub open spec fn spec_texts(content: JsonValue, key: Seq<char>) -> Decoded<Seq<Seq<char>>> {
    match content.member(key) {
        None => Ok(Seq::empty()),
        Some(JsonValue::Array(items)) => match spec_all_text(items) {
            Some(texts) => Ok(texts),
            None => Err(DecodeFaultView::InvalidField(key)),
        },
        Some(_) => Err(DecodeFaultView::InvalidField(key)),
    }
}

/// A member that names a status, or missing and then offline.
pub open spec fn spec_status(content: JsonValue, key: Seq<char>) -> Decoded<UserStatus> {
    match content.member(key) {
        None => Ok(UserStatus::Offline),
        Some(JsonValue::Str(s)) => match UserStatus::named(s) {
            Some(status) => Ok(status),
            None => Err(DecodeFaultView::InvalidField(key)),
        },
        Some(_) => Err(DecodeFaultView::InvalidField(key)),
    }
}

/// A member that names a developer type, or missing and then that of a normal
/// user.
pub open spec fn spec_developer_type(content: JsonValue, key: Seq<char>) -> Decoded<DeveloperType> {
    match content.member(key) {
        None => Ok(DeveloperType::Normal),
        Some(JsonValue::Str(s)) => match DeveloperType::named(s) {
            Some(t) => Ok(t),
            None => Err(DecodeFaultView::InvalidField(key)),
        },
        Some(_) => Err(DecodeFaultView::InvalidField(key)),
    }
}

/// A member that must be a record.
pub open spec fn spec_record<T: Payload>(content: JsonValue, key: Seq<char>) -> Decoded<T::V> {
    match content.member(key) {
        None => Err(DecodeFaultView::MissingField(key)),
        Some(v) => T::spec_decode(v),
    }
}

/// A member that is a record, or missing or `null` and then absent.
pub open spec fn spec_opt_record<T: Payload>(
    content: JsonValue,
    key: Seq<char>,
) -> Decoded<Option<T::V>> {
    match content.member(key) {
        None => Ok(None),
        Some(JsonValue::Null) => Ok(None),
        Some(v) => match T::spec_decode(v) {
            Ok(record) => Ok(Some(record)),
            Err(f) => Err(f),
        },
    }
}

/// The records that JSON values stand for, in order, or the fault of the
/// first value that stands for none.
pub open spec fn spec_all_records<T: Payload>(items: Seq<JsonValue>) -> Decoded<Seq<T::V>>
    decreases items.len(),
{
    if items.len() == 0 {
        Ok(Seq::empty())
    } else {
        match spec_all_records::<T>(items.drop_last()) {
            Err(f) => Err(f),
            Ok(front) => match T::spec_decode(items.last()) {
                Ok(record) => Ok(front.push(record)),
                Err(f) => Err(f),
            },
        }
    }
}

/// A member that is an array of records, or missing and then empty.
pub open spec fn spec_records<T: Payload>(
    content: JsonValue,
    key: Seq<char>,
) -> Decoded<Seq<T::V>> {
    match content.member(key) {
        None => Ok(Seq::empty()),
        Some(JsonValue::Array(items)) => spec_all_records::<T>(items),
        Some(_) => Err(DecodeFaultView::InvalidField(key)),
    }
}

/// A member that must be there, whatever it holds.
pub open spec fn spec_document(content: JsonValue, key: Seq<char>) -> Decoded<JsonValue> {
    match content.member(key) {
        None => Err(DecodeFaultView::MissingField(key)),
        Some(v) => Ok(v),
    }
}

/// A member, whatever it holds; missing or `null`, it is absent.
pub open spec fn spec_opt_document(
    content: JsonValue,
    key: Seq<char>,
) -> Decoded<Option<JsonValue>> {
    match content.member(key) {
        None => Ok(None),
        Some(JsonValue::Null) => Ok(None),
        Some(v) => Ok(Some(v)),
    }
}

/// A member that is an object, taken as its members; missing, it has none.
pub open spec fn spec_members(
    content: JsonValue,
    key: Seq<char>,
) -> Decoded<Seq<(Seq<char>, JsonValue)>> {
    match content.member(key) {
        None => Ok(Seq::empty()),
        Some(JsonValue::Object(members)) => Ok(members),
        Some(_) => Err(DecodeFaultView::InvalidField(key)),
    }
}

/// The members of an object whose keys are not among `known`, in their order;
/// none for a value that is no object.
pub open spec fn spec_rest(
    content: JsonValue,
    known: Seq<Seq<char>>,
) -> Seq<(Seq<char>, JsonValue)> {
    match content {
        JsonValue::Object(members) => members.filter(
            |m: (Seq<char>, JsonValue)| !known.contains(m.0),
        ),
        _ => Seq::empty(),
    }
}

/// The view of the members of an object: each key with its value's view.
pub open spec fn view_members(members: Seq<(String, Json)>) -> Seq<(Seq<char>, JsonValue)> {
    Seq::new(members.len(), |i: int| (members[i].0@, members[i].1@))
}

/// Reads a member that must be a string.
pub fn text(content: &Json, key: &'static str) -> (r: Result<String, DecodeFault>)
    ensures
        agrees(r, spec_text(content@, key@)),
{
    match content.get(key) {
        None => Err(DecodeFault::MissingField(key)),
        Some(Json::Str(s)) => Ok(s.clone()),
        Some(_) => Err(DecodeFault::InvalidField(key)),
    }
}

/// Reads a member that is a string, or missing and then empty.
pub fn text_or_empty(content: &Json, key: &'static str) -> (r: Result<String, DecodeFault>)
    ensures
        agrees(r, spec_text_or_empty(content@, key@)),
{
    match content.get(key) {
        None => Ok(String::new()),
        Some(Json::Str(s)) => Ok(s.clone()),
        Some(_) => Err(DecodeFault::InvalidField(key)),
    }
}

/// Reads a member that is a string, or missing or `null` and then absent.
pub fn opt_text(content: &Json, key: &'static str) -> (r: Result<Option<String>, DecodeFault>)
    ensures
        match r {
            Ok(v) => spec_opt_text(content@, key@) == Ok::<Option<Seq<char>>, DecodeFaultView>(
                view_opt(v),
            ),
            Err(f) => spec_opt_text(content@, key@) == Err::<Option<Seq<char>>, DecodeFaultView>(
                f@,
            ),
        },
{
    match content.get(key) {
        None => Ok(None),
        Some(Json::Null) => Ok(None),
        Some(Json::Str(s)) => Ok(Some(s.clone())),
        Some(_) => Err(DecodeFault::InvalidField(key)),
    }
}

/// Reads a member that must be a string, under either of two spellings.
pub fn text_alias(content: &Json, key: &'static str, alias: &'static str) -> (r: Result<
    String,
    DecodeFault,
>)
    ensures
        agrees(r, spec_text_alias(content@, key@, alias@)),
{
    match (content.get(key), content.get(alias)) {
        (Some(_), Some(_)) => Err(DecodeFault::DuplicateField(key)),
        (Some(Json::Str(s)), None) => Ok(s.clone()),
        (None, Some(Json::Str(s))) => Ok(s.clone()),
        (None, None) => Err(DecodeFault::MissingField(key)),
        (_, _) => Err(DecodeFault::InvalidField(key)),
    }
}

/// Reads a member that must be a boolean.
pub fn flag(content: &Json, key: &'static str) -> (r: Result<bool, DecodeFault>)
    ensures
        agrees(r, spec_flag(content@, key@)),
{
    match content.get(key) {
        None => Err(DecodeFault::MissingField(key)),
        Some(Json::Bool(b)) => Ok(*b),
        Some(_) => Err(DecodeFault::InvalidField(key)),
    }
}

/// Reads a member that is a boolean, or missing and then false.
pub fn flag_or_false(content: &Json, key: &'static str) -> (r: Result<bool, DecodeFault>)
    ensures
        agrees(r, spec_flag_or_false(content@, key@)),
{
    match content.get(key) {
        None => Ok(false),
        Some(Json::Bool(b)) => Ok(*b),
        Some(_) => Err(DecodeFault::InvalidField(key)),
    }
}

/// Reads a member that is a boolean, or missing or `null` and then absent.
pub fn opt_flag(content: &Json, key: &'static str) -> (r: Result<Option<bool>, DecodeFault>)
    ensures
        agrees(r, spec_opt_flag(content@, key@)),
{
    match content.get(key) {
        None => Ok(None),
        Some(Json::Null) => Ok(None),
        Some(Json::Bool(b)) => Ok(Some(*b)),
        Some(_) => Err(DecodeFault::InvalidField(key)),
    }
}

/// Reads a member that must be an integer that fits 64 bits.
pub fn integer(content: &Json, key: &'static str) -> (r: Result<i64, DecodeFault>)
    ensures
        agrees(r, spec_integer(content@, key@)),
{
    match content.get(key) {
        None => Err(DecodeFault::MissingField(key)),
        Some(Json::Number(n)) => match n.int {
            Some(i) => Ok(i),
            None => Err(DecodeFault::InvalidField(key)),
        },
        Some(_) => Err(DecodeFault::InvalidField(key)),
    }
}

/// Reads a member that is an integer that fits 64 bits, or missing or `null`
/// and then absent.
pub fn opt_integer(content: &Json, key: &'static str) -> (r: Result<Option<i64>, DecodeFault>)
    ensures
        agrees(r, spec_opt_integer(content@, key@)),
{
    match content.get(key) {
        None => Ok(None),
        Some(Json::Null) => Ok(None),
        Some(Json::Number(n)) => match n.int {
            Some(i) => Ok(Some(i)),
            None => Err(DecodeFault::InvalidField(key)),
        },
        Some(_) => Err(DecodeFault::InvalidField(key)),
    }
}

/// Reads a member that must be an integer that fits 32 bits.
pub fn integer32(content: &Json, key: &'static str) -> (r: Result<i32, DecodeFault>)
    ensures
        agrees(r, spec_integer32(content@, key@)),
{
    let wide = integer(content, key)?;
    if -2147483648 <= wide && wide <= 2147483647 {
        Ok(wide as i32)
    } else {
        Err(DecodeFault::InvalidField(key))
    }
}

/// Reads a member that is an array of strings, or missing and then empty.
pub fn texts(content: &Json, key: &'static str) -> (r: Result<Vec<String>, DecodeFault>)
    ensures
        match r {
            Ok(v) => spec_texts(content@, key@) == Ok::<Seq<Seq<char>>, DecodeFaultView>(
                view_seq(v@),
            ),
            Err(f) => spec_texts(content@, key@) == Err::<Seq<Seq<char>>, DecodeFaultView>(f@),
        },
{
    match content.get(key) {
        None => {
            let out: Vec<String> = Vec::new();
            assert(view_seq(out@) =~= Seq::<Seq<char>>::empty());
            Ok(out)
        },
        Some(Json::Array(items)) => {
            let ghost values = Json::Array(*items)@->Array_0;
            proof {
                lemma_array_view(*items);
                assert(values.take(0) =~= Seq::empty());
            }
            let mut out: Vec<String> = Vec::new();
            let mut i: usize = 0;
            assert(view_seq(out@) =~= Seq::<Seq<char>>::empty());
            while i < items.len()
                invariant
                    i <= items@.len(),
                    values.len() == items@.len(),
                    forall|k: int| 0 <= k < items@.len() ==> values[k] == items@[k]@,
                    spec_all_text(values.take(i as int)) == Some(view_seq(out@)),
                    content@.member(key@) == Some(JsonValue::Array(values)),
                decreases items@.len() - i,
            {
                proof {
                    assert(values.take(i + 1).drop_last() =~= values.take(i as int));
                    assert(values.take(i + 1).last() == items@[i as int]@);
                }
                match &items[i] {
                    Json::Str(s) => {
                        let ghost before = out@;
                        out.push(s.clone());
                        proof {
                            assert(view_seq(out@) =~= view_seq(before).push(s@));
                        }
                    },
                    _ => {
                        proof {
                            lemma_all_text_fails(values, i as int);
                        }
                        return Err(DecodeFault::InvalidField(key));
                    },
                }
                i += 1;
            }
            proof {
                assert(values.take(items@.len() as int) =~= values);
            }
            Ok(out)
        },
        Some(_) => Err(DecodeFault::InvalidField(key)),
    }
}

/// A value that is no string among values leaves no texts of them all.
pub proof fn lemma_all_text_fails(items: Seq<JsonValue>, at: int)
    requires
        0 <= at < items.len(),
        !(items[at] is Str),
    ensures
        spec_all_text(items) is None,
    decreases items.len(),
{
    if at < items.len() - 1 {
        lemma_all_text_fails(items.drop_last(), at);
    }
}

/// Reads a member that names a status, or is missing and then offline.
pub fn status(content: &Json, key: &'static str) -> (r: Result<UserStatus, DecodeFault>)
    ensures
        match r {
            Ok(v) => spec_status(content@, key@) == Ok::<UserStatus, DecodeFaultView>(v),
            Err(f) => spec_status(content@, key@) == Err::<UserStatus, DecodeFaultView>(f@),
        },
{
    match content.get(key) {
        None => Ok(UserStatus::Offline),
        Some(Json::Str(s)) => match UserStatus::from_name(s.as_str()) {
            Some(status) => Ok(status),
            None => Err(DecodeFault::InvalidField(key)),
        },
        Some(_) => Err(DecodeFault::InvalidField(key)),
    }
}

/// Reads a member that names a developer type, or is missing and then that
/// of a normal user.
pub fn developer_type(content: &Json, key: &'static str) -> (r: Result<DeveloperType, DecodeFault>)
    ensures
        match r {
            Ok(v) => spec_developer_type(content@, key@) == Ok::<DeveloperType, DecodeFaultView>(
                v,
            ),
            Err(f) => spec_developer_type(content@, key@) == Err::<
                DeveloperType,
                DecodeFaultView,
            >(f@),
        },
{
    match content.get(key) {
        None => Ok(DeveloperType::Normal),
        Some(Json::Str(s)) => match DeveloperType::from_name(s.as_str()) {
            Some(t) => Ok(t),
            None => Err(DecodeFault::InvalidField(key)),
        },
        Some(_) => Err(DecodeFault::InvalidField(key)),
    }
}

/// Reads a member that must be a record.
pub fn record<T: Payload>(content: &Json, key: &'static str) -> (r: Result<T, DecodeFault>)
    ensures
        agrees(r, spec_record::<T>(content@, key@)),
{
    match content.get(key) {
        None => Err(DecodeFault::MissingField(key)),
        Some(v) => T::decode(v),
    }
}

/// Reads a member that is a record, or missing or `null` and then absent.
pub fn opt_record<T: Payload>(content: &Json, key: &'static str) -> (r: Result<
    Option<T>,
    DecodeFault,
>)
    ensures
        match r {
            Ok(v) => spec_opt_record::<T>(content@, key@) == Ok::<Option<T::V>, DecodeFaultView>(
                view_opt(v),
            ),
            Err(f) => spec_opt_record::<T>(content@, key@) == Err::<
                Option<T::V>,
                DecodeFaultView,
            >(f@),
        },
{
    match content.get(key) {
        None => Ok(None),
        Some(Json::Null) => Ok(None),
        Some(v) => match T::decode(v) {
            Ok(record) => Ok(Some(record)),
            Err(f) => Err(f),
        },
    }
}

/// A value that stands for no record among values leaves no records of them
/// all, and the fault is that of the first such value.
pub proof fn lemma_all_records_fails<T: Payload>(items: Seq<JsonValue>, at: int)
    requires
        0 <= at < items.len(),
        spec_all_records::<T>(items.take(at)) is Ok,
        T::spec_decode(items[at]) is Err,
    ensures
        spec_all_records::<T>(items) == Err::<Seq<T::V>, DecodeFaultView>(
            T::spec_decode(items[at])->Err_0,
        ),
    decreases items.len(),
{
    if at < items.len() - 1 {
        assert(items.drop_last().take(at) =~= items.take(at));
        lemma_all_records_fails::<T>(items.drop_last(), at);
    } else {
        assert(items.drop_last() =~= items.take(at));
    }
}

/// Reads a member that is an array of records, or missing and then empty.
pub fn records<T: Payload>(content: &Json, key: &'static str) -> (r: Result<Vec<T>, DecodeFault>)
    ensures
        match r {
            Ok(v) => spec_records::<T>(content@, key@) == Ok::<Seq<T::V>, DecodeFaultView>(
                view_seq(v@),
            ),
            Err(f) => spec_records::<T>(content@, key@) == Err::<Seq<T::V>, DecodeFaultView>(f@),
        },
{
    match content.get(key) {
        None => {
            let out: Vec<T> = Vec::new();
            assert(view_seq(out@) =~= Seq::<T::V>::empty());
            Ok(out)
        },
        Some(Json::Array(items)) => {
            let ghost values = Json::Array(*items)@->Array_0;
            proof {
                lemma_array_view(*items);
                assert(values.take(0) =~= Seq::empty());
            }
            let mut out: Vec<T> = Vec::new();
            let mut i: usize = 0;
            assert(view_seq(out@) =~= Seq::<T::V>::empty());
            while i < items.len()
                invariant
                    i <= items@.len(),
                    values.len() == items@.len(),
                    forall|k: int| 0 <= k < items@.len() ==> values[k] == items@[k]@,
                    spec_all_records::<T>(values.take(i as int)) == Ok::<
                        Seq<T::V>,
                        DecodeFaultView,
                    >(view_seq(out@)),
                    content@.member(key@) == Some(JsonValue::Array(values)),
                decreases items@.len() - i,
            {
                proof {
                    assert(values.take(i + 1).drop_last() =~= values.take(i as int));
                    assert(values.take(i + 1).last() == items@[i as int]@);
                }
                match T::decode(&items[i]) {
                    Ok(record) => {
                        let ghost before = out@;
                        let ghost record_view = record@;
                        out.push(record);
                        proof {
                            assert(view_seq(out@) =~= view_seq(before).push(record_view));
                        }
                    },
                    Err(f) => {
                        proof {
                            lemma_all_records_fails::<T>(values, i as int);
                        }
                        return Err(f);
                    },
                }
                i += 1;
            }
            proof {
                assert(values.take(items@.len() as int) =~= values);
            }
            Ok(out)
        },
        Some(_) => Err(DecodeFault::InvalidField(key)),
    }
}

/// Reads a member that must be there, whatever it holds.
pub fn document(content: &Json, key: &'static str) -> (r: Result<Json, DecodeFault>)
    ensures
        agrees(r, spec_document(content@, key@)),
{
    match content.get(key) {
        None => Err(DecodeFault::MissingField(key)),
        Some(v) => Ok(v.clone()),
    }
}

/// Reads a member, whatever it holds; missing or `null`, it is absent.
pub fn opt_document(content: &Json, key: &'static str) -> (r: Result<Option<Json>, DecodeFault>)
    ensures
        match r {
            Ok(v) => spec_opt_document(content@, key@) == Ok::<Option<JsonValue>, DecodeFaultView>(
                view_opt(v),
            ),
            Err(f) => spec_opt_document(content@, key@) == Err::<
                Option<JsonValue>,
                DecodeFaultView,
            >(f@),
        },
{
    match content.get(key) {
        None => Ok(None),
        Some(Json::Null) => Ok(None),
        Some(v) => Ok(Some(v.clone())),
    }
}

/// A copy of the members of an object.
pub fn clone_members(members: &Vec<(String, Json)>) -> (r: Vec<(String, Json)>)
    ensures
        view_members(r@) == view_members(members@),
{
    let mut out: Vec<(String, Json)> = Vec::new();
    let mut i: usize = 0;
    while i < members.len()
        invariant
            i <= members@.len(),
            out@.len() == i,
            forall|k: int|
                0 <= k < i ==> out@[k].0@ == members@[k].0@ && out@[k].1@ == members@[k].1@,
        decreases members@.len() - i,
    {
        out.push((members[i].0.clone(), members[i].1.clone()));
        i += 1;
    }
    assert(view_members(out@) =~= view_members(members@));
    out
}

/// Reads a member that is an object, as its members; missing, it has none.
pub fn members(content: &Json, key: &'static str) -> (r: Result<Vec<(String, Json)>, DecodeFault>)
    ensures
        match r {
            Ok(v) => spec_members(content@, key@) == Ok::<
                Seq<(Seq<char>, JsonValue)>,
                DecodeFaultView,
            >(view_members(v@)),
            Err(f) => spec_members(content@, key@) == Err::<
                Seq<(Seq<char>, JsonValue)>,
                DecodeFaultView,
            >(f@),
        },
{
    match content.get(key) {
        None => {
            let out: Vec<(String, Json)> = Vec::new();
            assert(view_members(out@) =~= Seq::<(Seq<char>, JsonValue)>::empty());
            Ok(out)
        },
        Some(Json::Object(inner)) => {
            proof {
                lemma_object_view(*inner);
                assert(view_members(inner@) =~= Json::Object(*inner)@->Object_0);
            }
            Ok(clone_members(inner))
        },
        Some(_) => Err(DecodeFault::InvalidField(key)),
    }
}

/// Whether `key` is among `known`.
pub fn is_known(known: &Vec<&'static str>, key: &str) -> (r: bool)
    ensures
        r == view_seq(known@).contains(key@),
{
    let mut i: usize = 0;
    while i < known.len()
        invariant
            i <= known@.len(),
            forall|k: int| 0 <= k < i ==> view_seq(known@)[k] != key@,
        decreases known@.len() - i,
    {
        if str_eq(known[i], key) {
            assert(view_seq(known@)[i as int] == key@);
            return true;
        }
        i += 1;
    }
    false
}

/// The members of an object whose keys are not among `known`.
pub fn rest(content: &Json, known: &Vec<&'static str>) -> (r: Vec<(String, Json)>)
    ensures
        view_members(r@) == spec_rest(content@, view_seq(known@)),
{
    match content {
        Json::Object(all) => {
            let ghost values = Json::Object(*all)@->Object_0;
            let ghost names = view_seq(known@);
            let ghost pick = |m: (Seq<char>, JsonValue)| !names.contains(m.0);
            proof {
                reveal(Seq::filter);
                lemma_object_view(*all);
                assert(values.take(0) =~= Seq::empty());
            }
            let mut out: Vec<(String, Json)> = Vec::new();
            let mut i: usize = 0;
            assert(view_members(out@) =~= values.take(0).filter(pick));
            while i < all.len()
                invariant
                    i <= all@.len(),
                    values.len() == all@.len(),
                    names == view_seq(known@),
                    pick == |m: (Seq<char>, JsonValue)| !names.contains(m.0),
                    forall|k: int|
                        0 <= k < all@.len() ==> values[k] == (all@[k].0@, all@[k].1@),
                    view_members(out@) == values.take(i as int).filter(pick),
                decreases all@.len() - i,
            {
                proof {
                    reveal(Seq::filter);
                    assert(values.take(i + 1).drop_last() =~= values.take(i as int));
                    assert(values.take(i + 1).last() == (all@[i as int].0@, all@[i as int].1@));
                }
                if !is_known(known, all[i].0.as_str()) {
                    let ghost before = out@;
                    out.push((all[i].0.clone(), all[i].1.clone()));
                    proof {
                        assert(view_members(out@) =~= view_members(before).push(
                            (all@[i as int].0@, all@[i as int].1@),
                        ));
                    }
                }
                i += 1;
            }
            proof {
                assert(values.take(all@.len() as int) =~= values);
            }
            out
        },
        _ => {
            let out: Vec<(String, Json)> = Vec::new();
            assert(view_members(out@) =~= Seq::<(Seq<char>, JsonValue)>::empty());
            out
        },
    }
}

} // verus!
