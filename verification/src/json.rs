//! JSON documents through serde_json: the keys of an object, the fields of
//! a document or of the items of an array, each addressed by a JSON Pointer
//! with strings and booleans handed back as plain values, what kind of value
//! a pointer addresses, and setting a member of an object.
use vstd::prelude::*;
use crate::config::{opt_text, strs};
use crate::devices::opt_str;
use crate::text::{chars_of, string_of};

verus! {

/// One field of a JSON record as the library reads it: absent, or present
/// with its text when it is a string and its truth value when it is a boolean.
pub type JsonField = Option<(Option<String>, Option<bool>)>;

/// The contents of a field.
pub open spec fn field_view(f: JsonField) -> Option<(Option<Seq<char>>, Option<bool>)> {
    match f {
        Some((t, b)) => Some((opt_text(t), b)),
        None => None,
    }
}

/// The contents of a record's fields.
pub open spec fn record_view(r: Vec<JsonField>) -> Seq<Option<(Option<Seq<char>>, Option<bool>)>> {
    r@.map_values(|f: JsonField| field_view(f))
}

/// The contents of a list of records.
pub open spec fn records_view(rs: Seq<Vec<JsonField>>) -> Seq<Seq<Option<(Option<Seq<char>>, Option<bool>)>>> {
    rs.map_values(|r: Vec<JsonField>| record_view(r))
}

/// What `json_keys` hands back for the JSON text `json` and the JSON Pointer
/// `pointer`: nothing when the text is not JSON; no keys when the pointer
/// addresses no object; else the object's keys.
pub uninterp spec fn json_keys_of(json: Seq<u8>, pointer: Seq<char>) -> Option<Option<Seq<Seq<char>>>>;

/// What `json_records` hands back for the JSON text `json`, the JSON Pointer
/// `pointer` and the field pointers `fields`: nothing when the text is not
/// JSON; no records when the pointer addresses no array; else, for each item
/// of the array, what each field pointer addresses in it.
pub uninterp spec fn json_records_of(json: Seq<u8>, pointer: Seq<char>, fields: Seq<Seq<char>>) -> Option<
    Option<Seq<Seq<Option<(Option<Seq<char>>, Option<bool>)>>>>,
>;

/// What `json_fields` hands back for the JSON text `json` and the field
/// pointers `fields`: nothing when the text is not JSON; else what each field
/// pointer addresses in the document.
pub uninterp spec fn json_fields_of(json: Seq<u8>, fields: Seq<Seq<char>>) -> Option<
    Seq<Option<(Option<Seq<char>>, Option<bool>)>>,
>;

/// Calls serde_json: `from_slice` into a `Value`, then for each field pointer
/// `pointer`, `as_str` and `as_bool`. The result is named `json_fields_of` of
/// the arguments; how JSON is read is not stated.
#[verifier::external_body]
pub(crate) fn json_fields(json: &[u8], fields: &Vec<String>) -> (r: Option<Vec<JsonField>>)
    ensures
        match r {
            None => json_fields_of(json@, strs(fields@)) is None,
            Some(v) => json_fields_of(json@, strs(fields@)) == Some(record_view(v)),
        },
{
    let v: serde_json::Value = serde_json::from_slice(json).ok()?;
    Some(fields.iter().map(|f| v.pointer(f).map(|x| (x.as_str().map(|t| t.to_string()), x.as_bool()))).collect())
}

/// What `json_kind` hands back for the JSON text `doc` and the JSON Pointer
/// `pointer`: nothing when the text is not JSON; `Some(None)` when the
/// pointer addresses nothing; else whether what it addresses is an object.
pub uninterp spec fn json_kind_of(doc: Seq<char>, pointer: Seq<char>) -> Option<Option<bool>>;

/// What `json_object_insert` hands back: nothing when `doc` or `value` is not
/// JSON or `pointer` addresses no object in `doc`; else the document, written
/// out pretty-printed, with member `key` of that object set to `value`.
pub uninterp spec fn json_object_insert_of(doc: Seq<char>, pointer: Seq<char>, key: Seq<char>, value: Seq<char>) -> Option<
    Seq<char>,
>;

/// Calls serde_json: `from_str` into a `Value`, `pointer` and `is_object`.
/// The result is named `json_kind_of` of the arguments; how JSON is read is
/// not stated.
#[verifier::external_body]
pub(crate) fn json_kind(doc: &str, pointer: &str) -> (r: Option<Option<bool>>)
    ensures
        r == json_kind_of(doc@, pointer@),
{
    let v: serde_json::Value = serde_json::from_str(doc).ok()?;
    Some(v.pointer(pointer).map(|x| x.is_object()))
}

/// Calls serde_json: `from_str` of `doc` and of `value` into `Value`s,
/// `pointer_mut`, `as_object_mut`, the map's `insert`, then
/// `to_string_pretty`. The result is named `json_object_insert_of` of the
/// arguments; how JSON is read and written is not stated.
#[verifier::external_body]
pub(crate) fn json_object_insert(doc: &str, pointer: &str, key: &str, value: &str) -> (r: Option<String>)
    ensures
        match r {
            Some(t) => json_object_insert_of(doc@, pointer@, key@, value@) == Some(t@),
            None => json_object_insert_of(doc@, pointer@, key@, value@) is None,
        },
{
    let mut v: serde_json::Value = serde_json::from_str(doc).ok()?;
    let item: serde_json::Value = serde_json::from_str(value).ok()?;
    v.pointer_mut(pointer)?.as_object_mut()?.insert(key.to_string(), item);
    serde_json::to_string_pretty(&v).ok()
}

/// Calls serde_json: `from_slice` into a `Value`, `pointer`, `as_object` and
/// the map's `keys`. The result is named `json_keys_of` of the arguments; how
/// JSON is read and in which order the keys come is not stated.
#[verifier::external_body]
pub(crate) fn json_keys(json: &[u8], pointer: &str) -> (r: Option<Option<Vec<String>>>)
    ensures
        match r {
            None => json_keys_of(json@, pointer@) is None,
            Some(None) => json_keys_of(json@, pointer@) == Some(None::<Seq<Seq<char>>>),
            Some(Some(v)) => json_keys_of(json@, pointer@) == Some(Some(strs(v@))),
        },
{
    let v: serde_json::Value = serde_json::from_slice(json).ok()?;
    Some(v.pointer(pointer).and_then(|o| o.as_object()).map(|m| m.keys().cloned().collect()))
}

/// Calls serde_json: `from_slice` into a `Value`, `pointer` and `as_array`,
/// then for each item and each field pointer `pointer`, `as_str` and
/// `as_bool`. The result is named `json_records_of` of the arguments; how
/// JSON is read is not stated.
#[verifier::external_body]
pub(crate) fn json_records(json: &[u8], pointer: &str, fields: &Vec<String>) -> (r: Option<Option<Vec<Vec<JsonField>>>>)
    ensures
        match r {
            None => json_records_of(json@, pointer@, strs(fields@)) is None,
            Some(None) => json_records_of(json@, pointer@, strs(fields@)) == Some(
                None::<Seq<Seq<Option<(Option<Seq<char>>, Option<bool>)>>>>,
            ),
            Some(Some(v)) => json_records_of(json@, pointer@, strs(fields@)) == Some(Some(records_view(v@))),
        },
{
    let v: serde_json::Value = serde_json::from_slice(json).ok()?;
    Some(v.pointer(pointer).and_then(|a| a.as_array()).map(|items| {
        items.iter().map(|d| {
            fields.iter().map(|f| d.pointer(f).map(|x| (x.as_str().map(|t| t.to_string()), x.as_bool()))).collect()
        }).collect()
    }))
}

/// The text of field `i` of a record, if it is a string.
pub open spec fn field_text(rec: Seq<Option<(Option<Seq<char>>, Option<bool>)>>, i: int) -> Option<Seq<char>> {
    if 0 <= i < rec.len() {
        match rec[i] {
            Some(f) => f.0,
            None => None,
        }
    } else {
        None
    }
}

/// The truth value of field `i` of a record, if it is a boolean.
pub open spec fn field_flag(rec: Seq<Option<(Option<Seq<char>>, Option<bool>)>>, i: int) -> Option<bool> {
    if 0 <= i < rec.len() {
        match rec[i] {
            Some(f) => f.1,
            None => None,
        }
    } else {
        None
    }
}

/// Whether field `i` of a record is present at all.
pub open spec fn field_present(rec: Seq<Option<(Option<Seq<char>>, Option<bool>)>>, i: int) -> bool {
    0 <= i < rec.len() && rec[i] is Some
}

pub(crate) fn rec_text(rec: &Vec<JsonField>, i: usize) -> (r: Option<&str>)
    ensures
        opt_str(r) == field_text(record_view(*rec), i as int),
{
    if i < rec.len() {
        match &rec[i] {
            Some(f) => match &f.0 {
                Some(t) => Some(t.as_str()),
                None => None,
            },
            None => None,
        }
    } else {
        None
    }
}

pub(crate) fn rec_flag(rec: &Vec<JsonField>, i: usize) -> (r: Option<bool>)
    ensures
        r == field_flag(record_view(*rec), i as int),
{
    if i < rec.len() {
        match &rec[i] {
            Some(f) => f.1,
            None => None,
        }
    } else {
        None
    }
}

pub(crate) fn rec_present(rec: &Vec<JsonField>, i: usize) -> (r: bool)
    ensures
        r == field_present(record_view(*rec), i as int),
{
    i < rec.len() && rec[i].is_some()
}

/// A key written as a JSON Pointer token: `~` as `~0` and `/` as `~1`.
pub open spec fn pointer_token(s: Seq<char>) -> Seq<char>
    decreases s.len(),
{
    if s.len() == 0 {
        Seq::empty()
    } else {
        let c = s.last();
        pointer_token(s.drop_last()) + if c == '~' {
            seq!['~', '0']
        } else if c == '/' {
            seq!['~', '1']
        } else {
            seq![c]
        }
    }
}

/// A key written as a JSON Pointer token (see `pointer_token`).
pub fn pointer_escape(s: &str) -> (r: String)
    ensures
        r@ == pointer_token(s@),
{
    let cs = chars_of(s);
    let mut out: Vec<char> = Vec::new();
    let mut i: usize = 0;
    assert(cs@.take(0) =~= Seq::<char>::empty());
    while i < cs.len()
        invariant
            i <= cs@.len(),
            cs@ == s@,
            out@ == pointer_token(cs@.take(i as int)),
        decreases cs@.len() - i,
    {
        let c = cs[i];
        assert(cs@.take(i + 1).drop_last() =~= cs@.take(i as int));
        let ghost before = out@;
        if c == '~' {
            out.push('~');
            out.push('0');
            assert(out@ =~= before + seq!['~', '0']);
        } else if c == '/' {
            out.push('~');
            out.push('1');
            assert(out@ =~= before + seq!['~', '1']);
        } else {
            out.push(c);
            assert(out@ =~= before + seq![c]);
        }
        i = i + 1;
    }
    assert(cs@.take(cs@.len() as int) =~= cs@);
    string_of(out.as_slice())
}

} // verus!
