//! A JSON document as a tree of plain values, and the exact rules by which the
//! library's wire types read and write their fields in it.
//!
//! Numbers keep the literal text in which they were written, so that integers
//! and decimal amounts read back exactly as they were written.
use vstd::prelude::*;
use vstd::std_specs::vec::axiom_vec_index_decreases;

use crate::helpers::{
    int_text, i64_text, lemma_nat_text, lemma_parse_i64_text, nat_text, parse_i64, read_i64, u64_text,
};

verus! {

/// Where in a document decoding stopped: the keys from the outermost object
/// inwards, with list positions written in decimal.
#[derive(Debug, Clone, PartialEq)]
pub struct DecodeError {
    pub path: Vec<String>,
}

/// A JSON value. Objects keep their entries in order, and lookups take the
/// first entry with a given key.
#[derive(Debug, PartialEq)]
pub enum Json {
    Null,
    Bool(bool),
    Number(String),
    Str(String),
    Array(Vec<Json>),
    Object(Vec<(String, Json)>),
}

/// The first entry of `entries` whose key is `key`.
pub open spec fn lookup(entries: Seq<(String, Json)>, key: Seq<char>) -> Option<Json>
    decreases entries.len(),
{
    if entries.len() == 0 {
        None
    } else if entries[0].0@ == key {
        Some(entries[0].1)
    } else {
        lookup(entries.skip(1), key)
    }
}

/// The value under `key` when `j` is an object.
pub open spec fn field(j: Json, key: Seq<char>) -> Option<Json> {
    match j {
        Json::Object(entries) => lookup(entries@, key),
        _ => None,
    }
}

/// Whether `key` is the key of some entry of the object `j`.
pub open spec fn has_key(j: Json, key: Seq<char>) -> bool {
    match j {
        Json::Object(entries) => exists|i: int| 0 <= i < entries@.len() && #[trigger] entries@[i].0@ == key,
        _ => false,
    }
}

/// Two strings with the same characters.
pub fn str_equal(a: &str, b: &str) -> (r: bool)
    ensures
        r == (a@ == b@),
{
    let n = a.unicode_len();
    if n != b.unicode_len() {
        return false;
    }
    let mut i: usize = 0;
    while i < n
        invariant
            n == a@.len(),
            n == b@.len(),
            i <= n,
            forall|k: int| 0 <= k < i ==> a@[k] == b@[k],
        decreases n - i,
    {
        if a.get_char(i) != b.get_char(i) {
            return false;
        }
        i = i + 1;
    }
    assert(a@ =~= b@);
    true
}

/// The value under `key` in `entries`, found as `lookup` says.
pub fn lookup_entry<'a>(entries: &'a Vec<(String, Json)>, key: &str) -> (r: Option<&'a Json>)
    ensures
        match r {
            Some(v) => lookup(entries@, key@) == Some(*v),
            None => lookup(entries@, key@) is None,
        },
{
    let mut i: usize = 0;
    assert(entries@.skip(0) =~= entries@);
    while i < entries.len()
        invariant
            i <= entries@.len(),
            lookup(entries@, key@) == lookup(entries@.skip(i as int), key@),
        decreases entries@.len() - i,
    {
        let (k, v) = &entries[i];
        assert(entries@.skip(i as int)[0] == entries@[i as int]);
        if str_equal(k.as_str(), key) {
            return Some(v);
        }
        assert(entries@.skip(i as int).skip(1) =~= entries@.skip(i + 1));
        i = i + 1;
    }
    None
}

/// The value under `key` when `j` is an object.
pub fn get_field<'a>(j: &'a Json, key: &str) -> (r: Option<&'a Json>)
    ensures
        match r {
            Some(v) => field(*j, key@) == Some(*v),
            None => field(*j, key@) is None,
        },
{
    match j {
        Json::Object(entries) => lookup_entry(entries, key),
        _ => None,
    }
}

/// The segments of a path, joined by points.
pub open spec fn joined(p: Seq<String>) -> Seq<char>
    decreases p.len(),
{
    if p.len() == 0 {
        Seq::empty()
    } else if p.len() == 1 {
        p[0]@
    } else {
        joined(p.drop_last()) + seq!['.'] + p.last()@
    }
}

impl DecodeError {
    /// The path as text: its segments joined by points, and a lone point
    /// for an empty path.
    pub fn path_text(&self) -> (r: String)
        ensures
            r@ == (if self.path@.len() == 0 { seq!['.'] } else { joined(self.path@) }),
            self.path@.len() > 0 ==> r@.len() >= self.path@[0]@.len(),
    {
        proof {
            reveal_strlit(".");
        }
        if self.path.len() == 0 {
            return String::from_str(".");
        }
        let mut r = self.path[0].clone();
        let mut i: usize = 1;
        assert(self.path@.take(1) =~= seq![self.path@[0]]);
        while i < self.path.len()
            invariant
                1 <= i <= self.path@.len(),
                r@ == joined(self.path@.take(i as int)),
                r@.len() >= self.path@[0]@.len(),
                "."@ == seq!['.'],
            decreases self.path@.len() - i,
        {
            assert(self.path@.take(i + 1).drop_last() =~= self.path@.take(i as int));
            assert(self.path@.take(i + 1).last() == self.path@[i as int]);
            r.append(".");
            r.append(self.path[i].as_str());
            i = i + 1;
        }
        assert(self.path@.take(i as int) =~= self.path@);
        r
    }
}

/// The error for a document that does not read as the value looked for:
/// `$` for its root, then the path inside it.
pub fn error_in_document(e: DecodeError) -> (r: DecodeError)
    ensures
        r.path@.len() == e.path@.len() + 1,
        r.path@[0]@ == "$"@,
        r.path@.skip(1) == e.path@,
{
    error_under("$", e)
}

/// The error for a text that is not JSON: where it stopped being JSON, as
/// `line:column`.
pub fn error_in_text(line: u64, column: u64) -> (r: DecodeError)
    ensures
        r.path@.len() == 1,
        r.path@[0]@ == nat_text(line as nat) + seq![':'] + nat_text(column as nat),
        r.path@[0]@.len() > 0,
{
    let mut at = u64_text(line);
    proof {
        reveal_strlit(":");
        lemma_nat_text(line as nat);
    }
    at.append(":");
    at.append(u64_text(column).as_str());
    let mut path = Vec::new();
    path.push(at);
    DecodeError { path }
}

/// Whether `key` holds nothing in `j`: no entry, or `null`.
pub open spec fn absent(j: Json, key: Seq<char>) -> bool {
    field(j, key) is None || field(j, key) == Some(Json::Null)
}

/// The error for a value that cannot be read at `key`.
pub fn error_at(key: &str) -> (e: DecodeError)
    ensures
        e.path@.len() == 1,
        e.path@[0]@ == key@,
{
    let mut path = Vec::new();
    path.push(String::from_str(key));
    DecodeError { path }
}

/// The same error, seen from the object that holds `key`.
pub fn error_under(key: &str, e: DecodeError) -> (r: DecodeError)
    ensures
        r.path@.len() == e.path@.len() + 1,
        r.path@[0]@ == key@,
        r.path@.skip(1) == e.path@,
{
    let mut path = e.path;
    path.insert(0, String::from_str(key));
    proof {
        assert(path@.skip(1) =~= e.path@);
    }
    DecodeError { path }
}

/// A JSON number that holds the integer `n`.
pub fn number_of(n: i64) -> (r: Json)
    ensures
        r matches Json::Number(t) && parse_i64(t@) == Some(n) && t@ == int_text(n as int),
{
    proof {
        lemma_parse_i64_text(n);
    }
    Json::Number(i64_text(n))
}

/// The entries of `j` when it is an object, and none otherwise.
pub open spec fn entries_of(j: Json) -> Seq<(String, Json)> {
    match j {
        Json::Object(entries) => entries@,
        _ => Seq::empty(),
    }
}

/// Adding an entry keeps what earlier entries hold, and shows the new one
/// only under a key that no earlier entry has.
pub broadcast proof fn lemma_lookup_push(entries: Seq<(String, Json)>, e: (String, Json), key: Seq<char>)
    ensures
        #[trigger] lookup(entries.push(e), key) == (if lookup(entries, key) is Some {
            lookup(entries, key)
        } else if e.0@ == key {
            Some(e.1)
        } else {
            None
        }),
    decreases entries.len(),
{
    let pushed = entries.push(e);
    if entries.len() > 0 {
        assert(pushed.skip(1) =~= entries.skip(1).push(e));
        assert(pushed[0] == entries[0]);
        lemma_lookup_push(entries.skip(1), e, key);
    } else {
        assert(pushed.skip(1) =~= Seq::<(String, Json)>::empty());
        assert(pushed[0] == e);
        assert(lookup(pushed.skip(1), key) is None);
    }
}

/// Looking up in two runs of entries one after the other finds the first
/// run's entry when it has one, and the second's otherwise.
pub broadcast proof fn lemma_lookup_append(a: Seq<(String, Json)>, b: Seq<(String, Json)>, key: Seq<char>)
    ensures
        #[trigger] lookup(a + b, key) == (if lookup(a, key) is Some {
            lookup(a, key)
        } else {
            lookup(b, key)
        }),
    decreases a.len(),
{
    if a.len() > 0 {
        assert((a + b).skip(1) =~= a.skip(1) + b);
        assert((a + b)[0] == a[0]);
        lemma_lookup_append(a.skip(1), b, key);
    } else {
        assert(a + b =~= b);
    }
}

/// A key that `lookup` finds is the key of some entry.
pub proof fn lemma_lookup_some(entries: Seq<(String, Json)>, key: Seq<char>)
    requires
        lookup(entries, key) is Some,
    ensures
        exists|i: int| 0 <= i < entries.len() && #[trigger] entries[i].0@ == key,
    decreases entries.len(),
{
    if entries[0].0@ != key {
        lemma_lookup_some(entries.skip(1), key);
        let i = choose|i: int| 0 <= i < entries.skip(1).len() && #[trigger] entries.skip(1)[i].0@ == key;
        assert(entries[i + 1] == entries.skip(1)[i]);
    }
}

/// A key that `lookup` does not find is the key of no entry.
pub proof fn lemma_lookup_none(entries: Seq<(String, Json)>, key: Seq<char>)
    requires
        lookup(entries, key) is None,
    ensures
        forall|i: int| 0 <= i < entries.len() ==> #[trigger] entries[i].0@ != key,
    decreases entries.len(),
{
    if entries.len() > 0 {
        lemma_lookup_none(entries.skip(1), key);
        assert forall|i: int| 0 <= i < entries.len() implies #[trigger] entries[i].0@ != key by {
            if i > 0 {
                assert(entries[i] == entries.skip(1)[i - 1]);
            }
        }
    }
}

/// A value with a JSON form: how it is written, and which documents read
/// back as it.
pub trait WireValue: Sized {
    /// `j` is a form of this value: decoding `j` gives it. Absent optional
    /// fields may be left out or be `null`; other keys are ignored.
    spec fn wire_form(&self, j: Json) -> bool;

    /// Every optional field of this value that is absent, here or in a
    /// nested value, is left out of `j` altogether.
    spec fn omits_absent(&self, j: Json) -> bool;

    /// The two values carry the same data.
    spec fn agrees(&self, other: &Self) -> bool;

    /// The keys that the JSON object of such a value may hold.
    spec fn own_key(key: Seq<char>) -> bool;

    /// `j` is exactly what `to_json` writes: its own keys only, each
    /// present field written in its one way (numbers in their decimal
    /// text, identification numbers as decimal strings, enumerations as
    /// their tokens).
    spec fn written_as(&self, j: Json) -> bool;

    fn to_json(&self) -> (r: Json)
        ensures
            self.wire_form(r),
            self.omits_absent(r),
            self.written_as(r),
            !(r is Null);

    fn from_json(j: &Json) -> (r: Result<Self, DecodeError>)
        ensures
            match r {
                Ok(v) => v.wire_form(*j),
                Err(_) => forall|v: Self| !#[trigger] v.wire_form(*j),
            };

    /// A document is the form of at most one value.
    proof fn lemma_wire_form_unique(&self, other: &Self, j: Json)
        requires
            self.wire_form(j),
            other.wire_form(j),
        ensures
            self.agrees(other);
}

impl WireValue for String {
    open spec fn wire_form(&self, j: Json) -> bool {
        j == Json::Str(*self)
    }

    open spec fn omits_absent(&self, j: Json) -> bool {
        true
    }

    open spec fn agrees(&self, other: &Self) -> bool {
        *self == *other
    }

    open spec fn own_key(key: Seq<char>) -> bool {
        false
    }

    open spec fn written_as(&self, j: Json) -> bool {
        j == Json::Str(*self)
    }

    fn to_json(&self) -> (r: Json) {
        Json::Str(self.clone())
    }

    fn from_json(j: &Json) -> (r: Result<Self, DecodeError>) {
        match j {
            Json::Str(s) => Ok(s.clone()),
            _ => Err(DecodeError { path: Vec::new() }),
        }
    }

    proof fn lemma_wire_form_unique(&self, other: &Self, j: Json) {
    }
}

impl WireValue for i64 {
    open spec fn wire_form(&self, j: Json) -> bool {
        j matches Json::Number(t) && parse_i64(t@) == Some(*self)
    }

    open spec fn omits_absent(&self, j: Json) -> bool {
        true
    }

    open spec fn agrees(&self, other: &Self) -> bool {
        *self == *other
    }

    open spec fn own_key(key: Seq<char>) -> bool {
        false
    }

    open spec fn written_as(&self, j: Json) -> bool {
        j matches Json::Number(t) && t@ == int_text(*self as int)
    }

    fn to_json(&self) -> (r: Json) {
        number_of(*self)
    }

    fn from_json(j: &Json) -> (r: Result<Self, DecodeError>) {
        match j {
            Json::Number(t) => match read_i64(t.as_str()) {
                Some(n) => Ok(n),
                None => Err(DecodeError { path: Vec::new() }),
            },
            _ => Err(DecodeError { path: Vec::new() }),
        }
    }

    proof fn lemma_wire_form_unique(&self, other: &Self, j: Json) {
    }
}

impl WireValue for i32 {
    open spec fn wire_form(&self, j: Json) -> bool {
        j matches Json::Number(t) && parse_i64(t@) == Some(*self as i64)
    }

    open spec fn omits_absent(&self, j: Json) -> bool {
        true
    }

    open spec fn agrees(&self, other: &Self) -> bool {
        *self == *other
    }

    open spec fn own_key(key: Seq<char>) -> bool {
        false
    }

    open spec fn written_as(&self, j: Json) -> bool {
        j matches Json::Number(t) && t@ == int_text(*self as int)
    }

    fn to_json(&self) -> (r: Json) {
        number_of(*self as i64)
    }

    fn from_json(j: &Json) -> (r: Result<Self, DecodeError>) {
        match j {
            Json::Number(t) => match read_i64(t.as_str()) {
                Some(n) => if i32::MIN as i64 <= n && n <= i32::MAX as i64 {
                    Ok(n as i32)
                } else {
                    Err(DecodeError { path: Vec::new() })
                },
                None => Err(DecodeError { path: Vec::new() }),
            },
            _ => Err(DecodeError { path: Vec::new() }),
        }
    }

    proof fn lemma_wire_form_unique(&self, other: &Self, j: Json) {
    }
}

impl WireValue for bool {
    open spec fn wire_form(&self, j: Json) -> bool {
        j == Json::Bool(*self)
    }

    open spec fn omits_absent(&self, j: Json) -> bool {
        true
    }

    open spec fn agrees(&self, other: &Self) -> bool {
        *self == *other
    }

    open spec fn own_key(key: Seq<char>) -> bool {
        false
    }

    open spec fn written_as(&self, j: Json) -> bool {
        j == Json::Bool(*self)
    }

    fn to_json(&self) -> (r: Json) {
        Json::Bool(*self)
    }

    fn from_json(j: &Json) -> (r: Result<Self, DecodeError>) {
        match j {
            Json::Bool(b) => Ok(*b),
            _ => Err(DecodeError { path: Vec::new() }),
        }
    }

    proof fn lemma_wire_form_unique(&self, other: &Self, j: Json) {
    }
}

/// `key` holds a form of `v`.
pub open spec fn value_field<T: WireValue>(j: Json, key: Seq<char>, v: T) -> bool {
    field(j, key) matches Some(sub) && v.wire_form(sub)
}

/// `key` holds a form of `v` when there is one, and nothing otherwise.
pub open spec fn opt_value_field<T: WireValue>(j: Json, key: Seq<char>, v: Option<T>) -> bool {
    match v {
        Some(x) => value_field(j, key, x) && field(j, key) != Some(Json::Null),
        None => absent(j, key),
    }
}

/// `xs` holds, in order, a form of each of `v`.
pub open spec fn list_form<T: WireValue>(xs: Seq<Json>, v: Seq<T>) -> bool {
    xs.len() == v.len() && forall|i: int| 0 <= i < v.len() ==> #[trigger] v[i].wire_form(xs[i])
}

/// `key` holds a list with a form of each of `v`, in order.
pub open spec fn list_field<T: WireValue>(j: Json, key: Seq<char>, v: Seq<T>) -> bool {
    field(j, key) matches Some(Json::Array(xs)) && list_form(xs@, v)
}

/// `key` holds a list of forms of `v` when there is one, and nothing otherwise.
pub open spec fn opt_list_field<T: WireValue>(j: Json, key: Seq<char>, v: Option<Vec<T>>) -> bool {
    match v {
        Some(x) => list_field(j, key, x@),
        None => absent(j, key),
    }
}

/// Each of `v` leaves its absent fields out of its form in `xs`.
pub open spec fn list_omits_absent<T: WireValue>(xs: Seq<Json>, v: Seq<T>) -> bool {
    xs.len() == v.len() && forall|i: int| 0 <= i < v.len() ==> #[trigger] v[i].omits_absent(xs[i])
}

/// The two lists carry the same data, item by item.
pub open spec fn list_agrees<T: WireValue>(a: Seq<T>, b: Seq<T>) -> bool {
    a.len() == b.len() && forall|i: int| 0 <= i < a.len() ==> #[trigger] a[i].agrees(&b[i])
}

/// The items of `j` when it is a list.
pub open spec fn array_items(j: Json) -> Seq<Json> {
    match j {
        Json::Array(xs) => xs@,
        _ => Seq::empty(),
    }
}

/// `key` holds the identification number `v`. A number is written in
/// decimal, either as a JSON string or as a JSON number; no number is
/// written as nothing, `null` or an empty string.
pub open spec fn id_number_field(j: Json, key: Seq<char>, v: Option<i64>) -> bool {
    match v {
        Some(n) => match field(j, key) {
            Some(Json::Str(t)) => parse_i64(t@) == Some(n),
            Some(Json::Number(t)) => parse_i64(t@) == Some(n),
            _ => false,
        },
        None => match field(j, key) {
            None => true,
            Some(Json::Null) => true,
            Some(Json::Str(t)) => t@.len() == 0,
            _ => false,
        },
    }
}

/// The identification number `n` as it is sent: its decimal text, as a
/// JSON string.
pub fn id_number_json(n: i64) -> (r: Json)
    ensures
        r matches Json::Str(t) && t@ == int_text(n as int) && parse_i64(t@) == Some(n),
{
    proof {
        lemma_parse_i64_text(n);
    }
    Json::Str(i64_text(n))
}

/// Reads the identification number under `key`, as `id_number_field` says.
pub fn read_id_number(j: &Json, key: &str) -> (r: Result<Option<i64>, DecodeError>)
    ensures
        match r {
            Ok(v) => id_number_field(*j, key@, v),
            Err(e) => (forall|v: Option<i64>| !#[trigger] id_number_field(*j, key@, v)) && e.path@.len() == 1,
        },
{
    match get_field(j, key) {
        None => Ok(None),
        Some(Json::Null) => Ok(None),
        Some(Json::Str(t)) => {
            if t.as_str().unicode_len() == 0 {
                Ok(None)
            } else {
                match read_i64(t.as_str()) {
                    Some(n) => Ok(Some(n)),
                    None => Err(error_at(key)),
                }
            }
        },
        Some(Json::Number(t)) => match read_i64(t.as_str()) {
            Some(n) => Ok(Some(n)),
            None => Err(error_at(key)),
        },
        _ => Err(error_at(key)),
    }
}

/// `key` holds exactly what `to_json` writes for `v`.
pub open spec fn written_field<T: WireValue>(j: Json, key: Seq<char>, v: T) -> bool {
    field(j, key) matches Some(x) && v.written_as(x)
}

/// `key` holds exactly what `to_json` writes for `v`, or is not a key at
/// all when `v` is absent.
pub open spec fn opt_written_field<T: WireValue>(j: Json, key: Seq<char>, v: Option<T>) -> bool {
    match v {
        Some(x) => written_field(j, key, x),
        None => !has_key(j, key),
    }
}

/// `xs` is exactly what `to_json` writes for each of `v`, in order.
pub open spec fn list_written<T: WireValue>(xs: Seq<Json>, v: Seq<T>) -> bool {
    xs.len() == v.len() && forall|i: int| 0 <= i < v.len() ==> #[trigger] v[i].written_as(xs[i])
}

/// `key` holds the list that `to_json` writes for `v`.
pub open spec fn list_written_field<T: WireValue>(j: Json, key: Seq<char>, v: Seq<T>) -> bool {
    field(j, key) matches Some(Json::Array(xs)) && list_written(xs@, v)
}

/// `key` holds the list that `to_json` writes for `v`, or is not a key at
/// all when `v` is absent.
pub open spec fn opt_list_written_field<T: WireValue>(j: Json, key: Seq<char>, v: Option<Vec<T>>) -> bool {
    match v {
        Some(x) => list_written_field(j, key, x@),
        None => !has_key(j, key),
    }
}

/// `key` holds the identification number `v` as its decimal text in a JSON
/// string, or is not a key at all when there is no number.
pub open spec fn id_number_written(j: Json, key: Seq<char>, v: Option<i64>) -> bool {
    match v {
        Some(n) => field(j, key) matches Some(Json::Str(t)) && t@ == int_text(n as int),
        None => !has_key(j, key),
    }
}

/// `key` holds the number `v` in its decimal text, or is not a key at all
/// when there is no number.
pub open spec fn number_written(j: Json, key: Seq<char>, v: Option<i64>) -> bool {
    match v {
        Some(n) => field(j, key) matches Some(Json::Number(t)) && t@ == int_text(n as int),
        None => !has_key(j, key),
    }
}

/// The value under `key`, whatever it is.
pub open spec fn field_value(j: Json, key: Seq<char>) -> Json {
    field(j, key).unwrap()
}

/// Reads the value under `key`.
pub fn read_value<T: WireValue>(j: &Json, key: &str) -> (r: Result<T, DecodeError>)
    ensures
        match r {
            Ok(v) => value_field(*j, key@, v),
            Err(e) => (forall|v: T| !#[trigger] value_field(*j, key@, v)) && e.path@.len() >= 1,
        },
{
    match get_field(j, key) {
        Some(s) => match T::from_json(s) {
            Ok(v) => Ok(v),
            Err(e) => Err(error_under(key, e)),
        },
        None => Err(error_at(key)),
    }
}

/// Reads the value under `key`, if there is one.
pub fn read_opt_value<T: WireValue>(j: &Json, key: &str) -> (r: Result<Option<T>, DecodeError>)
    ensures
        match r {
            Ok(v) => opt_value_field(*j, key@, v),
            Err(e) => (forall|v: Option<T>| !#[trigger] opt_value_field(*j, key@, v)) && e.path@.len() >= 1,
        },
{
    match get_field(j, key) {
        None => Ok(None),
        Some(Json::Null) => Ok(None),
        Some(s) => match T::from_json(s) {
            Ok(v) => Ok(Some(v)),
            Err(e) => {
                proof {
                    assert forall|v: Option<T>| !#[trigger] opt_value_field(*j, key@, v) by {
                        if let Some(x) = v {
                            assert(!x.wire_form(*s));
                        }
                    }
                }
                Err(error_under(key, e))
            },
        },
    }
}

/// Reads a list of values.
pub fn read_list<T: WireValue>(xs: &Vec<Json>) -> (r: Result<Vec<T>, DecodeError>)
    ensures
        match r {
            Ok(v) => list_form(xs@, v@),
            Err(_) => forall|v: Seq<T>| !#[trigger] list_form(xs@, v),
        },
{
    let mut out: Vec<T> = Vec::new();
    let mut i: usize = 0;
    while i < xs.len()
        invariant
            i <= xs@.len(),
            out@.len() == i,
            forall|k: int| 0 <= k < i ==> #[trigger] out@[k].wire_form(xs@[k]),
        decreases xs@.len() - i,
    {
        match T::from_json(&xs[i]) {
            Ok(v) => {
                out.push(v);
            },
            Err(e) => {
                proof {
                    assert forall|v: Seq<T>| !#[trigger] list_form(xs@, v) by {
                        if list_form(xs@, v) {
                            assert(v[i as int].wire_form(xs@[i as int]));
                        }
                    }
                }
                return Err(error_under_index(i, e));
            },
        }
        i = i + 1;
    }
    Ok(out)
}

/// The same error, seen from the list that holds the item at `i`.
fn error_under_index(i: usize, e: DecodeError) -> (r: DecodeError)
    ensures
        r.path@.len() == e.path@.len() + 1,
{
    let mut path = e.path;
    path.insert(0, i64_text(i as i64));
    DecodeError { path }
}

/// Reads the list under `key`.
pub fn read_list_field<T: WireValue>(j: &Json, key: &str) -> (r: Result<Vec<T>, DecodeError>)
    ensures
        match r {
            Ok(v) => list_field(*j, key@, v@),
            Err(e) => (forall|v: Seq<T>| !#[trigger] list_field(*j, key@, v)) && e.path@.len() >= 1,
        },
{
    match get_field(j, key) {
        Some(Json::Array(xs)) => match read_list(xs) {
            Ok(v) => Ok(v),
            Err(e) => Err(error_under(key, e)),
        },
        _ => Err(error_at(key)),
    }
}

/// Reads the list under `key`, if there is one.
pub fn read_opt_list_field<T: WireValue>(j: &Json, key: &str) -> (r: Result<Option<Vec<T>>, DecodeError>)
    ensures
        match r {
            Ok(v) => opt_list_field(*j, key@, v),
            Err(e) => (forall|v: Option<Vec<T>>| !#[trigger] opt_list_field(*j, key@, v)) && e.path@.len() >= 1,
        },
{
    match get_field(j, key) {
        None => Ok(None),
        Some(Json::Null) => Ok(None),
        Some(Json::Array(xs)) => match read_list(xs) {
            Ok(v) => Ok(Some(v)),
            Err(e) => {
                proof {
                    assert forall|v: Option<Vec<T>>| !#[trigger] opt_list_field(*j, key@, v) by {
                        if let Some(x) = v {
                            assert(!list_form(xs@, x@));
                        }
                    }
                }
                Err(error_under(key, e))
            },
        },
        _ => Err(error_at(key)),
    }
}

/// The forms of `v`, in order, as a JSON list.
pub fn list_to_json<T: WireValue>(v: &Vec<T>) -> (r: Json)
    ensures
        r matches Json::Array(xs) && list_form(xs@, v@) && list_omits_absent(xs@, v@) && list_written(xs@, v@),
{
    let mut xs: Vec<Json> = Vec::new();
    let mut i: usize = 0;
    while i < v.len()
        invariant
            i <= v@.len(),
            xs@.len() == i,
            forall|k: int| 0 <= k < i ==> #[trigger] v@[k].wire_form(xs@[k]),
            forall|k: int| 0 <= k < i ==> #[trigger] v@[k].omits_absent(xs@[k]),
            forall|k: int| 0 <= k < i ==> #[trigger] v@[k].written_as(xs@[k]),
        decreases v@.len() - i,
    {
        xs.push(v[i].to_json());
        i = i + 1;
    }
    Json::Array(xs)
}

/// Two lists that are both read from `xs` carry the same data.
pub proof fn lemma_list_form_unique<T: WireValue>(xs: Seq<Json>, a: Seq<T>, b: Seq<T>)
    requires
        list_form(xs, a),
        list_form(xs, b),
    ensures
        list_agrees(a, b),
{
    assert forall|i: int| 0 <= i < a.len() implies #[trigger] a[i].agrees(&b[i]) by {
        a[i].lemma_wire_form_unique(&b[i], xs[i]);
    }
}

/// Two values that are both read from under `key` carry the same data.
pub proof fn lemma_value_field_unique<T: WireValue>(j: Json, key: Seq<char>, a: T, b: T)
    requires
        value_field(j, key, a),
        value_field(j, key, b),
    ensures
        a.agrees(&b),
{
    a.lemma_wire_form_unique(&b, field_value(j, key));
}

/// Two optional values that are both read from under `key` are both absent,
/// or carry the same data.
pub proof fn lemma_opt_value_field_unique<T: WireValue>(j: Json, key: Seq<char>, a: Option<T>, b: Option<T>)
    requires
        opt_value_field(j, key, a),
        opt_value_field(j, key, b),
    ensures
        a is Some <==> b is Some,
        a is Some ==> a.unwrap().agrees(&b.unwrap()),
{
    if a is Some && b is Some {
        a.unwrap().lemma_wire_form_unique(&b.unwrap(), field_value(j, key));
    }
}

/// The two documents have the same shape and the same text in every
/// string, number and key.
pub open spec fn json_agrees(a: Json, b: Json) -> bool
    decreases a,
{
    match a {
        Json::Null => b is Null,
        Json::Bool(x) => b == Json::Bool(x),
        Json::Number(t) => b matches Json::Number(u) && t@ == u@,
        Json::Str(t) => b matches Json::Str(u) && t@ == u@,
        Json::Array(xs) => b matches Json::Array(ys) && xs@.len() == ys@.len() && forall|i: int|
            0 <= i < xs@.len() ==> json_agrees(#[trigger] xs@[i], ys@[i]),
        Json::Object(es) => b matches Json::Object(fs) && es@.len() == fs@.len() && forall|i: int|
            0 <= i < es@.len() ==> (#[trigger] es@[i]).0@ == fs@[i].0@ && json_agrees(es@[i].1, fs@[i].1),
    }
}

/// A copy of a document.
pub fn copy_json(j: &Json) -> (r: Json)
    ensures
        json_agrees(*j, r),
    decreases j,
{
    match j {
        Json::Null => Json::Null,
        Json::Bool(b) => Json::Bool(*b),
        Json::Number(t) => Json::Number(t.clone()),
        Json::Str(t) => Json::Str(t.clone()),
        Json::Array(xs) => {
            let mut ys: Vec<Json> = Vec::new();
            let mut i: usize = 0;
            while i < xs.len()
                invariant
                    *j == Json::Array(*xs),
                    i <= xs@.len(),
                    ys@.len() == i,
                    forall|k: int| 0 <= k < i ==> json_agrees(#[trigger] xs@[k], ys@[k]),
                decreases xs@.len() - i,
            {
                proof {
                    axiom_vec_index_decreases(*xs, i as int);
                    assert(decreases_to!(*j => (*j)->Array_0));
                    assert(decreases_to!(*xs => xs[i as int]));
                    assert(decreases_to!(*j => xs@[i as int]));
                }
                ys.push(copy_json(&xs[i]));
                i = i + 1;
            }
            Json::Array(ys)
        },
        Json::Object(es) => Json::Object(copy_entries(j, es)),
    }
}

/// A copy of the entries of the object `j`.
pub fn copy_entries(j: &Json, es: &Vec<(String, Json)>) -> (r: Vec<(String, Json)>)
    requires
        *j == Json::Object(*es),
    ensures
        json_agrees(*j, Json::Object(r)),
    decreases j, 0nat,
{
    let mut fs: Vec<(String, Json)> = Vec::new();
    let mut i: usize = 0;
    while i < es.len()
        invariant
            *j == Json::Object(*es),
            i <= es@.len(),
            fs@.len() == i,
            forall|k: int| 0 <= k < i ==> (#[trigger] es@[k]).0@ == fs@[k].0@ && json_agrees(es@[k].1, fs@[k].1),
        decreases es@.len() - i,
    {
        proof {
            axiom_vec_index_decreases(*es, i as int);
            assert(decreases_to!(*j => (*j)->Object_0));
            assert(decreases_to!(*es => es[i as int]));
            assert(decreases_to!(es[i as int] => es[i as int].1));
            assert(decreases_to!(*j => es@[i as int].1));
        }
        let (k, v) = &es[i];
        fs.push((k.clone(), copy_json(v)));
        i = i + 1;
    }
    fs
}

/// Agreement goes both ways, and chains.
pub proof fn lemma_json_agrees(a: Json, b: Json, c: Json)
    ensures
        json_agrees(a, b) ==> json_agrees(b, a),
        json_agrees(a, b) && json_agrees(b, c) ==> json_agrees(a, c),
    decreases a,
{
    match a {
        Json::Array(xs) => {
            if let Json::Array(ys) = b {
                assert forall|i: int| 0 <= i < xs@.len() implies
                    (json_agrees(a, b) ==> json_agrees(#[trigger] ys@[i], xs@[i])) by {
                    assert(decreases_to!(a => xs@[i]));
                    lemma_json_agrees(xs@[i], ys@[i], ys@[i]);
                }
                if let Json::Array(zs) = c {
                    assert forall|i: int| 0 <= i < xs@.len() implies
                        (json_agrees(a, b) && json_agrees(b, c) ==> json_agrees(#[trigger] xs@[i], zs@[i])) by {
                        assert(decreases_to!(a => xs@[i]));
                        lemma_json_agrees(xs@[i], ys@[i], zs@[i]);
                    }
                }
            }
        },
        Json::Object(es) => {
            if let Json::Object(fs) = b {
                assert forall|i: int| 0 <= i < es@.len() implies
                    (json_agrees(a, b) ==> (#[trigger] fs@[i]).0@ == es@[i].0@ && json_agrees(fs@[i].1, es@[i].1)) by {
                    assert(decreases_to!(a => es@[i].1));
                    lemma_json_agrees(es@[i].1, fs@[i].1, fs@[i].1);
                }
                if let Json::Object(gs) = c {
                    assert forall|i: int| 0 <= i < es@.len() implies
                        (json_agrees(a, b) && json_agrees(b, c) ==> (#[trigger] es@[i]).0@ == gs@[i].0@ && json_agrees(es@[i].1, gs@[i].1)) by {
                        assert(decreases_to!(a => es@[i].1));
                        lemma_json_agrees(es@[i].1, fs@[i].1, gs@[i].1);
                    }
                }
            }
        },
        _ => {},
    }
}

/// Extra data that the seller attaches to a payment: a JSON object, kept as
/// it is.
#[derive(Debug, PartialEq)]
pub struct Metadata {
    pub entries: Vec<(String, Json)>,
}

impl WireValue for Metadata {
    open spec fn wire_form(&self, j: Json) -> bool {
        json_agrees(Json::Object(self.entries), j)
    }

    open spec fn omits_absent(&self, j: Json) -> bool {
        true
    }

    open spec fn agrees(&self, other: &Self) -> bool {
        json_agrees(Json::Object(self.entries), Json::Object(other.entries))
    }

    open spec fn own_key(key: Seq<char>) -> bool {
        true
    }

    open spec fn written_as(&self, j: Json) -> bool {
        json_agrees(Json::Object(self.entries), j)
    }

    fn to_json(&self) -> (r: Json) {
        let whole = Json::Object(copy_entries_of(&self.entries));
        proof {
            lemma_json_agrees(Json::Object(self.entries), whole, whole);
        }
        whole
    }

    fn from_json(j: &Json) -> (r: Result<Self, DecodeError>) {
        match j {
            Json::Object(es) => {
                let entries = copy_entries(j, es);
                proof {
                    lemma_json_agrees(*j, Json::Object(entries), Json::Object(entries));
                }
                Ok(Metadata { entries })
            },
            _ => Err(DecodeError { path: Vec::new() }),
        }
    }

    proof fn lemma_wire_form_unique(&self, other: &Self, j: Json) {
        lemma_json_agrees(Json::Object(other.entries), j, j);
        lemma_json_agrees(Json::Object(self.entries), j, Json::Object(other.entries));
    }
}

/// A copy of the entries of an object.
fn copy_entries_of(es: &Vec<(String, Json)>) -> (r: Vec<(String, Json)>)
    ensures
        json_agrees(Json::Object(*es), Json::Object(r)),
{
    let mut fs: Vec<(String, Json)> = Vec::new();
    let mut i: usize = 0;
    while i < es.len()
        invariant
            i <= es@.len(),
            fs@.len() == i,
            forall|k: int| 0 <= k < i ==> (#[trigger] es@[k]).0@ == fs@[k].0@ && json_agrees(es@[k].1, fs@[k].1),
        decreases es@.len() - i,
    {
        let (k, v) = &es[i];
        fs.push((k.clone(), copy_json(v)));
        i = i + 1;
    }
    fs
}

/// Decoding gives back what was encoded: a document that is a form of `x`,
/// such as the one that `to_json` writes for it, is the form of some value,
/// so `from_json` does not refuse it, and every value read from it agrees
/// with `x`.
pub proof fn lemma_round_trip<T: WireValue>(x: T, j: Json)
    requires
        x.wire_form(j),
    ensures
        exists|v: T| #[trigger] v.wire_form(j),
        forall|v: T| #[trigger] v.wire_form(j) ==> x.agrees(&v),
{
    assert forall|v: T| #[trigger] v.wire_form(j) implies x.agrees(&v) by {
        x.lemma_wire_form_unique(&v, j);
    }
}

/// An identification number reads the same from a JSON string as from a
/// JSON number with the same text.
pub proof fn lemma_id_number_string_or_number(a: Json, b: Json, key: Seq<char>, v: Option<i64>)
    requires
        field(a, key) matches Some(Json::Str(s)) && field(b, key) matches Some(Json::Number(t)) && s@ == t@
            && s@.len() > 0,
    ensures
        id_number_field(a, key, v) <==> id_number_field(b, key, v),
{
}

/// Nothing, or `null`, under the key reads as no identification number,
/// and as no number at all.
pub proof fn lemma_id_number_absent(j: Json, key: Seq<char>)
    requires
        absent(j, key),
    ensures
        id_number_field(j, key, None),
        forall|n: i64| !#[trigger] id_number_field(j, key, Some(n)),
{
}

/// A field that an encoding leaves out does not appear as a key at all.
pub proof fn lemma_absent_key(j: Json, key: Seq<char>)
    requires
        j is Object,
        field(j, key) is None,
    ensures
        !has_key(j, key),
{
    lemma_lookup_none(entries_of(j), key);
}

} // verus!
