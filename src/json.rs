use vstd::prelude::*;

use crate::text::{int_text, push_int};

verus! {

/// A JSON number: its text as it appeared, and its value when that is an
/// integer within `i64`.
#[derive(Clone, Debug)]
pub struct Number {
    pub int: Option<i64>,
    pub text: String,
}

/// A decoded JSON value.
#[derive(Debug)]
pub enum Json {
    Null,
    Bool(bool),
    Number(Number),
    Str(String),
    Array(Vec<Json>),
    Object(JsonObject),
}

/// A JSON object: its members in order.
#[derive(Debug)]
pub struct JsonObject {
    pub entries: Vec<(String, Json)>,
}

/// The JSON type a getter asks for.
#[derive(Clone, Copy, Debug, PartialEq, Eq, Structural)]
pub enum Want {
    Str,
    Int,
    Num,
    Bool,
    Obj,
    Arr,
}

/// `j` is of the type `w`.
pub open spec fn fits(j: Json, w: Want) -> bool {
    match w {
        Want::Str => j is Str,
        Want::Int => j is Number && j->Number_0.int is Some,
        Want::Num => j is Number,
        Want::Bool => j is Bool,
        Want::Obj => j is Object,
        Want::Arr => j is Array,
    }
}

/// The value of the first member named `key` at or after index `i`.
pub open spec fn lookup_from(entries: Seq<(String, Json)>, key: Seq<char>, i: int) -> Option<Json>
    decreases entries.len() - i,
{
    if i < 0 || i >= entries.len() {
        None
    } else if entries[i].0@ == key {
        Some(entries[i].1)
    } else {
        lookup_from(entries, key, i + 1)
    }
}

impl JsonObject {
    /// The value of the first member named `key`.
    pub open spec fn spec_get(self, key: Seq<char>) -> Option<Json> {
        lookup_from(self.entries@, key, 0)
    }
}

/// The value under the first candidate key, from index `i` on, that is
/// present and of the wanted type.
pub open spec fn pick_from(obj: JsonObject, keys: Seq<&str>, w: Want, i: int) -> Option<Json>
    decreases keys.len() - i,
{
    if i < 0 || i >= keys.len() {
        None
    } else {
        match obj.spec_get(keys[i]@) {
            Some(v) => if fits(v, w) {
                Some(v)
            } else {
                pick_from(obj, keys, w, i + 1)
            },
            None => pick_from(obj, keys, w, i + 1),
        }
    }
}

pub open spec fn pick(obj: JsonObject, keys: Seq<&str>, w: Want) -> Option<Json> {
    pick_from(obj, keys, w, 0)
}

fn fits_exec(j: &Json, w: Want) -> (r: bool)
    ensures
        r == fits(*j, w),
{
    match w {
        Want::Str => matches!(j, Json::Str(_)),
        Want::Int => match j {
            Json::Number(n) => n.int.is_some(),
            _ => false,
        },
        Want::Num => matches!(j, Json::Number(_)),
        Want::Bool => matches!(j, Json::Bool(_)),
        Want::Obj => matches!(j, Json::Object(_)),
        Want::Arr => matches!(j, Json::Array(_)),
    }
}

impl JsonObject {
    /// The value of the first member named `key`.
    pub fn get(&self, key: &str) -> (r: Option<&Json>)
        ensures
            match r {
                Some(v) => self.spec_get(key@) == Some(*v),
                None => self.spec_get(key@) is None,
            },
    {
        let k = String::from_str(key);
        let mut i: usize = 0;
        while i < self.entries.len()
            invariant
                i <= self.entries@.len(),
                k@ == key@,
                self.spec_get(key@) == lookup_from(self.entries@, key@, i as int),
            decreases self.entries@.len() - i,
        {
            if self.entries[i].0 == k {
                return Some(&self.entries[i].1);
            }
            i = i + 1;
        }
        None
    }
}

/// The value under the first candidate key that is present and of the
/// wanted type.
pub fn find<'a>(obj: &'a JsonObject, keys: &[&str], w: Want) -> (r: Option<&'a Json>)
    ensures
        match r {
            Some(v) => pick(*obj, keys@, w) == Some(*v),
            None => pick(*obj, keys@, w) is None,
        },
{
    let mut i: usize = 0;
    while i < keys.len()
        invariant
            i <= keys@.len(),
            pick(*obj, keys@, w) == pick_from(*obj, keys@, w, i as int),
        decreases keys@.len() - i,
    {
        let key: &str = keys[i];
        match obj.get(key) {
            Some(v) => {
                if fits_exec(v, w) {
                    return Some(v);
                }
            },
            None => {},
        }
        i = i + 1;
    }
    None
}

/// A record that can be read from a JSON object. Reading never fails: a
/// field whose member is missing or of another type is `None`.
pub trait Parse: Sized {
    spec fn spec_parse(obj: JsonObject) -> Self;

    fn parse(obj: &JsonObject) -> (r: Self)
        ensures
            r == Self::spec_parse(*obj),
    ;
}

pub open spec fn spec_string(obj: JsonObject, keys: Seq<&str>) -> Option<String> {
    match pick(obj, keys, Want::Str) {
        Some(Json::Str(s)) => Some(s),
        _ => None,
    }
}

pub open spec fn spec_i64(obj: JsonObject, keys: Seq<&str>) -> Option<i64> {
    match pick(obj, keys, Want::Int) {
        Some(Json::Number(n)) => n.int,
        _ => None,
    }
}

pub open spec fn spec_number(obj: JsonObject, keys: Seq<&str>) -> Option<Number> {
    match pick(obj, keys, Want::Num) {
        Some(Json::Number(n)) => Some(n),
        _ => None,
    }
}

pub open spec fn spec_bool(obj: JsonObject, keys: Seq<&str>) -> Option<bool> {
    match pick(obj, keys, Want::Bool) {
        Some(Json::Bool(b)) => Some(b),
        _ => None,
    }
}

pub open spec fn spec_object(obj: JsonObject, keys: Seq<&str>) -> Option<JsonObject> {
    match pick(obj, keys, Want::Obj) {
        Some(Json::Object(o)) => Some(o),
        _ => None,
    }
}

/// The records read from the elements of `items` that are objects, in
/// order; other elements are skipped.
pub open spec fn parse_objects<T: Parse>(items: Seq<Json>) -> Seq<T>
    decreases items.len(),
{
    if items.len() == 0 {
        Seq::empty()
    } else {
        let rest = parse_objects::<T>(items.drop_last());
        match items.last() {
            Json::Object(o) => rest.push(T::spec_parse(o)),
            _ => rest,
        }
    }
}

pub open spec fn spec_array<T: Parse>(obj: JsonObject, keys: Seq<&str>) -> Option<Seq<T>> {
    match pick(obj, keys, Want::Arr) {
        Some(Json::Array(items)) => Some(parse_objects::<T>(items@)),
        _ => None,
    }
}

/// The members of an object whose values are numbers, in order.
pub open spec fn number_members(entries: Seq<(String, Json)>) -> Seq<(String, Number)>
    decreases entries.len(),
{
    if entries.len() == 0 {
        Seq::empty()
    } else {
        let rest = number_members(entries.drop_last());
        match entries.last().1 {
            Json::Number(n) => rest.push((entries.last().0, n)),
            _ => rest,
        }
    }
}

pub open spec fn spec_number_map(obj: JsonObject, keys: Seq<&str>) -> Option<Seq<(String, Number)>> {
    match pick(obj, keys, Want::Obj) {
        Some(Json::Object(o)) => Some(number_members(o.entries@)),
        _ => None,
    }
}

pub fn copy_number(n: &Number) -> (r: Number)
    ensures
        r == *n,
{
    Number { int: n.int, text: n.text.clone() }
}

/// The first string under the candidate keys.
pub fn string_parse(obj: &JsonObject, keys: &[&str]) -> (r: Option<String>)
    ensures
        r == spec_string(*obj, keys@),
{
    match find(obj, keys, Want::Str) {
        Some(Json::Str(s)) => Some(s.clone()),
        _ => None,
    }
}

/// The first integer under the candidate keys that fits `i64`.
pub fn i64_parse(obj: &JsonObject, keys: &[&str]) -> (r: Option<i64>)
    ensures
        r == spec_i64(*obj, keys@),
{
    match find(obj, keys, Want::Int) {
        Some(Json::Number(n)) => n.int,
        _ => None,
    }
}

/// The first number under the candidate keys.
pub fn number_parse(obj: &JsonObject, keys: &[&str]) -> (r: Option<Number>)
    ensures
        r == spec_number(*obj, keys@),
{
    match find(obj, keys, Want::Num) {
        Some(Json::Number(n)) => Some(copy_number(n)),
        _ => None,
    }
}

/// The first boolean under the candidate keys.
pub fn bool_parse(obj: &JsonObject, keys: &[&str]) -> (r: Option<bool>)
    ensures
        r == spec_bool(*obj, keys@),
{
    match find(obj, keys, Want::Bool) {
        Some(Json::Bool(b)) => Some(*b),
        _ => None,
    }
}

/// The first nested object under the candidate keys.
pub fn object<'a>(obj: &'a JsonObject, keys: &[&str]) -> (r: Option<&'a JsonObject>)
    ensures
        match r {
            Some(o) => spec_object(*obj, keys@) == Some(*o),
            None => spec_object(*obj, keys@) is None,
        },
{
    match find(obj, keys, Want::Obj) {
        Some(Json::Object(o)) => Some(o),
        _ => None,
    }
}

/// The first array under the candidate keys, each object element read as a
/// record and every other element skipped.
pub fn array_parse<T: Parse>(obj: &JsonObject, keys: &[&str]) -> (r: Option<Vec<T>>)
    ensures
        match r {
            Some(v) => spec_array::<T>(*obj, keys@) == Some(v@),
            None => spec_array::<T>(*obj, keys@) is None,
        },
{
    let items = match find(obj, keys, Want::Arr) {
        Some(Json::Array(items)) => items,
        _ => {
            return None;
        },
    };
    let mut out: Vec<T> = Vec::new();
    let mut i: usize = 0;
    while i < items.len()
        invariant
            i <= items@.len(),
            out@ == parse_objects::<T>(items@.subrange(0, i as int)),
        decreases items@.len() - i,
    {
        assert(items@.subrange(0, i as int + 1).drop_last() =~= items@.subrange(0, i as int));
        match &items[i] {
            Json::Object(o) => {
                out.push(T::parse(o));
            },
            _ => {},
        }
        i = i + 1;
    }
    assert(items@.subrange(0, items@.len() as int) =~= items@);
    Some(out)
}

/// The number-valued members of the first object under the candidate keys.
pub fn number_map_parse(obj: &JsonObject, keys: &[&str]) -> (r: Option<Vec<(String, Number)>>)
    ensures
        match r {
            Some(v) => spec_number_map(*obj, keys@) == Some(v@),
            None => spec_number_map(*obj, keys@) is None,
        },
{
    let inner = match object(obj, keys) {
        Some(o) => o,
        None => {
            return None;
        },
    };
    let entries = &inner.entries;
    let mut out: Vec<(String, Number)> = Vec::new();
    let mut i: usize = 0;
    while i < entries.len()
        invariant
            i <= entries@.len(),
            out@ == number_members(entries@.subrange(0, i as int)),
        decreases entries@.len() - i,
    {
        assert(entries@.subrange(0, i as int + 1).drop_last() =~= entries@.subrange(0, i as int));
        match &entries[i].1 {
            Json::Number(n) => {
                out.push((entries[i].0.clone(), copy_number(n)));
            },
            _ => {},
        }
        i = i + 1;
    }
    assert(entries@.subrange(0, entries@.len() as int) =~= entries@);
    Some(out)
}

/// A list of one candidate key.
pub fn key1<'a>(a: &'a str) -> (r: [&'a str; 1])
    ensures
        r@ == seq![a],
{
    let r = [a];
    assert(r@ =~= seq![a]);
    r
}

/// A list of two candidate keys, tried in this order.
pub fn key2<'a>(a: &'a str, b: &'a str) -> (r: [&'a str; 2])
    ensures
        r@ == seq![a, b],
{
    let r = [a, b];
    assert(r@ =~= seq![a, b]);
    r
}

pub open spec fn spec_record<T: Parse>(obj: JsonObject, keys: Seq<&str>) -> Option<T> {
    match spec_object(obj, keys) {
        Some(o) => Some(T::spec_parse(o)),
        None => None,
    }
}

/// The first nested object under the candidate keys, read as a record.
pub fn object_parse<T: Parse>(obj: &JsonObject, keys: &[&str]) -> (r: Option<T>)
    ensures
        r == spec_record::<T>(*obj, keys@),
{
    match object(obj, keys) {
        Some(o) => Some(T::parse(o)),
        None => None,
    }
}

/// An optional vector holds exactly the elements of an optional sequence.
pub open spec fn opt_vec_is<T>(v: Option<Vec<T>>, s: Option<Seq<T>>) -> bool {
    match (v, s) {
        (Some(v), Some(s)) => v@ == s,
        (None, None) => true,
        _ => false,
    }
}

/// `j` writes an optional string: the string itself, or `null`.
pub open spec fn writes_str(j: Json, o: Option<String>) -> bool {
    match o {
        Some(s) => j == Json::Str(s),
        None => j is Null,
    }
}

/// `j` writes an optional number: the number itself, or `null`.
pub open spec fn writes_number(j: Json, o: Option<Number>) -> bool {
    match o {
        Some(n) => j == Json::Number(n),
        None => j is Null,
    }
}

/// `j` writes an optional integer: a number holding it, in decimal, or
/// `null`.
pub open spec fn writes_int(j: Json, o: Option<i64>) -> bool {
    match o {
        Some(v) => j is Number && j->Number_0.int == Some(v) && j->Number_0.text@ == int_text(
            v as int,
        ),
        None => j is Null,
    }
}

pub fn str_json(o: &Option<String>) -> (r: Json)
    ensures
        writes_str(r, *o),
{
    match o {
        Some(s) => Json::Str(s.clone()),
        None => Json::Null,
    }
}

pub fn number_json(o: &Option<Number>) -> (r: Json)
    ensures
        writes_number(r, *o),
{
    match o {
        Some(n) => Json::Number(copy_number(n)),
        None => Json::Null,
    }
}

pub fn int_json(o: Option<i64>) -> (r: Json)
    ensures
        writes_int(r, o),
{
    match o {
        Some(v) => Json::Number(Number::integer(v)),
        None => Json::Null,
    }
}

impl Number {
    /// An integer.
    pub fn integer(v: i64) -> (r: Number)
        ensures
            r.int == Some(v),
            r.text@ == int_text(v as int),
    {
        let mut text = String::new();
        push_int(&mut text, v);
        Number { int: Some(v), text }
    }

    /// A number that is not an integer within `i64`, kept as its text.
    pub fn other(text: &str) -> (r: Number)
        ensures
            r.int is None,
            r.text@ == text@,
    {
        Number { int: None, text: String::from_str(text) }
    }
}

impl JsonObject {
    /// An object with no members.
    pub fn new() -> (r: JsonObject)
        ensures
            r.entries@.len() == 0,
    {
        JsonObject { entries: Vec::new() }
    }

    /// Adds a member after the existing ones.
    pub fn insert(&mut self, key: &str, value: Json)
        ensures
            final(self).entries@.len() == old(self).entries@.len() + 1,
            final(self).entries@.drop_last() == old(self).entries@,
            final(self).entries@.last().0@ == key@,
            final(self).entries@.last().1 == value,
    {
        self.entries.push((String::from_str(key), value));
        assert(self.entries@.drop_last() =~= old(self).entries@);
    }
}

} // verus!
