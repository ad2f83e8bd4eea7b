//! The JSON document model that the decoders read.

use vstd::prelude::*;

verus! {

/// A JSON number as the document wrote it: a non-negative integer, a negative
/// integer, or any other number kept as its decimal text.
#[derive(Debug)]
pub enum JsonNumber {
    PosInt(u64),
    NegInt(i64),
    Decimal(String),
}

/// One `"key": value` pair of a JSON object.
#[derive(Debug)]
pub struct JsonMember {
    pub key: String,
    pub value: Json,
}

/// A JSON value. Object members keep the order of the document.
#[derive(Debug)]
pub enum Json {
    Null,
    Bool(bool),
    Number(JsonNumber),
    Str(String),
    Array(Vec<Json>),
    Object(Vec<JsonMember>),
}

/// The value of the first member named `key`, if any.
pub open spec fn member(ms: Seq<JsonMember>, key: Seq<char>) -> Option<Json>
    decreases ms.len(),
{
    if ms.len() == 0 {
        None
    } else if ms[0].key@ == key {
        Some(ms[0].value)
    } else {
        member(ms.drop_first(), key)
    }
}

/// A member's value lies in the object that holds it.
pub proof fn lemma_member_in(ms: Seq<JsonMember>, key: Seq<char>)
    ensures
        member(ms, key) matches Some(v) ==> exists|i: int| 0 <= i < ms.len() && ms[i].value == v,
    decreases ms.len(),
{
    if ms.len() > 0 && ms[0].key@ != key {
        lemma_member_in(ms.drop_first(), key);
        if let Some(v) = member(ms, key) {
            let i = choose|i: int| 0 <= i < ms.drop_first().len() && ms.drop_first()[i].value == v;
            assert(ms[i + 1].value == v);
        }
    }
}

/// A member's value is structurally smaller than the object that holds it.
pub proof fn lemma_member_decreases(ms: Vec<JsonMember>, key: Seq<char>)
    ensures
        member(ms@, key) matches Some(v) ==> decreases_to!(Json::Object(ms) => v),
{
    lemma_member_in(ms@, key);
    if let Some(v) = member(ms@, key) {
        let i = choose|i: int| 0 <= i < ms@.len() && ms@[i].value == v;
        lemma_index_decreases(ms, i);
    }
}

/// The value of the `i`-th member is structurally smaller than the object.
pub proof fn lemma_index_decreases(ms: Vec<JsonMember>, i: int)
    requires
        0 <= i < ms@.len(),
    ensures
        decreases_to!(Json::Object(ms) => ms@[i].value),
{
    broadcast use vstd::std_specs::vec::axiom_vec_decreases_to_view;
    let j = Json::Object(ms);
    assert(decreases_to!(j => j->Object_0));
    assert(decreases_to!(ms => ms@));
    assert(decreases_to!(ms@ => ms@[i]));
    assert(decreases_to!(ms@[i] => ms@[i].value));
}

/// Character-wise equality of two strings.
pub fn str_eq(a: &str, b: &str) -> (r: bool)
    ensures
        r == (a@ == b@),
{
    let n = a.unicode_len();
    if n != b.unicode_len() {
        return false;
    }
    let mut i: usize = 0;
    while i < n
        invariant
            n == a@.len(),
            n == b@.len(),
            i <= n,
            forall|k: int| 0 <= k < i ==> a@[k] == b@[k],
        decreases n - i,
    {
        if a.get_char(i) != b.get_char(i) {
            return false;
        }
        i = i + 1;
    }
    assert(a@ =~= b@);
    true
}

proof fn lemma_member_skip(ms: Seq<JsonMember>, key: Seq<char>, i: int)
    requires
        0 <= i < ms.len(),
    ensures
        member(ms.skip(i), key) == if ms[i].key@ == key {
            Some(ms[i].value)
        } else {
            member(ms.skip(i + 1), key)
        },
{
    assert(ms.skip(i).drop_first() =~= ms.skip(i + 1));
}

/// The position of the first member named `key`.
pub fn find_member(ms: &Vec<JsonMember>, key: &str) -> (r: Option<usize>)
    ensures
        match r {
            Some(i) => i < ms@.len() && member(ms@, key@) == Some(ms@[i as int].value),
            None => member(ms@, key@) is None,
        },
{
    let mut i: usize = 0;
    assert(ms@.skip(0) =~= ms@);
    while i < ms.len()
        invariant
            i <= ms@.len(),
            member(ms@, key@) == member(ms@.skip(i as int), key@),
        decreases ms@.len() - i,
    {
        proof {
            lemma_member_skip(ms@, key@, i as int);
        }
        if str_eq(ms[i].key.as_str(), key) {
            return Some(i);
        }
        i = i + 1;
    }
    None
}

} // verus!
