//! JSON objects as the worker handles them: a list of members, each a key
//! with the JSON text of its value.
//!
//! Reading JSON text is left to `serde_json`. What it makes of a text is
//! named by the uninterpreted functions below; everything the worker does
//! with the members is defined and proved here.

use crate::text::{decimal, decimal_digits};
use std::collections::BTreeMap;
use vstd::prelude::*;

verus! {

/// The members of an object, as pairs of key and value text.
pub type Members = Seq<(Seq<char>, Seq<char>)>;

/// Whether `text` is one JSON value, as `serde_json` reads it.
pub uninterp spec fn json_valid(text: Seq<char>) -> bool;

/// The members of the JSON object `text`, in the order of their keys, each
/// value as it is written in `text`; `None` where `text` is no JSON object.
pub uninterp spec fn json_members(text: Seq<char>) -> Option<Members>;

/// The elements of the JSON array `text`, each as it is written in `text`;
/// `None` where `text` is no JSON array.
pub uninterp spec fn json_elements(text: Seq<char>) -> Option<Seq<Seq<char>>>;

/// The string that the JSON string literal `text` denotes; `None` where
/// `text` is no JSON string.
pub uninterp spec fn json_string(text: Seq<char>) -> Option<Seq<char>>;

/// The number that the JSON text `text` denotes, where it is a non-negative
/// integer below 2^64 written without fraction or exponent; `None` otherwise.
pub uninterp spec fn json_unsigned(text: Seq<char>) -> Option<u64>;

/// The JSON string literal that denotes `text`, quotes and escapes included.
pub uninterp spec fn json_quoted(text: Seq<char>) -> Seq<char>;

/// What a pair of texts holds.
pub open spec fn member_model(member: (String, String)) -> (Seq<char>, Seq<char>) {
    (member.0@, member.1@)
}

/// What a list of members holds.
pub open spec fn member_models(members: Seq<(String, String)>) -> Members {
    members.map_values(|m: (String, String)| member_model(m))
}

/// What a list of texts holds.
pub open spec fn text_models(texts: Seq<String>) -> Seq<Seq<char>> {
    texts.map_values(|t: String| t@)
}

/// `serde_json::from_str` at the type `&RawValue`: succeeds exactly on a text
/// that is one JSON value.
#[verifier::external_body]
pub(crate) fn read_valid(text: &str) -> (r: bool)
    ensures
        r == json_valid(text@),
{
    serde_json::from_str::<&serde_json::value::RawValue>(text).is_ok()
}

/// `serde_json::from_str` at the type `BTreeMap<String, &RawValue>`: the
/// members of an object, by ascending key, each value as written; for a key
/// that occurs twice the later value. Fails on anything but an object.
#[verifier::external_body]
pub(crate) fn read_members(text: &str) -> (r: Option<Vec<(String, String)>>)
    ensures
        r is Some <==> json_members(text@) is Some,
        r matches Some(v) ==> member_models(v@) == json_members(text@)->0,
{
    let parsed: Result<BTreeMap<String, &serde_json::value::RawValue>, serde_json::Error> =
        serde_json::from_str(text);
    parsed.ok().map(|m| m.into_iter().map(|(k, v)| (k, v.get().to_string())).collect())
}

/// `serde_json::from_str` at the type `Vec<&RawValue>`: the elements of an
/// array, each as written. Fails on anything but an array.
#[verifier::external_body]
pub(crate) fn read_elements(text: &str) -> (r: Option<Vec<String>>)
    ensures
        r is Some <==> json_elements(text@) is Some,
        r matches Some(v) ==> text_models(v@) == json_elements(text@)->0,
{
    let parsed: Result<Vec<&serde_json::value::RawValue>, serde_json::Error> =
        serde_json::from_str(text);
    parsed.ok().map(|v| v.into_iter().map(|e| e.get().to_string()).collect())
}

/// `serde_json::from_str` at the type `String`: the string that a JSON string
/// literal denotes. Fails on anything but a string.
#[verifier::external_body]
pub(crate) fn read_string(text: &str) -> (r: Option<String>)
    ensures
        r is Some <==> json_string(text@) is Some,
        r matches Some(s) ==> s@ == json_string(text@)->0,
{
    serde_json::from_str::<String>(text).ok()
}

/// `serde_json::from_str` at the type `u64`: the value of a non-negative
/// integer that fits. Fails on anything else.
#[verifier::external_body]
pub(crate) fn read_unsigned(text: &str) -> (r: Option<u64>)
    ensures
        r == json_unsigned(text@),
{
    serde_json::from_str::<u64>(text).ok()
}

/// `serde_json::to_string` at the type `str`: the JSON string literal for a
/// text. It cannot fail for a `str`.
#[verifier::external_body]
pub(crate) fn write_string(text: &str) -> (r: String)
    ensures
        r@ == json_quoted(text@),
{
    serde_json::to_string(text).unwrap_or_default()
}

/// The value text under the first member of `members` whose key is `key`.
pub open spec fn lookup(members: Members, key: Seq<char>) -> Option<Seq<char>>
    decreases members.len(),
{
    if members.len() == 0 {
        None
    } else if members.first().0 == key {
        Some(members.first().1)
    } else {
        lookup(members.drop_first(), key)
    }
}

/// `members` with `value` under `key`: in place of the first member with that
/// key, or at the end where there is none.
pub open spec fn assign(members: Members, key: Seq<char>, value: Seq<char>) -> Members
    decreases members.len(),
{
    if members.len() == 0 {
        seq![(key, value)]
    } else if members.first().0 == key {
        seq![(key, value)] + members.drop_first()
    } else {
        seq![members.first()] + assign(members.drop_first(), key, value)
    }
}

/// The members written one after the other, separated by commas.
pub open spec fn members_text(members: Members) -> Seq<char>
    decreases members.len(),
{
    if members.len() == 0 {
        Seq::empty()
    } else {
        let head = members_text(members.drop_last());
        let separator = if members.len() == 1 {
            Seq::<char>::empty()
        } else {
            seq![',']
        };
        head + separator + json_quoted(members.last().0) + seq![':'] + members.last().1
    }
}

/// The JSON text of the object with these members.
pub open spec fn object_text(members: Members) -> Seq<char> {
    seq!['{'] + members_text(members) + seq!['}']
}

/// The string under `key`, where the member exists and is a JSON string.
pub open spec fn string_at(members: Members, key: Seq<char>) -> Option<Seq<char>> {
    match lookup(members, key) {
        Some(value) => json_string(value),
        None => None,
    }
}

/// The number under `key`, where the member exists and is an unsigned integer.
pub open spec fn unsigned_at(members: Members, key: Seq<char>) -> Option<u64> {
    match lookup(members, key) {
        Some(value) => json_unsigned(value),
        None => None,
    }
}

/// The members of the object `text`, none where it is no object.
pub open spec fn members_or_none(text: Seq<char>) -> Members {
    match json_members(text) {
        Some(members) => members,
        None => Seq::empty(),
    }
}

/// A value assigned to a key is found under that key.
pub proof fn lemma_lookup_assigned(members: Members, key: Seq<char>, value: Seq<char>)
    ensures
        lookup(assign(members, key, value), key) == Some(value),
    decreases members.len(),
{
    if members.len() == 0 {
    } else if members.first().0 == key {
    } else {
        lemma_lookup_assigned(members.drop_first(), key, value);
        assert((seq![members.first()] + assign(members.drop_first(), key, value)).drop_first()
            =~= assign(members.drop_first(), key, value));
    }
}

/// Assigning to one key leaves what is found under every other key as it was.
pub proof fn lemma_lookup_other(
    members: Members,
    key: Seq<char>,
    value: Seq<char>,
    other: Seq<char>,
)
    requires
        other != key,
    ensures
        lookup(assign(members, key, value), other) == lookup(members, other),
    decreases members.len(),
{
    if members.len() == 0 {
        let single = seq![(key, value)];
        assert(single.drop_first() =~= Seq::empty());
        assert(lookup(single.drop_first(), other) is None);
        assert(lookup(single, other) is None);
    } else if members.first().0 == key {
        assert((seq![(key, value)] + members.drop_first()).drop_first() =~= members.drop_first());
    } else {
        lemma_lookup_other(members.drop_first(), key, value, other);
        assert((seq![members.first()] + assign(members.drop_first(), key, value)).drop_first()
            =~= assign(members.drop_first(), key, value));
    }
}

/// A JSON object whose members' values are kept as JSON text.
#[derive(Debug)]
pub struct JsonObject {
    members: Vec<(String, String)>,
}

impl View for JsonObject {
    type V = Members;

    closed spec fn view(&self) -> Members {
        member_models(self.members@)
    }
}

/// The text under the first of `members` whose key is `key`.
pub fn find<'a>(members: &'a Vec<(String, String)>, key: &str) -> (r: Option<&'a String>)
    ensures
        r is Some <==> lookup(member_models(members@), key@) is Some,
        r matches Some(value) ==> value@ == lookup(member_models(members@), key@)->0,
{
    let ghost all = member_models(members@);
    let wanted = key.to_string();
    let mut i: usize = 0;
    assert(all.skip(0) =~= all);
    while i < members.len()
        invariant
            i <= members.len(),
            wanted@ == key@,
            all == member_models(members@),
            lookup(all, key@) == lookup(all.skip(i as int), key@),
        decreases members.len() - i,
    {
        proof {
            let rest = all.skip(i as int);
            assert(rest.first() == member_model(members@[i as int]));
            assert(rest.drop_first() =~= all.skip(i + 1));
        }
        if members[i].0 == wanted {
            return Some(&members[i].1);
        }
        i += 1;
    }
    assert(all.skip(i as int).len() == 0);
    None
}

impl JsonObject {
    /// The object without members.
    pub fn new() -> (r: JsonObject)
        ensures
            r@ == Seq::<(Seq<char>, Seq<char>)>::empty(),
    {
        let r = JsonObject { members: Vec::new() };
        assert(r@ =~= Seq::empty());
        r
    }

    /// Reads the JSON object `text`.
    pub fn parse(text: &str) -> (r: Option<JsonObject>)
        ensures
            r is Some <==> json_members(text@) is Some,
            r matches Some(object) ==> object@ == json_members(text@)->0,
    {
        match read_members(text) {
            Some(members) => Some(JsonObject { members }),
            None => None,
        }
    }

    /// Reads the JSON object `text`; the object without members where `text`
    /// is no object.
    pub fn parse_or_empty(text: &str) -> (r: JsonObject)
        ensures
            r@ == members_or_none(text@),
    {
        match JsonObject::parse(text) {
            Some(object) => object,
            None => JsonObject::new(),
        }
    }

    /// The number of members.
    pub fn len(&self) -> (r: usize)
        ensures
            r == self@.len(),
    {
        self.members.len()
    }

    /// The value text under `key`.
    pub fn get(&self, key: &str) -> (r: Option<&String>)
        ensures
            r is Some <==> lookup(self@, key@) is Some,
            r matches Some(value) ==> value@ == lookup(self@, key@)->0,
    {
        find(&self.members, key)
    }

    /// The string under `key`, where the member exists and is a JSON string.
    pub fn string_member(&self, key: &str) -> (r: Option<String>)
        ensures
            r is Some <==> string_at(self@, key@) is Some,
            r matches Some(s) ==> s@ == string_at(self@, key@)->0,
    {
        match self.get(key) {
            Some(value) => read_string(value.as_str()),
            None => None,
        }
    }

    /// The number under `key`, where the member exists and is an unsigned
    /// integer.
    pub fn unsigned_member(&self, key: &str) -> (r: Option<u64>)
        ensures
            r == unsigned_at(self@, key@),
    {
        match self.get(key) {
            Some(value) => read_unsigned(value.as_str()),
            None => None,
        }
    }

    /// Puts `value`, a JSON text, under `key`: in place of the first member
    /// with that key, or at the end where there is none.
    fn set(&mut self, key: &str, value: String)
        ensures
            final(self)@ == assign(old(self)@, key@, value@),
    {
        let wanted = key.to_string();
        let mut i: usize = 0;
        while i < self.members.len()
            invariant
                i <= self.members.len(),
                wanted@ == key@,
                *self == *old(self),
                forall|j: int| 0 <= j < i ==> (#[trigger] self@[j]).0 != key@,
            decreases self.members.len() - i,
        {
            assert(self@[i as int] == member_model(self.members@[i as int]));
            if self.members[i].0 == wanted {
                proof {
                    lemma_assign_found(self@, key@, value@, i as int);
                }
                self.members.set(i, (wanted, value));
                assert(self@ =~= old(self)@.update(i as int, (key@, value@)));
                return ;
            }
            i += 1;
        }
        proof {
            lemma_assign_absent(self@, key@, value@);
        }
        self.members.push((wanted, value));
        assert(self@ =~= old(self)@.push((key@, value@)));
    }

    /// Puts the JSON string that denotes `text` under `key`.
    pub fn set_string(&mut self, key: &str, text: &str)
        ensures
            final(self)@ == assign(old(self)@, key@, json_quoted(text@)),
    {
        self.set(key, write_string(text));
    }

    /// Puts the number `value` under `key`.
    pub fn set_unsigned(&mut self, key: &str, value: u32)
        ensures
            final(self)@ == assign(old(self)@, key@, decimal_digits(value as nat)),
    {
        self.set(key, decimal(value));
    }

    /// The JSON text of the object.
    pub fn render(&self) -> (r: String)
        ensures
            r@ == object_text(self@),
    {
        proof {
            reveal_strlit("{");
            reveal_strlit("}");
            reveal_strlit(",");
            reveal_strlit(":");
        }
        let mut out = "{".to_string();
        assert(out@ =~= seq!['{'] + members_text(self@.take(0)));
        let mut i: usize = 0;
        while i < self.members.len()
            invariant
                i <= self.members.len(),
                out@ == seq!['{'] + members_text(self@.take(i as int)),
                ","@ == seq![','],
                ":"@ == seq![':'],
            decreases self.members.len() - i,
        {
            proof {
                let head = self@.take(i + 1);
                assert(head.drop_last() =~= self@.take(i as int));
                assert(head.last() == member_model(self.members@[i as int]));
            }
            if i > 0 {
                out.append(",");
            }
            let key = write_string(self.members[i].0.as_str());
            out.append(key.as_str());
            out.append(":");
            out.append(self.members[i].1.as_str());
            assert(out@ =~= seq!['{'] + members_text(self@.take(i + 1)));
            i += 1;
        }
        assert(self@.take(i as int) =~= self@);
        out.append("}");
        out
    }
}

proof fn lemma_assign_found(members: Members, key: Seq<char>, value: Seq<char>, at: int)
    requires
        0 <= at < members.len(),
        members[at].0 == key,
        forall|j: int| 0 <= j < at ==> (#[trigger] members[j]).0 != key,
    ensures
        assign(members, key, value) == members.update(at, (key, value)),
    decreases at,
{
    if at == 0 {
        assert(seq![(key, value)] + members.drop_first() =~= members.update(0, (key, value)));
    } else {
        let rest = members.drop_first();
        assert(members[0].0 != key);
        assert forall|j: int| 0 <= j < at - 1 implies (#[trigger] rest[j]).0 != key by {
            assert(rest[j] == members[j + 1]);
        }
        lemma_assign_found(rest, key, value, at - 1);
        assert(seq![members.first()] + rest.update(at - 1, (key, value)) =~= members.update(
            at,
            (key, value),
        ));
    }
}

proof fn lemma_assign_absent(members: Members, key: Seq<char>, value: Seq<char>)
    requires
        forall|j: int| 0 <= j < members.len() ==> (#[trigger] members[j]).0 != key,
    ensures
        assign(members, key, value) == members.push((key, value)),
    decreases members.len(),
{
    if members.len() == 0 {
        assert(seq![(key, value)] =~= members.push((key, value)));
    } else {
        let rest = members.drop_first();
        assert(members[0].0 != key);
        assert forall|j: int| 0 <= j < rest.len() implies (#[trigger] rest[j]).0 != key by {
            assert(rest[j] == members[j + 1]);
        }
        lemma_assign_absent(rest, key, value);
        assert(seq![members.first()] + rest.push((key, value)) =~= members.push((key, value)));
    }
}

} // verus!
