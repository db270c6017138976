//! Raw structured documents: the tree of primitives a design file arrives as.

use vstd::prelude::*;

verus! {

/// A number, kept exactly as it was read.
///
/// * `PosInt` holds an integer that is not negative.
/// * `NegInt` holds a signed integer; a parser uses it for those below zero.
/// * `Float` holds the IEEE-754 bit pattern of a finite double.
#[derive(Clone, Copy, Debug, PartialEq, Eq)]
pub enum Number {
    PosInt(u64),
    NegInt(i64),
    Float(u64),
}

/// A raw structured value: what a document is before it is decoded. An
/// object keeps its members in the order it was given them; where a key
/// occurs more than once the last member wins.
#[derive(Debug, PartialEq, Eq)]
pub enum Raw {
    Null,
    Bool(bool),
    Number(Number),
    String(String),
    Array(Vec<Raw>),
    Object(Vec<(String, Raw)>),
}

/// The mathematical model of a `Raw`.
pub enum Json {
    Null,
    Bool(bool),
    Number(Number),
    String(Seq<char>),
    Array(Seq<Json>),
    Object(Seq<(Seq<char>, Json)>),
}

/// The model of a raw value, member by member and item by item.
pub open spec fn model(v: Raw) -> Json
    decreases v,
{
    match v {
        Raw::Null => Json::Null,
        Raw::Bool(b) => Json::Bool(b),
        Raw::Number(n) => Json::Number(n),
        Raw::String(s) => Json::String(s@),
        Raw::Array(items) => Json::Array(
            Seq::new(
                items@.len(),
                |i: int|
                    if 0 <= i < items@.len() {
                        model(items@[i])
                    } else {
                        Json::Null
                    },
            ),
        ),
        Raw::Object(members) => Json::Object(
            Seq::new(
                members@.len(),
                |i: int|
                    if 0 <= i < members@.len() {
                        (members@[i].0@, model(members@[i].1))
                    } else {
                        (Seq::empty(), Json::Null)
                    },
            ),
        ),
    }
}

impl View for Raw {
    type V = Json;

    open spec fn view(&self) -> Json {
        model(*self)
    }
}

/// The value that the last member named `key` holds, if any member has that name.
pub open spec fn member(members: Seq<(Seq<char>, Json)>, key: Seq<char>) -> Option<Json>
    decreases members.len(),
{
    if members.len() == 0 {
        None
    } else if members.last().0 == key {
        Some(members.last().1)
    } else {
        member(members.drop_last(), key)
    }
}

/// `==` on `str`, as std defines it: true exactly when the two slices hold
/// the same characters.
#[verifier::external_body]
pub(crate) fn same_text(a: &str, b: &str) -> (r: bool)
    ensures
        r == (a@ == b@),
{
    a == b
}

/// The models of a list of raw values, item by item.
pub open spec fn items_view(items: Seq<Raw>) -> Seq<Json> {
    Seq::new(items.len(), |i: int| items[i]@)
}

/// The models of a list of members, item by item.
pub open spec fn members_view(members: Seq<(String, Raw)>) -> Seq<(Seq<char>, Json)> {
    Seq::new(members.len(), |i: int| (members[i].0@, members[i].1@))
}

/// The model of an array is the array of the models of its items.
pub proof fn lemma_array_view(items: Vec<Raw>)
    ensures
        Raw::Array(items)@ == Json::Array(items_view(items@)),
{
    assert(Raw::Array(items)@->Array_0 =~= items_view(items@));
}

/// The model of an object is the object of the models of its members.
pub proof fn lemma_object_view(members: Vec<(String, Raw)>)
    ensures
        Raw::Object(members)@ == Json::Object(members_view(members@)),
{
    assert(Raw::Object(members)@->Object_0 =~= members_view(members@));
}

/// A member's value is smaller than the members it is found among.
pub proof fn lemma_member_decreases(members: Seq<(Seq<char>, Json)>, key: Seq<char>)
    ensures
        member(members, key) matches Some(v) ==> decreases_to!(members => v),
    decreases members.len(),
{
    if members.len() > 0 {
        if members.last().0 == key {
            assert(decreases_to!(members => members[members.len() - 1].1));
        } else {
            lemma_member_decreases(members.drop_last(), key);
            if member(members.drop_last(), key) is Some {
                assert(decreases_to!(members => members.subrange(0, members.len() - 1)));
            }
        }
    }
}

impl Raw {
    /// The field `key` of an object, by reference.
    pub fn get(&self, key: &str) -> (r: Option<&Raw>)
        ensures
            match r {
                Some(v) => self@.field(key@) == Some(v@),
                None => self@.field(key@) is None,
            },
    {
        match self {
            Raw::Object(members) => {
                let ghost all = self@->Object_0;
                proof {
                    lemma_object_view(*members);
                }
                let mut i: usize = members.len();
                assert(all.take(i as int) =~= all);
                while i > 0
                    invariant
                        i <= members.len(),
                        self@ == Json::Object(all),
                        all == members_view(members@),
                        member(all, key@) == member(all.take(i as int), key@),
                    decreases i,
                {
                    i -= 1;
                    proof {
                        assert(all.take(i + 1).drop_last() =~= all.take(i as int));
                        assert(all.take(i + 1).last() == all[i as int]);
                    }
                    if same_text(members[i].0.as_str(), key) {
                        assert(member(all.take(i + 1), key@) == Some(all[i as int].1));
                        return Some(&members[i].1);
                    }
                }
                None
            },
            _ => None,
        }
    }

    /// A deep copy.
    pub fn duplicate(&self) -> (r: Raw)
        ensures
            r@ == self@,
        decreases self,
    {
        match self {
            Raw::Null => Raw::Null,
            Raw::Bool(b) => Raw::Bool(*b),
            Raw::Number(n) => Raw::Number(*n),
            Raw::String(s) => Raw::String(s.clone()),
            Raw::Array(items) => {
                let mut out: Vec<Raw> = Vec::new();
                let mut i: usize = 0;
                while i < items.len()
                    invariant
                        i <= items.len(),
                        out.len() == i,
                        *self matches Raw::Array(v) && v == *items,
                        forall|j: int| 0 <= j < i ==> out@[j]@ == items@[j]@,
                    decreases items.len() - i,
                {
                    out.push(items[i].duplicate());
                    i += 1;
                }
                let r = Raw::Array(out);
                assert(r@->Array_0 =~= self@->Array_0);
                r
            },
            Raw::Object(members) => {
                let mut out: Vec<(String, Raw)> = Vec::new();
                let mut i: usize = 0;
                while i < members.len()
                    invariant
                        i <= members.len(),
                        out.len() == i,
                        *self matches Raw::Object(v) && v == *members,
                        forall|j: int|
                            0 <= j < i ==> out@[j].0@ == members@[j].0@ && out@[j].1@
                                == members@[j].1@,
                    decreases members.len() - i,
                {
                    out.push((members[i].0.clone(), members[i].1.duplicate()));
                    i += 1;
                }
                let r = Raw::Object(out);
                assert(r@->Object_0 =~= self@->Object_0);
                r
            },
        }
    }
}

impl Json {
    /// The field `key` of an object; `None` for a missing field and for
    /// anything that is not an object.
    pub open spec fn field(self, key: Seq<char>) -> Option<Json> {
        match self {
            Json::Object(members) => member(members, key),
            _ => None,
        }
    }
}

} // verus!
