//! JSON values: the structured form that the codec reads and writes.

use vstd::prelude::*;

verus! {

/// A JSON number.
#[derive(Copy, Clone, Debug, PartialEq, Eq)]
pub enum Number {
    /// A number written without fraction or exponent.
    Integer(i128),
    /// Any other number, as the bits of an IEEE 754 double.
    Real(u64),
}

/// A JSON value. An object keeps its members in the order in which they were
/// written, and may hold a key more than once.
#[derive(Debug, PartialEq, Eq)]
pub enum Value {
    Null,
    Bool(bool),
    Number(Number),
    String(String),
    Array(Vec<Value>),
    Object(Vec<(String, Value)>),
}

/// The mathematical form of a [`Value`].
pub enum Json {
    Null,
    Bool(bool),
    Number(Number),
    String(Seq<char>),
    Array(Seq<Json>),
    Object(Seq<(Seq<char>, Json)>),
}

/// What kind of value stands, or fails to stand, at some place of a document.
#[derive(Copy, Clone, Debug, PartialEq, Eq)]
pub enum Shape {
    /// No member has the key.
    Absent,
    /// More than one member has the key.
    Repeated,
    Null,
    Bool,
    Number,
    String,
    Array,
    Object,
}

/// What an object holds under a key.
pub enum Found {
    /// No member has the key.
    Absent,
    /// Exactly one member has the key, with this value.
    Once(Json),
    /// More than one member has the key.
    Repeated,
}

/// Where an object holds a key.
#[derive(Copy, Clone, Debug, PartialEq, Eq)]
pub enum Lookup {
    /// No member has the key.
    Absent,
    /// Exactly one member has the key, the one at this position.
    At(usize),
    /// More than one member has the key.
    Repeated,
}

impl Json {
    /// The kind of this value.
    pub open spec fn shape(self) -> Shape {
        match self {
            Json::Null => Shape::Null,
            Json::Bool(_) => Shape::Bool,
            Json::Number(_) => Shape::Number,
            Json::String(_) => Shape::String,
            Json::Array(_) => Shape::Array,
            Json::Object(_) => Shape::Object,
        }
    }
}

/// Whether the member at position `i` has the key `key`.
pub open spec fn has_key_at(members: Seq<(Seq<char>, Json)>, key: Seq<char>, i: int) -> bool {
    0 <= i < members.len() && members[i].0 == key
}

/// What the members of an object hold under `key`.
#[verifier::opaque]
pub open spec fn found(members: Seq<(Seq<char>, Json)>, key: Seq<char>) -> Found {
    if forall|i: int| !has_key_at(members, key, i) {
        Found::Absent
    } else {
        let first = choose|i: int| has_key_at(members, key, i);
        if forall|j: int| has_key_at(members, key, j) ==> j == first {
            Found::Once(members[first].1)
        } else {
            Found::Repeated
        }
    }
}

/// Where no member has the key, the object holds nothing under it.
pub proof fn found_absent(members: Seq<(Seq<char>, Json)>, key: Seq<char>)
    requires
        forall|i: int| !has_key_at(members, key, i),
    ensures
        found(members, key) is Absent,
{
    reveal(found);
}

/// Where exactly one member has the key, the object holds that member's value
/// under it.
pub proof fn found_once(members: Seq<(Seq<char>, Json)>, key: Seq<char>, i: int)
    requires
        has_key_at(members, key, i),
        forall|j: int| has_key_at(members, key, j) ==> j == i,
    ensures
        found(members, key) == Found::Once(members[i].1),
{
    reveal(found);
}

/// Where two members have the key, the object holds it more than once.
pub proof fn found_repeated(members: Seq<(Seq<char>, Json)>, key: Seq<char>, i: int, j: int)
    requires
        has_key_at(members, key, i),
        has_key_at(members, key, j),
        i != j,
    ensures
        found(members, key) is Repeated,
{
    reveal(found);
}

/// What an object holds under `key` once the member `(k, v)` is written
/// behind what it held before: a member with another key changes nothing, the
/// first one with this key is found, and a further one makes it repeated.
pub open spec fn found_after(before: Found, k: Seq<char>, v: Json, key: Seq<char>) -> Found {
    if k != key {
        before
    } else if before is Absent {
        Found::Once(v)
    } else {
        Found::Repeated
    }
}

/// Writing a member behind the others changes what the object holds under a
/// key as [`found_after`] says.
pub proof fn found_push(members: Seq<(Seq<char>, Json)>, k: Seq<char>, v: Json, key: Seq<char>)
    ensures
        found(members.push((k, v)), key) == found_after(found(members, key), k, v, key),
{
    let longer = members.push((k, v));
    let last = members.len() as int;
    assert forall|i: int| #[trigger]
        has_key_at(longer, key, i) <==> has_key_at(members, key, i) || (i == last && k == key) by {
        if 0 <= i < last {
            assert(longer[i] == members[i]);
        }
    }
    if forall|i: int| !has_key_at(members, key, i) {
        found_absent(members, key);
        if k == key {
            assert(has_key_at(longer, key, last));
            found_once(longer, key, last);
        } else {
            found_absent(longer, key);
        }
    } else {
        let i = choose|i: int| has_key_at(members, key, i);
        assert(has_key_at(longer, key, i));
        if forall|j: int| has_key_at(members, key, j) ==> j == i {
            found_once(members, key, i);
            if k == key {
                assert(has_key_at(longer, key, last));
                found_repeated(longer, key, i, last);
            } else {
                found_once(longer, key, i);
            }
        } else {
            let j = choose|j: int| has_key_at(members, key, j) && j != i;
            assert(has_key_at(longer, key, j));
            found_repeated(members, key, i, j);
            found_repeated(longer, key, i, j);
        }
    }
}

/// Taking out a member with another key changes nothing of what the object
/// holds under `key`.
pub proof fn found_without(members: Seq<(Seq<char>, Json)>, at: int, key: Seq<char>)
    requires
        0 <= at < members.len(),
        members[at].0 != key,
    ensures
        found(members.remove(at), key) == found(members, key),
{
    let shorter = members.remove(at);
    assert forall|i: int| #[trigger] has_key_at(shorter, key, i) implies has_key_at(
        members,
        key,
        position_before(at, i),
    ) by {
        assert(shorter[i] == members[position_before(at, i)]);
    }
    assert forall|i: int| #[trigger] has_key_at(members, key, i) implies has_key_at(
        shorter,
        key,
        position_after(at, i),
    ) by {
        assert(shorter[position_after(at, i)] == members[i]);
    }
    if forall|i: int| !has_key_at(members, key, i) {
        found_absent(members, key);
        found_absent(shorter, key);
    } else {
        let i = choose|i: int| has_key_at(members, key, i);
        let moved = position_after(at, i);
        assert(has_key_at(shorter, key, moved));
        assert(shorter[moved] == members[i]);
        if forall|j: int| has_key_at(members, key, j) ==> j == i {
            found_once(members, key, i);
            assert forall|j: int| has_key_at(shorter, key, j) implies j == moved by {
                assert(has_key_at(members, key, position_before(at, j)));
            }
            found_once(shorter, key, moved);
        } else {
            let j = choose|j: int| has_key_at(members, key, j) && j != i;
            assert(has_key_at(shorter, key, position_after(at, j)));
            found_repeated(members, key, i, j);
            found_repeated(shorter, key, moved, position_after(at, j));
        }
    }
}

/// The position that the member at `i` had before the member at `at` was
/// taken out.
pub open spec fn position_before(at: int, i: int) -> int {
    if i < at {
        i
    } else {
        i + 1
    }
}

/// The position that the member at `i` has after the member at `at` is taken
/// out.
pub open spec fn position_after(at: int, i: int) -> int {
    if i < at {
        i
    } else {
        i - 1
    }
}

/// The mathematical form of the items of an array. (No position outside the
/// array is ever read: the test on `i` is there for the termination check.)
pub open spec fn view_items(items: Seq<Value>) -> Seq<Json>
    decreases items,
{
    Seq::new(
        items.len(),
        |i: int|
            if 0 <= i < items.len() {
                items[i].view()
            } else {
                Json::Null
            },
    )
}

/// The mathematical form of the members of an object, each key with its
/// value.
pub open spec fn view_members(members: Seq<(String, Value)>) -> Seq<(Seq<char>, Json)>
    decreases members,
{
    Seq::new(
        members.len(),
        |i: int|
            if 0 <= i < members.len() {
                (members[i].0@, members[i].1.view())
            } else {
                (Seq::empty(), Json::Null)
            },
    )
}

impl View for Value {
    type V = Json;

    open spec fn view(&self) -> Json
        decreases self,
    {
        match self {
            Value::Null => Json::Null,
            Value::Bool(b) => Json::Bool(*b),
            Value::Number(n) => Json::Number(*n),
            Value::String(s) => Json::String(s@),
            Value::Array(items) => Json::Array(view_items(items@)),
            Value::Object(members) => Json::Object(view_members(members@)),
        }
    }
}

impl Value {
    /// The kind of this value.
    pub fn shape(&self) -> (r: Shape)
        ensures
            r == self@.shape(),
    {
        match self {
            Value::Null => Shape::Null,
            Value::Bool(_) => Shape::Bool,
            Value::Number(_) => Shape::Number,
            Value::String(_) => Shape::String,
            Value::Array(_) => Shape::Array,
            Value::Object(_) => Shape::Object,
        }
    }
}

impl Clone for Value {
    /// A copy that stands for the same JSON value.
    fn clone(&self) -> (r: Self)
        ensures
            r@ == self@,
        decreases self,
    {
        match self {
            Value::Null => Value::Null,
            Value::Bool(b) => Value::Bool(*b),
            Value::Number(n) => Value::Number(*n),
            Value::String(s) => Value::String(s.clone()),
            Value::Array(items) => {
                let mut copy: Vec<Value> = Vec::new();
                let mut i: usize = 0;
                while i < items.len()
                    invariant
                        i <= items.len(),
                        *self == Value::Array(*items),
                        copy@.len() == i,
                        forall|j: int| 0 <= j < i ==> (#[trigger] copy@[j])@ == items@[j]@,
                    decreases items.len() - i,
                {
                    proof {
                        assert(decreases_to!(*self => self->Array_0));
                        assert(decreases_to!(*items => items[i as int]));
                    }
                    copy.push(items[i].clone());
                    i += 1;
                }
                assert(view_items(copy@) =~= view_items(items@));
                Value::Array(copy)
            },
            Value::Object(members) => {
                let mut copy: Vec<(String, Value)> = Vec::new();
                let mut i: usize = 0;
                while i < members.len()
                    invariant
                        i <= members.len(),
                        *self == Value::Object(*members),
                        copy@.len() == i,
                        forall|j: int|
                            0 <= j < i ==> (#[trigger] copy@[j]).0@ == members@[j].0@ && copy@[j].1@
                                == members@[j].1@,
                    decreases members.len() - i,
                {
                    proof {
                        assert(decreases_to!(*self => self->Object_0));
                        assert(decreases_to!(*members => members[i as int]));
                        assert(decreases_to!(members[i as int] => members[i as int].1));
                    }
                    let key = members[i].0.clone();
                    let value = members[i].1.clone();
                    copy.push((key, value));
                    i += 1;
                }
                assert(view_members(copy@) =~= view_members(members@));
                Value::Object(copy)
            },
        }
    }
}

/// Looks `key` up among the members of an object.
pub fn lookup(members: &Vec<(String, Value)>, key: &str) -> (r: Lookup)
    ensures
        match r {
            Lookup::Absent => found(view_members(members@), key@) is Absent,
            Lookup::At(i) => {
                &&& i < members.len()
                &&& members[i as int].0@ == key@
                &&& found(view_members(members@), key@) == Found::Once(members[i as int].1@)
            },
            Lookup::Repeated => found(view_members(members@), key@) is Repeated,
        },
{
    let wanted = key.to_owned();
    let mut state = Lookup::Absent;
    let mut i: usize = 0;
    while i < members.len()
        invariant
            i <= members.len(),
            wanted@ == key@,
            match state {
                Lookup::Absent => forall|j: int| 0 <= j < i ==> (#[trigger] members[j]).0@ != key@,
                Lookup::At(k) => {
                    &&& k < i
                    &&& members[k as int].0@ == key@
                    &&& forall|j: int| 0 <= j < i && j != k ==> (#[trigger] members[j]).0@ != key@
                },
                Lookup::Repeated => exists|a: int, b: int|
                    0 <= a < b < i && (#[trigger] members[a]).0@ == key@ && (#[trigger] members[b]).0@
                        == key@,
            },
        decreases members.len() - i,
    {
        if members[i].0 == wanted {
            state = match state {
                Lookup::Absent => Lookup::At(i),
                _ => Lookup::Repeated,
            };
        }
        i += 1;
    }
    proof {
        let view = view_members(members@);
        assert forall|j: int|
            has_key_at(view, key@, j) <==> 0 <= j < members.len() && (#[trigger] members[j]).0@
                == key@ by {}
        match state {
            Lookup::Absent => {
                found_absent(view, key@);
            },
            Lookup::At(k) => {
                assert(has_key_at(view, key@, k as int));
                found_once(view, key@, k as int);
            },
            Lookup::Repeated => {
                let (a, b) = choose|a: int, b: int|
                    0 <= a < b < i && (#[trigger] members[a]).0@ == key@ && (#[trigger] members[b]).0@
                        == key@;
                assert(has_key_at(view, key@, a));
                assert(has_key_at(view, key@, b));
                found_repeated(view, key@, a, b);
            },
        }
    }
    state
}

} // verus!
