//! JSON values as the records of this library read and write them.

use vstd::prelude::*;
use vstd::string::*;

verus! {

/// A JSON value. Numbers are integers: no record here holds another kind.
#[derive(Debug)]
pub enum Value {
    Null,
    Bool(bool),
    Int(i64),
    Text(String),
    Array(Vec<Value>),
    Object(Vec<Member>),
}

/// One member of an object.
#[derive(Debug)]
pub struct Member {
    pub name: String,
    pub value: Value,
}

/// What a JSON value holds.
pub enum Json {
    Null,
    Bool(bool),
    Int(i64),
    Text(Seq<char>),
    Array(Seq<Json>),
    Object(Seq<(Seq<char>, Json)>),
}

impl Value {
    /// What the value holds.
    pub open spec fn json(self) -> Json
        decreases self,
    {
        match self {
            Value::Null => Json::Null,
            Value::Bool(b) => Json::Bool(b),
            Value::Int(n) => Json::Int(n),
            Value::Text(s) => Json::Text(s@),
            Value::Array(items) => Json::Array(items_json(items@)),
            Value::Object(members) => Json::Object(members_json(members@)),
        }
    }
}

/// What the items of an array hold, in order.
pub open spec fn items_json(items: Seq<Value>) -> Seq<Json>
    decreases items,
{
    if items.len() == 0 {
        Seq::empty()
    } else {
        items_json(items.drop_last()).push(items.last().json())
    }
}

/// What the members of an object hold, in order.
pub open spec fn members_json(members: Seq<Member>) -> Seq<(Seq<char>, Json)>
    decreases members,
{
    if members.len() == 0 {
        Seq::empty()
    } else {
        members_json(members.drop_last()).push((members.last().name@, members.last().value.json()))
    }
}

impl View for Value {
    type V = Json;

    open spec fn view(&self) -> Json {
        self.json()
    }
}

impl View for Member {
    type V = (Seq<char>, Json);

    open spec fn view(&self) -> (Seq<char>, Json) {
        (self.name@, self.value@)
    }
}

/// An array holds as many values as it has items, and at each place what
/// the item there holds.
pub proof fn lemma_items_json(items: Seq<Value>)
    ensures
        items_json(items).len() == items.len(),
        forall|i: int| 0 <= i < items.len() ==> #[trigger] items_json(items)[i] == items[i]@,
    decreases items.len(),
{
    if items.len() > 0 {
        lemma_items_json(items.drop_last());
    }
}

/// An object holds as many members as it has, and at each place the name
/// and what the value there holds.
pub proof fn lemma_members_json(members: Seq<Member>)
    ensures
        members_json(members).len() == members.len(),
        forall|i: int| 0 <= i < members.len() ==> #[trigger] members_json(members)[i] == members[i]@,
    decreases members.len(),
{
    if members.len() > 0 {
        lemma_members_json(members.drop_last());
    }
}

impl Clone for Value {
    fn clone(&self) -> (copy: Value)
        ensures
            copy@ == self@,
        decreases self,
    {
        match self {
            Value::Null => Value::Null,
            Value::Bool(b) => Value::Bool(*b),
            Value::Int(n) => Value::Int(*n),
            Value::Text(s) => Value::Text(s.clone()),
            Value::Array(items) => {
                let mut copies: Vec<Value> = Vec::new();
                let mut i: usize = 0;
                while i < items.len()
                    invariant
                        i <= items@.len(),
                        *self == Value::Array(*items),
                        copies@.len() == i,
                        forall|j: int| 0 <= j < i ==> copies@[j]@ == items@[j]@,
                    decreases items@.len() - i,
                {
                    proof {
                        assert(decreases_to!(*self => self->Array_0));
                        assert(decreases_to!(*items => items[i as int]));
                    }
                    copies.push(items[i].clone());
                    i += 1;
                }
                proof {
                    lemma_items_json(copies@);
                    lemma_items_json(items@);
                    assert(items_json(copies@) =~= items_json(items@));
                }
                Value::Array(copies)
            },
            Value::Object(members) => {
                let mut copies: Vec<Member> = Vec::new();
                let mut i: usize = 0;
                while i < members.len()
                    invariant
                        i <= members@.len(),
                        *self == Value::Object(*members),
                        copies@.len() == i,
                        forall|j: int| 0 <= j < i ==> copies@[j]@ == members@[j]@,
                    decreases members@.len() - i,
                {
                    let member = &members[i];
                    proof {
                        assert(decreases_to!(*self => self->Object_0));
                        assert(decreases_to!(*members => members[i as int]));
                        assert(decreases_to!(*member => member.value));
                    }
                    copies.push(Member { name: member.name.clone(), value: member.value.clone() });
                    i += 1;
                }
                proof {
                    lemma_members_json(copies@);
                    lemma_members_json(members@);
                    assert(members_json(copies@) =~= members_json(members@));
                }
                Value::Object(copies)
            },
        }
    }
}

impl Clone for Member {
    fn clone(&self) -> (copy: Member)
        ensures
            copy@ == self@,
    {
        Member { name: self.name.clone(), value: self.value.clone() }
    }
}

/// What an optional value holds.
pub open spec fn json_of(value: Option<Value>) -> Option<Json> {
    match value {
        Some(v) => Some(v@),
        None => None,
    }
}

/// What a value that was found holds.
pub open spec fn json_at(found: Option<&Value>) -> Option<Json> {
    match found {
        Some(v) => Some(v@),
        None => None,
    }
}

/// The value under `name`: that of the last member of this name, if there
/// is one.
pub open spec fn find(members: Seq<(Seq<char>, Json)>, name: Seq<char>) -> Option<Json>
    decreases members.len(),
{
    if members.len() == 0 {
        None
    } else if members.last().0 == name {
        Some(members.last().1)
    } else {
        find(members.drop_last(), name)
    }
}

/// No member where the value is absent, one member where it is present.
pub open spec fn field(name: Seq<char>, value: Option<Json>) -> Seq<(Seq<char>, Json)> {
    match value {
        Some(v) => seq![(name, v)],
        None => Seq::empty(),
    }
}

/// In two objects joined, the second decides where it has the name.
pub proof fn lemma_find_concat(
    a: Seq<(Seq<char>, Json)>,
    b: Seq<(Seq<char>, Json)>,
    name: Seq<char>,
)
    ensures
        find(a + b, name) == match find(b, name) {
            Some(v) => Some(v),
            None => find(a, name),
        },
    decreases b.len(),
{
    if b.len() == 0 {
        assert(a + b =~= a);
    } else {
        lemma_find_concat(a, b.drop_last(), name);
        assert((a + b).drop_last() =~= a + b.drop_last());
        assert((a + b).last() == b.last());
    }
}

/// A field is found under its own name and under no other.
pub proof fn lemma_find_field(name: Seq<char>, value: Option<Json>, at: Seq<char>)
    ensures
        find(field(name, value), at) == if name == at {
            value
        } else {
            None
        },
{
    if value is Some {
        assert(field(name, value).drop_last() =~= Seq::empty());
        assert(find(field(name, value).drop_last(), at) is None);
    }
}

/// Looks a member up by its name.
pub fn find_member<'a>(members: &'a Vec<Member>, name: &str) -> (found: Option<&'a Value>)
    ensures
        json_at(found) == find(members_json(members@), name@),
{
    let wanted = name.to_owned();
    let mut i: usize = members.len();
    proof {
        lemma_members_json(members@);
        assert(members_json(members@).take(i as int) == members_json(members@));
    }
    while i > 0
        invariant
            i <= members@.len(),
            wanted@ == name@,
            members_json(members@).len() == members@.len(),
            forall|j: int|
                0 <= j < members@.len() ==> #[trigger] members_json(members@)[j] == members@[j]@,
            find(members_json(members@), name@) == find(
                members_json(members@).take(i as int),
                name@,
            ),
        decreases i,
    {
        proof {
            let all = members_json(members@);
            assert(all.take(i as int).drop_last() == all.take(i - 1));
            assert(all.take(i as int).last() == all[i - 1]);
        }
        i -= 1;
        if members[i].name == wanted {
            return Some(&members[i].value);
        }
    }
    None
}

/// Adds a member at the end of an object, where there is a value.
pub fn push_field(members: &mut Vec<Member>, name: &str, value: Option<Value>)
    ensures
        members_json(final(members)@) == members_json(old(members)@) + field(
            name@,
            json_of(value),
        ),
{
    match value {
        Some(v) => {
            members.push(Member { name: name.to_owned(), value: v });
        },
        None => {},
    }
    proof {
        lemma_members_json(members@);
        lemma_members_json(old(members)@);
        assert(members_json(members@) =~= members_json(old(members)@) + field(
            name@,
            json_of(value),
        ));
    }
}

/// Copies the members of an object.
pub fn clone_members(members: &Vec<Member>) -> (copies: Vec<Member>)
    ensures
        members_json(copies@) == members_json(members@),
{
    let mut copies: Vec<Member> = Vec::new();
    let mut i: usize = 0;
    while i < members.len()
        invariant
            i <= members@.len(),
            copies@.len() == i,
            forall|j: int| 0 <= j < i ==> copies@[j]@ == members@[j]@,
        decreases members@.len() - i,
    {
        copies.push(members[i].clone());
        i += 1;
    }
    proof {
        lemma_members_json(copies@);
        lemma_members_json(members@);
        assert(members_json(copies@) =~= members_json(members@));
    }
    copies
}

/// Copies the items of an array.
pub fn clone_items(items: &Vec<Value>) -> (copies: Vec<Value>)
    ensures
        items_json(copies@) == items_json(items@),
{
    let mut copies: Vec<Value> = Vec::new();
    let mut i: usize = 0;
    while i < items.len()
        invariant
            i <= items@.len(),
            copies@.len() == i,
            forall|j: int| 0 <= j < i ==> copies@[j]@ == items@[j]@,
        decreases items@.len() - i,
    {
        copies.push(items[i].clone());
        i += 1;
    }
    proof {
        lemma_items_json(copies@);
        lemma_items_json(items@);
        assert(items_json(copies@) =~= items_json(items@));
    }
    copies
}

} // verus!
