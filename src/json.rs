//! The JSON object form that values take on the wire: an ordered list of
//! members whose keys are distinct, each holding a scalar JSON value.
use vstd::prelude::*;

verus! {

/// A scalar JSON value. Numbers are the integers that fit in an `i64`.
#[derive(Clone, Debug)]
pub enum JsonValue {
    Null,
    Bool(bool),
    Number(i64),
    Str(String),
}

/// What a `JsonValue` stands for: text is seen as its characters.
pub ghost enum JsonValueView {
    Null,
    Bool(bool),
    Number(int),
    Str(Seq<char>),
}

impl View for JsonValue {
    type V = JsonValueView;

    open spec fn view(&self) -> JsonValueView {
        match self {
            JsonValue::Null => JsonValueView::Null,
            JsonValue::Bool(b) => JsonValueView::Bool(*b),
            JsonValue::Number(n) => JsonValueView::Number(*n as int),
            JsonValue::Str(s) => JsonValueView::Str(s@),
        }
    }
}

/// Two JSON values are equal when they are of the same kind and hold the same
/// content.
impl PartialEq for JsonValue {
    fn eq(&self, other: &JsonValue) -> (r: bool)
        ensures
            r == (self@ == other@),
    {
        match self {
            JsonValue::Null => match other {
                JsonValue::Null => true,
                _ => false,
            },
            JsonValue::Bool(a) => match other {
                JsonValue::Bool(b) => *a == *b,
                _ => false,
            },
            JsonValue::Number(a) => match other {
                JsonValue::Number(b) => *a == *b,
                _ => false,
            },
            JsonValue::Str(a) => match other {
                JsonValue::Str(b) => *a == *b,
                _ => false,
            },
        }
    }
}

impl vstd::std_specs::cmp::PartialEqSpecImpl for JsonValue {
    open spec fn obeys_eq_spec() -> bool {
        true
    }

    open spec fn eq_spec(&self, other: &JsonValue) -> bool {
        self@ == other@
    }
}

/// One member of an object seen as a key and a value.
pub type MemberView = (Seq<char>, JsonValueView);

/// No key occurs twice among `members`.
pub open spec fn keys_distinct(members: Seq<MemberView>) -> bool {
    forall|i: int, j: int|
        0 <= i < j < members.len() ==> #[trigger] members[i].0 != #[trigger] members[j].0
}

/// Some member of `members` has the key `key`.
pub open spec fn has_key(members: Seq<MemberView>, key: Seq<char>) -> bool {
    exists|i: int| 0 <= i < members.len() && #[trigger] members[i].0 == key
}

/// The position of the member with key `key`; meaningful where `has_key` holds.
pub open spec fn key_index(members: Seq<MemberView>, key: Seq<char>) -> int {
    choose|i: int| 0 <= i < members.len() && #[trigger] members[i].0 == key
}

/// The value under `key`, if any member has that key.
pub open spec fn lookup(members: Seq<MemberView>, key: Seq<char>) -> Option<JsonValueView> {
    if has_key(members, key) {
        Some(members[key_index(members, key)].1)
    } else {
        None
    }
}

/// `members` with `key` set to `value`: the member with that key is given the
/// new value in place, or, where there is none, a member is added at the end.
pub open spec fn put(members: Seq<MemberView>, key: Seq<char>, value: JsonValueView) -> Seq<
    MemberView,
> {
    if has_key(members, key) {
        members.update(key_index(members, key), (key, value))
    } else {
        members.push((key, value))
    }
}

/// A JSON object: its members in order, no key occurring twice.
#[derive(Debug)]
pub struct JsonObject {
    members: Vec<(String, JsonValue)>,
}

impl View for JsonObject {
    type V = Seq<MemberView>;

    closed spec fn view(&self) -> Seq<MemberView> {
        self.members@.map_values(|m: (String, JsonValue)| (m.0@, m.1@))
    }
}

impl JsonObject {
    #[verifier::type_invariant]
    spec fn members_distinct(&self) -> bool {
        keys_distinct(self@)
    }

    /// The empty object `{}`.
    pub fn new() -> (r: JsonObject)
        ensures
            r@ == Seq::<MemberView>::empty(),
    {
        let r = JsonObject { members: Vec::new() };
        assert(r@ =~= Seq::<MemberView>::empty());
        r
    }

    /// The number of members.
    pub fn len(&self) -> (r: usize)
        ensures
            r == self@.len(),
    {
        self.members.len()
    }

    /// Position of the member with key `key`, if there is one.
    fn position(&self, key: &String) -> (r: Option<usize>)
        ensures
            match r {
                Some(i) => i < self@.len() && self@[i as int].0 == key@ && has_key(self@, key@)
                    && key_index(self@, key@) == i,
                None => !has_key(self@, key@),
            },
    {
        proof {
            use_type_invariant(self);
        }
        let mut i: usize = 0;
        while i < self.members.len()
            invariant
                i <= self.members@.len(),
                self@.len() == self.members@.len(),
                keys_distinct(self@),
                forall|j: int| 0 <= j < i ==> #[trigger] self@[j].0 != key@,
            decreases self.members@.len() - i,
        {
            assert(self@[i as int] == (self.members@[i as int].0@, self.members@[i as int].1@));
            if self.members[i].0 == *key {
                proof {
                    assert(self@[i as int].0 == key@);
                    assert(has_key(self@, key@));
                    let j = key_index(self@, key@);
                    assert(self@[j].0 == key@);
                    assert(j == i as int) by {
                        if j < i as int {
                            assert(self@[j].0 != self@[i as int].0);
                        } else if j > i as int {
                            assert(self@[i as int].0 != self@[j].0);
                        }
                    }
                }
                return Some(i);
            }
            i = i + 1;
        }
        None
    }

    /// The value under `key`, if the object has a member with that key.
    pub fn get(&self, key: &str) -> (r: Option<&JsonValue>)
        ensures
            match r {
                Some(v) => lookup(self@, key@) == Some(v@),
                None => lookup(self@, key@) is None,
            },
    {
        let key = key.to_owned();
        match self.position(&key) {
            Some(i) => {
                assert(self@[i as int] == (self.members@[i as int].0@, self.members@[i as int].1@));
                Some(&self.members[i].1)
            },
            None => None,
        }
    }

    /// Sets the member `key` to `value`: a member with that key keeps its
    /// place and takes the new value; otherwise the member is added last.
    pub fn insert(&mut self, key: String, value: JsonValue)
        ensures
            final(self)@ == put(old(self)@, key@, value@),
    {
        proof {
            use_type_invariant(&*self);
        }
        let ghost before = self@;
        let pos = self.position(&key);
        let mut members: Vec<(String, JsonValue)> = Vec::new();
        std::mem::swap(&mut members, &mut self.members);
        let ghost new_member: MemberView = (key@, value@);
        match pos {
            Some(i) => {
                members.set(i, (key, value));
                assert(members@.map_values(|m: (String, JsonValue)| (m.0@, m.1@)) =~= before.update(
                    i as int,
                    new_member,
                ));
            },
            None => {
                members.push((key, value));
                assert(members@.map_values(|m: (String, JsonValue)| (m.0@, m.1@)) =~= before.push(
                    new_member,
                ));
            },
        }
        self.members = members;
    }
}

/// Two objects are equal when they hold the same members in the same order.
impl PartialEq for JsonObject {
    fn eq(&self, other: &JsonObject) -> (r: bool)
        ensures
            r == (self@ == other@),
    {
        if self.members.len() != other.members.len() {
            return false;
        }
        let mut i: usize = 0;
        while i < self.members.len()
            invariant
                i <= self.members@.len(),
                self.members@.len() == other.members@.len(),
                self@.len() == self.members@.len(),
                other@.len() == other.members@.len(),
                forall|j: int| 0 <= j < i ==> #[trigger] self@[j] == other@[j],
            decreases self.members@.len() - i,
        {
            assert(self@[i as int] == (self.members@[i as int].0@, self.members@[i as int].1@));
            assert(other@[i as int] == (other.members@[i as int].0@, other.members@[i as int].1@));
            if self.members[i].0 != other.members[i].0 || self.members[i].1 != other.members[i].1 {
                return false;
            }
            i = i + 1;
        }
        assert(self@ =~= other@);
        true
    }
}

impl vstd::std_specs::cmp::PartialEqSpecImpl for JsonObject {
    open spec fn obeys_eq_spec() -> bool {
        true
    }

    open spec fn eq_spec(&self, other: &JsonObject) -> bool {
        self@ == other@
    }
}

} // verus!
