//! The `StorageUri` value type: one `location` string, stored verbatim.
use vstd::prelude::*;
use vstd::std_specs::cmp::PartialEqSpec;

use crate::json::{has_key, key_index, lookup, JsonObject, JsonValue, JsonValueView, MemberView};

verus! {

/// Why a JSON object could not be read as a `StorageUri`.
#[derive(Clone, Copy, Debug, PartialEq, Eq, Structural)]
pub enum DeserializationError {
    /// The object has no `location` member.
    MissingField,
    /// The `location` member holds something other than text.
    InvalidType,
}

/// The member name under which the location travels on the wire.
pub open spec fn location_key() -> Seq<char> {
    seq!['l', 'o', 'c', 'a', 't', 'i', 'o', 'n']
}

/// The wire form of a storage URI with location `location`: an object whose
/// one member maps `location` to that text.
pub open spec fn serialized(location: Seq<char>) -> Seq<MemberView> {
    seq![(location_key(), JsonValueView::Str(location))]
}

/// The location read back from the members of an object: the text under
/// `location`, or why there is none.
pub open spec fn deserialized(members: Seq<MemberView>) -> Result<Seq<char>, DeserializationError> {
    match lookup(members, location_key()) {
        None => Err(DeserializationError::MissingField),
        Some(JsonValueView::Str(location)) => Ok(location),
        Some(_) => Err(DeserializationError::InvalidType),
    }
}

/// URI to a path in a storage provider (e.g. "s3://bucket1/path/to/object").
///
/// The location is neither validated nor normalised: any string, the empty
/// one included, is a valid value.
#[derive(Clone, Debug)]
pub struct StorageUri {
    pub location: String,
}

impl View for StorageUri {
    type V = Seq<char>;

    /// A storage URI is exactly its location text.
    open spec fn view(&self) -> Seq<char> {
        self.location@
    }
}

impl StorageUri {
    /// Builds the value from `location`, stored unchanged.
    pub fn new(location: String) -> (r: StorageUri)
        ensures
            r.location == location,
            r@ == location@,
    {
        StorageUri { location }
    }

    /// The wire form: `{"location": <location>}`.
    pub fn serialize(&self) -> (r: JsonObject)
        ensures
            r@ == serialized(self@),
    {
        let key = "location".to_owned();
        proof {
            reveal_strlit("location");
            assert(key@ =~= location_key());
        }
        let mut r = JsonObject::new();
        r.insert(key, JsonValue::Str(self.location.clone()));
        assert(r@ =~= serialized(self@));
        r
    }

    /// Reads a storage URI from its wire form. The text under `location` is
    /// taken as it is; other members are ignored.
    pub fn deserialize(obj: &JsonObject) -> (r: Result<StorageUri, DeserializationError>)
        ensures
            match r {
                Ok(u) => deserialized(obj@) == Ok::<Seq<char>, DeserializationError>(u@),
                Err(e) => deserialized(obj@) == Err::<Seq<char>, DeserializationError>(e),
            },
    {
        proof {
            reveal_strlit("location");
            assert("location"@ =~= location_key());
        }
        match obj.get("location") {
            None => Err(DeserializationError::MissingField),
            Some(JsonValue::Str(location)) => Ok(StorageUri::new(location.clone())),
            Some(_) => Err(DeserializationError::InvalidType),
        }
    }
}

impl Default for StorageUri {
    /// The empty location.
    fn default() -> (r: StorageUri)
        ensures
            r@ == Seq::<char>::empty(),
    {
        StorageUri { location: String::new() }
    }
}

/// Two storage URIs are equal exactly when their locations are.
impl PartialEq for StorageUri {
    fn eq(&self, other: &StorageUri) -> (r: bool)
        ensures
            r == (self@ == other@),
    {
        self.location == other.location
    }
}

impl vstd::std_specs::cmp::PartialEqSpecImpl for StorageUri {
    open spec fn obeys_eq_spec() -> bool {
        true
    }

    open spec fn eq_spec(&self, other: &StorageUri) -> bool {
        self@ == other@
    }
}

impl Eq for StorageUri {}

/// Reading back the wire form of a storage URI gives its location unchanged,
/// whatever the location is.
pub proof fn lemma_round_trip(location: Seq<char>)
    ensures
        deserialized(serialized(location)) == Ok::<Seq<char>, DeserializationError>(location),
{
    let members = serialized(location);
    assert(members[0].0 == location_key());
    assert(has_key(members, location_key()));
    assert(key_index(members, location_key()) == 0);
}

/// An object whose one member is `location` holding text is reproduced
/// exactly when it is read and the result is serialised again.
pub proof fn lemma_reserialize(members: Seq<MemberView>)
    requires
        members.len() == 1,
        deserialized(members) is Ok,
    ensures
        serialized(deserialized(members)->Ok_0) == members,
{
    assert(has_key(members, location_key()));
    let i = key_index(members, location_key());
    assert(i == 0);
    assert(serialized(deserialized(members)->Ok_0) =~= members);
}

/// Two storage URIs are equal exactly when their locations are, and this
/// equality is reflexive, symmetric and transitive.
pub proof fn lemma_equality_is_structural(a: StorageUri, b: StorageUri, c: StorageUri)
    ensures
        a.eq_spec(&b) <==> a.location@ == b.location@,
        a.eq_spec(&a),
        a.eq_spec(&b) ==> b.eq_spec(&a),
        a.eq_spec(&b) && b.eq_spec(&c) ==> a.eq_spec(&c),
{
}

} // verus!
