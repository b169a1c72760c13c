use vstd::prelude::*;

verus! {

/// A JSON document as the transport reads it. A number is kept as its JSON
/// text; an object is its list of members, in the order they were given.
#[derive(Debug, PartialEq, Eq)]
pub enum Json {
    Null,
    Bool(bool),
    Number(String),
    Str(String),
    Array(Vec<Json>),
    Object(Vec<(String, Json)>),
}

/// The value of the first member named `key`, if any.
pub open spec fn lookup(members: Seq<(String, Json)>, key: Seq<char>) -> Option<Json>
    decreases members.len(),
{
    if members.len() == 0 {
        None
    } else if members[0].0@ == key {
        Some(members[0].1)
    } else {
        lookup(members.drop_first(), key)
    }
}

/// The member `key` of `v`: none when `v` is not an object or has no such member.
pub open spec fn field(v: Json, key: Seq<char>) -> Option<Json> {
    match v {
        Json::Object(members) => lookup(members@, key),
        _ => None,
    }
}

/// No name occurs twice.
pub open spec fn names_unique(members: Seq<(String, Json)>) -> bool {
    forall|i: int, j: int|
        0 <= i < members.len() && 0 <= j < members.len() && i != j ==> members[i].0@
            != members[j].0@
}

/// The members as a map from name to value.
pub open spec fn members_map(members: Seq<(String, Json)>) -> Map<Seq<char>, Json> {
    Map::new(|k: Seq<char>| lookup(members, k) is Some, |k: Seq<char>| lookup(members, k)->0)
}

/// A member named `key` at index `i` with no earlier member of that name is
/// what `lookup` finds.
pub proof fn lemma_lookup_at(members: Seq<(String, Json)>, key: Seq<char>, i: int)
    requires
        0 <= i < members.len(),
        members[i].0@ == key,
        forall|j: int| 0 <= j < i ==> members[j].0@ != key,
    ensures
        lookup(members, key) == Some(members[i].1),
    decreases i,
{
    if i > 0 {
        lemma_lookup_at(members.drop_first(), key, i - 1);
    }
}

/// With no member named `key`, `lookup` finds nothing.
pub proof fn lemma_lookup_absent(members: Seq<(String, Json)>, key: Seq<char>)
    requires
        forall|j: int| 0 <= j < members.len() ==> members[j].0@ != key,
    ensures
        lookup(members, key) is None,
    decreases members.len(),
{
    if members.len() > 0 {
        lemma_lookup_absent(members.drop_first(), key);
    }
}

/// The position of the first member named `key`.
pub fn position(members: &Vec<(String, Json)>, key: &str) -> (r: Option<usize>)
    ensures
        match r {
            Some(i) => i < members@.len() && members@[i as int].0@ == key@ && forall|j: int|
                0 <= j < i ==> members@[j].0@ != key@,
            None => forall|j: int| 0 <= j < members@.len() ==> members@[j].0@ != key@,
        },
{
    let k = key.to_owned();
    let mut i: usize = 0;
    while i < members.len()
        invariant
            i <= members@.len(),
            k@ == key@,
            forall|j: int| 0 <= j < i ==> members@[j].0@ != key@,
        decreases members@.len() - i,
    {
        if members[i].0 == k {
            return Some(i);
        }
        i = i + 1;
    }
    None
}

/// The value of the first member named `key`.
pub fn get_member<'a>(members: &'a Vec<(String, Json)>, key: &str) -> (r: Option<&'a Json>)
    ensures
        r == match lookup(members@, key@) {
            Some(v) => Some(&v),
            None => None::<&Json>,
        },
{
    match position(members, key) {
        Some(i) => {
            proof {
                lemma_lookup_at(members@, key@, i as int);
            }
            Some(&members[i].1)
        },
        None => {
            proof {
                lemma_lookup_absent(members@, key@);
            }
            None
        },
    }
}

impl Json {
    /// The member `key` of this value, as `serde_json`'s `Value::get` finds it:
    /// none when this is not an object.
    pub fn get<'a>(&'a self, key: &str) -> (r: Option<&'a Json>)
        ensures
            r == match field(*self, key@) {
                Some(v) => Some(&v),
                None => None::<&Json>,
            },
    {
        match self {
            Json::Object(members) => get_member(members, key),
            _ => None,
        }
    }

    /// The text of a string value.
    pub fn as_str(&self) -> (r: Option<&str>)
        ensures
            match *self {
                Json::Str(s) => r is Some && r->0@ == s@,
                _ => r is None,
            },
    {
        match self {
            Json::Str(s) => Some(s.as_str()),
            _ => None,
        }
    }
}

/// The four bytes that JSON allows between tokens.
pub open spec fn is_ws(b: u8) -> bool {
    b == 0x20u8 || b == 0x09u8 || b == 0x0Au8 || b == 0x0Du8
}

/// Whether every byte is whitespace, so that no token has started.
pub open spec fn all_ws(bytes: Seq<u8>) -> bool {
    forall|i: int| 0 <= i < bytes.len() ==> is_ws(#[trigger] bytes[i])
}

/// Whether no token has started in `bytes`.
pub fn only_whitespace(bytes: &[u8]) -> (r: bool)
    ensures
        r == all_ws(bytes@),
{
    let mut i: usize = 0;
    while i < bytes.len()
        invariant
            i <= bytes@.len(),
            all_ws(bytes@.subrange(0, i as int)),
        decreases bytes@.len() - i,
    {
        let b = bytes[i];
        if !(b == 0x20u8 || b == 0x09u8 || b == 0x0Au8 || b == 0x0Du8) {
            assert(!is_ws(bytes@[i as int]));
            return false;
        }
        assert(bytes@.subrange(0, i + 1) =~= bytes@.subrange(0, i as int).push(b));
        i = i + 1;
    }
    assert(bytes@.subrange(0, i as int) =~= bytes@);
    true
}

} // verus!
