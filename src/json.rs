use vstd::prelude::*;

use crate::text::same_text;

verus! {

/// A JSON document as the registry sent it.
///
/// Numbers keep their text: nothing here reads their value.
pub enum Json {
    Null,
    Bool(bool),
    Number(String),
    Str(String),
    Array(Vec<Json>),
    Object(Vec<JsonMember>),
}

/// One `"key": value` member of a JSON object, in document order.
pub struct JsonMember {
    pub key: String,
    pub value: Json,
}

/// The value of the first member named `key`, if any.
pub open spec fn member_value(members: Seq<JsonMember>, key: Seq<char>) -> Option<Json>
    decreases members.len(),
{
    if members.len() == 0 {
        None
    } else if members[0].key@ == key {
        Some(members[0].value)
    } else {
        member_value(members.drop_first(), key)
    }
}

proof fn lemma_member_value_at(members: Seq<JsonMember>, key: Seq<char>, i: int)
    requires
        0 <= i < members.len(),
        members[i].key@ == key,
        forall|k: int| 0 <= k < i ==> members[k].key@ != key,
    ensures
        member_value(members, key) == Some(members[i].value),
    decreases i,
{
    if i > 0 {
        let rest = members.drop_first();
        assert forall|k: int| 0 <= k < i - 1 implies rest[k].key@ != key by {
            assert(rest[k] == members[k + 1]);
        }
        lemma_member_value_at(rest, key, i - 1);
    }
}

proof fn lemma_member_value_absent(members: Seq<JsonMember>, key: Seq<char>)
    requires
        forall|k: int| 0 <= k < members.len() ==> members[k].key@ != key,
    ensures
        member_value(members, key) is None,
    decreases members.len(),
{
    if members.len() > 0 {
        let rest = members.drop_first();
        assert forall|k: int| 0 <= k < rest.len() implies rest[k].key@ != key by {
            assert(rest[k] == members[k + 1]);
        }
        lemma_member_value_absent(rest, key);
    }
}

impl Json {
    /// The member `key` of an object; nothing for any other kind of value.
    pub open spec fn field(self, key: Seq<char>) -> Option<Json> {
        match self {
            Json::Object(members) => member_value(members@, key),
            _ => None,
        }
    }

    /// The text of a string value.
    pub open spec fn text(self) -> Option<Seq<char>> {
        match self {
            Json::Str(s) => Some(s@),
            _ => None,
        }
    }

    /// The elements of an array value.
    pub open spec fn elements(self) -> Option<Seq<Json>> {
        match self {
            Json::Array(items) => Some(items@),
            _ => None,
        }
    }

    /// The member `key` of an object.
    pub fn get(&self, key: &str) -> (r: Option<&Json>)
        ensures
            r is Some <==> self.field(key@) is Some,
            r is Some ==> self.field(key@) == Some(*r->0),
    {
        match self {
            Json::Object(members) => {
                let mut i: usize = 0;
                while i < members.len()
                    invariant
                        self.field(key@) == member_value(members@, key@),
                        i <= members@.len(),
                        forall|k: int| 0 <= k < i ==> members@[k].key@ != key@,
                    decreases members@.len() - i,
                {
                    if same_text(members[i].key.as_str(), key) {
                        proof {
                            lemma_member_value_at(members@, key@, i as int);
                        }
                        return Some(&members[i].value);
                    }
                    i = i + 1;
                }
                proof {
                    lemma_member_value_absent(members@, key@);
                }
                None
            },
            _ => None,
        }
    }

    /// The text of a string value.
    pub fn as_str(&self) -> (r: Option<&String>)
        ensures
            r is Some <==> self.text() is Some,
            r is Some ==> self.text() == Some(r->0@),
    {
        match self {
            Json::Str(s) => Some(s),
            _ => None,
        }
    }

    /// The elements of an array value.
    pub fn as_array(&self) -> (r: Option<&Vec<Json>>)
        ensures
            r is Some <==> self.elements() is Some,
            r is Some ==> self.elements() == Some(r->0@),
    {
        match self {
            Json::Array(items) => Some(items),
            _ => None,
        }
    }
}

} // verus!
