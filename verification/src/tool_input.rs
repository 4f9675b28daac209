//! The arguments of a tool call, held as plain values: each top-level field of
//! the JSON object the model sent, by name, with what the tools read of it.

use vstd::prelude::*;

verus! {

/// What a top-level argument value is.
pub enum ArgValue {
    Null,
    Bool(bool),
    /// A number; `Some(n)` when it is a non-negative integer that fits `u64`.
    Number(Option<u64>),
    Str(String),
    /// An array; each element's text when that element is a string.
    Array(Vec<Option<String>>),
    /// An object: each member's key with the compact JSON text of its value,
    /// `None` for a null value.
    Object(Vec<(String, Option<String>)>),
}

/// One named argument: its value and the JSON text that renders it.
pub struct ArgField {
    pub key: String,
    pub value: ArgValue,
    pub rendered: String,
}

/// The arguments of one tool call: the fields of the JSON object in order,
/// and the compact JSON text of the whole input (`None` when the input is
/// not an object).
pub struct ToolInput {
    pub fields: Option<Vec<ArgField>>,
    pub rendered: String,
}

/// The texts of optional strings.
pub open spec fn opt_views(v: Seq<Option<String>>) -> Seq<Option<Seq<char>>> {
    v.map_values(|o: Option<String>| match o {
        Some(s) => Some(s@),
        None => None,
    })
}

/// Object members as values.
pub open spec fn member_views(v: Seq<(String, Option<String>)>) -> Seq<(Seq<char>, Option<Seq<char>>)> {
    v.map_values(|m: (String, Option<String>)| (m.0@, match m.1 {
        Some(s) => Some(s@),
        None => None,
    }))
}

/// Position of the first field named `key`, or `fields.len()`.
pub open spec fn key_pos(fields: Seq<ArgField>, key: Seq<char>) -> int
    decreases fields.len(),
{
    if fields.len() == 0 {
        0
    } else if fields[0].key@ == key {
        0
    } else {
        1 + key_pos(fields.drop_first(), key)
    }
}

pub proof fn lemma_key_pos(fields: Seq<ArgField>, key: Seq<char>)
    ensures
        0 <= key_pos(fields, key) <= fields.len(),
        key_pos(fields, key) < fields.len() ==> fields[key_pos(fields, key)].key@ == key,
        forall|i: int| 0 <= i < key_pos(fields, key) ==> fields[i].key@ != key,
    decreases fields.len(),
{
    if fields.len() > 0 && fields[0].key@ != key {
        lemma_key_pos(fields.drop_first(), key);
        assert forall|i: int| 0 <= i < key_pos(fields, key) implies fields[i].key@ != key by {
            if i > 0 {
                assert(fields[i] == fields.drop_first()[i - 1]);
            }
        }
    }
}

impl ToolInput {
    /// The field named `key`, if the input is an object that has one
    /// (`input[key]` for a present key).
    pub open spec fn field(&self, key: Seq<char>) -> Option<ArgField> {
        match self.fields {
            Some(fs) => {
                let k = key_pos(fs@, key);
                if k < fs@.len() { Some(fs@[k]) } else { None }
            },
            None => None,
        }
    }

    /// `input[key].as_str()`.
    pub open spec fn str_arg(&self, key: Seq<char>) -> Option<Seq<char>> {
        match self.field(key) {
            Some(f) => match f.value {
                ArgValue::Str(s) => Some(s@),
                _ => None,
            },
            None => None,
        }
    }

    /// `input[key].as_bool()`.
    pub open spec fn bool_arg(&self, key: Seq<char>) -> Option<bool> {
        match self.field(key) {
            Some(f) => match f.value {
                ArgValue::Bool(b) => Some(b),
                _ => None,
            },
            None => None,
        }
    }

    /// `input[key].as_u64()`.
    pub open spec fn u64_arg(&self, key: Seq<char>) -> Option<u64> {
        match self.field(key) {
            Some(f) => match f.value {
                ArgValue::Number(n) => n,
                _ => None,
            },
            None => None,
        }
    }

    /// `input[key].as_array()`: each element's text when it is a string.
    pub open spec fn array_arg(&self, key: Seq<char>) -> Option<Seq<Option<Seq<char>>>> {
        match self.field(key) {
            Some(f) => match f.value {
                ArgValue::Array(items) => Some(opt_views(items@)),
                _ => None,
            },
            None => None,
        }
    }

    /// `input[key].as_object()`: each member's key with its value's JSON
    /// text, `None` for null.
    pub open spec fn object_arg(&self, key: Seq<char>) -> Option<Seq<(Seq<char>, Option<Seq<char>>)>> {
        match self.field(key) {
            Some(f) => match f.value {
                ArgValue::Object(members) => Some(member_views(members@)),
                _ => None,
            },
            None => None,
        }
    }

    /// Whether `input.get(key)` is absent or JSON null.
    pub open spec fn missing(&self, key: Seq<char>) -> bool {
        match self.field(key) {
            Some(f) => f.value is Null,
            None => true,
        }
    }

    /// Position of the field named `key` in `fields`, if any.
    pub fn find_field(&self, key: &str) -> (r: Option<usize>)
        ensures
            match r {
                Some(i) => self.fields is Some && i < self.fields->0@.len() && self.field(key@)
                    == Some(self.fields->0@[i as int]),
                None => self.field(key@) is None,
            },
    {
        match &self.fields {
            None => None,
            Some(fs) => {
                proof {
                    lemma_key_pos(fs@, key@);
                }
                let mut i: usize = 0;
                while i < fs.len()
                    invariant
                        self.fields == Some(*fs),
                        i <= fs.len(),
                        forall|j: int| 0 <= j < i ==> fs@[j].key@ != key@,
                        0 <= key_pos(fs@, key@) <= fs@.len(),
                        key_pos(fs@, key@) < fs@.len() ==> fs@[key_pos(fs@, key@)].key@ == key@,
                        forall|j: int| 0 <= j < key_pos(fs@, key@) ==> fs@[j].key@ != key@,
                    decreases fs.len() - i,
                {
                    if crate::text::str_eq(fs[i].key.as_str(), key) {
                        proof {
                            let k = key_pos(fs@, key@);
                            if k < i {
                                assert(fs@[k].key@ != key@);
                            }
                            if k > i {
                                assert(fs@[i as int].key@ != key@);
                            }
                        }
                        assert(key_pos(fs@, key@) == i);
                        assert(self.fields->0 == *fs);
                        return Some(i);
                    }
                    i += 1;
                }
                None
            },
        }
    }

    /// `input[key].as_str()`.
    pub fn get_str(&self, key: &str) -> (r: Option<&str>)
        ensures
            match r {
                Some(s) => self.str_arg(key@) == Some(s@),
                None => self.str_arg(key@) is None,
            },
    {
        match self.find_field(key) {
            Some(i) => match &self.fields {
                Some(fs) => match &fs[i].value {
                    ArgValue::Str(s) => Some(s.as_str()),
                    _ => None,
                },
                None => None,
            },
            None => None,
        }
    }

    /// `input[key].as_bool()`.
    pub fn get_bool(&self, key: &str) -> (r: Option<bool>)
        ensures
            r == self.bool_arg(key@),
    {
        match self.find_field(key) {
            Some(i) => match &self.fields {
                Some(fs) => match &fs[i].value {
                    ArgValue::Bool(b) => Some(*b),
                    _ => None,
                },
                None => None,
            },
            None => None,
        }
    }

    /// `input[key].as_u64()`.
    pub fn get_u64(&self, key: &str) -> (r: Option<u64>)
        ensures
            r == self.u64_arg(key@),
    {
        match self.find_field(key) {
            Some(i) => match &self.fields {
                Some(fs) => match &fs[i].value {
                    ArgValue::Number(n) => *n,
                    _ => None,
                },
                None => None,
            },
            None => None,
        }
    }

    /// `input[key].as_array()`.
    pub fn get_array(&self, key: &str) -> (r: Option<&Vec<Option<String>>>)
        ensures
            match r {
                Some(v) => self.array_arg(key@) == Some(opt_views(v@)),
                None => self.array_arg(key@) is None,
            },
    {
        match self.find_field(key) {
            Some(i) => match &self.fields {
                Some(fs) => match &fs[i].value {
                    ArgValue::Array(items) => Some(items),
                    _ => None,
                },
                None => None,
            },
            None => None,
        }
    }

    /// `input[key].as_object()`.
    pub fn get_object(&self, key: &str) -> (r: Option<&Vec<(String, Option<String>)>>)
        ensures
            match r {
                Some(v) => self.object_arg(key@) == Some(member_views(v@)),
                None => self.object_arg(key@) is None,
            },
    {
        match self.find_field(key) {
            Some(i) => match &self.fields {
                Some(fs) => match &fs[i].value {
                    ArgValue::Object(members) => Some(members),
                    _ => None,
                },
                None => None,
            },
            None => None,
        }
    }

    /// Whether `input.get(key)` is absent or JSON null.
    pub fn is_missing(&self, key: &str) -> (b: bool)
        ensures
            b == self.missing(key@),
    {
        match self.find_field(key) {
            Some(i) => match &self.fields {
                Some(fs) => match &fs[i].value {
                    ArgValue::Null => true,
                    _ => false,
                },
                None => true,
            },
            None => true,
        }
    }
}

} // verus!
