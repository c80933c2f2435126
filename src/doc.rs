use vstd::prelude::*;

verus! {

/// A number as a decoded response carries it.
///
/// `int` is the value when the number is an integer that fits in an `i64`;
/// `text` is the shortest decimal rendering of the number's double-precision
/// value (what `15.2` or `60` prints as), which tells apart any two distinct
/// finite values.
#[derive(Debug, Clone)]
pub struct Num {
    pub int: Option<i64>,
    pub text: String,
}

/// A decoded response body: a tree of objects, arrays and scalars.
///
/// An object keeps its members in order; a key that appears more than once
/// is looked up by its first occurrence.
#[derive(Debug)]
pub enum Doc {
    Null,
    Bool(bool),
    Number(Num),
    Str(String),
    Array(Vec<Doc>),
    Object(Vec<Member>),
}

/// One member of an object: a key and the value stored under it.
#[derive(Debug)]
pub struct Member {
    pub key: String,
    pub value: Doc,
}

/// The value stored under `key` among `fields`: the first member with that key.
pub open spec fn field(fields: Seq<Member>, key: Seq<char>) -> Option<Doc>
    decreases fields.len(),
{
    if fields.len() == 0 {
        None
    } else if fields[0].key@ == key {
        Some(fields[0].value)
    } else {
        field(fields.drop_first(), key)
    }
}

/// The value stored under `key` when `d` is an object; nothing otherwise.
pub open spec fn member(d: Doc, key: Seq<char>) -> Option<Doc> {
    match d {
        Doc::Object(fields) => field(fields@, key),
        _ => None,
    }
}

/// The integer a value holds, when it is a number that fits in an `i64`.
pub open spec fn int_of(d: Doc) -> Option<i64> {
    match d {
        Doc::Number(n) => n.int,
        _ => None,
    }
}

/// The decimal text of a value that is a number.
pub open spec fn number_text(d: Doc) -> Option<Seq<char>> {
    match d {
        Doc::Number(n) => Some(n.text@),
        _ => None,
    }
}

/// The characters of a value that is a string.
pub open spec fn str_of(d: Doc) -> Option<Seq<char>> {
    match d {
        Doc::Str(s) => Some(s@),
        _ => None,
    }
}

/// The decimal text of the number stored under `key` in `d`, when there is one.
pub open spec fn number_member(d: Doc, key: Seq<char>) -> Option<Seq<char>> {
    match member(d, key) {
        Some(v) => number_text(v),
        None => None,
    }
}

impl Doc {
    /// Looks up `key` in an object; `None` for a missing key or a value that
    /// is not an object.
    pub fn get(&self, key: &str) -> (r: Option<&Doc>)
        ensures
            r matches Some(v) ==> member(*self, key@) == Some(*v),
            r is None <==> member(*self, key@) is None,
    {
        match self {
            Doc::Object(fields) => {
                let wanted = String::from_str(key);
                let n = fields.len();
                let mut i: usize = 0;
                assert(fields@.subrange(0, n as int) =~= fields@);
                while i < n
                    invariant
                        n == fields@.len(),
                        i <= n,
                        wanted@ == key@,
                        member(*self, key@) == field(fields@, key@),
                        field(fields@, key@) == field(fields@.subrange(i as int, n as int), key@),
                    decreases n - i,
                {
                    let ghost rest = fields@.subrange(i as int, n as int);
                    assert(rest.drop_first() =~= fields@.subrange(i + 1, n as int));
                    assert(rest[0] == fields@[i as int]);
                    if fields[i].key == wanted {
                        assert(field(rest, key@) == Some(fields@[i as int].value));
                        return Some(&fields[i].value);
                    }
                    i = i + 1;
                }
                assert(fields@.subrange(n as int, n as int).len() == 0);
                None
            },
            _ => None,
        }
    }

    /// The integer this value holds, when it is a number that fits in an `i64`.
    pub fn as_i64(&self) -> (r: Option<i64>)
        ensures
            r == int_of(*self),
    {
        match self {
            Doc::Number(n) => n.int,
            _ => None,
        }
    }

    /// The string this value holds, when it is one.
    pub fn as_str(&self) -> (r: Option<&String>)
        ensures
            r matches Some(s) ==> str_of(*self) == Some(s@),
            r is None <==> str_of(*self) is None,
    {
        match self {
            Doc::Str(s) => Some(s),
            _ => None,
        }
    }

    /// The decimal text of this value, when it is a number.
    pub fn as_number_text(&self) -> (r: Option<&String>)
        ensures
            r matches Some(s) ==> number_text(*self) == Some(s@),
            r is None <==> number_text(*self) is None,
    {
        match self {
            Doc::Number(n) => Some(&n.text),
            _ => None,
        }
    }
}

} // verus!
