use vstd::prelude::*;
use vstd::string::*;

verus! {

/// A parsed JSON document, as the extraction backends send it.
///
/// A number keeps its value where it is an integer that fits `i64`
/// and `None` otherwise (a fraction, an exponent, a larger integer).
/// An object keeps its members in document order.
#[derive(Debug)]
pub enum JsonValue {
    Null,
    Bool(bool),
    Number(Option<i64>),
    Str(String),
    Array(Vec<JsonValue>),
    Object(Vec<(String, JsonValue)>),
}

/// The first member of `members` named `key`.
pub open spec fn member_of(members: Seq<(String, JsonValue)>, key: Seq<char>) -> Option<JsonValue>
    decreases members.len(),
{
    if members.len() == 0 {
        None
    } else if members[0].0@ == key {
        Some(members[0].1)
    } else {
        member_of(members.drop_first(), key)
    }
}

/// The member of an object named `key`; nothing for any other value.
pub open spec fn field_of(v: JsonValue, key: Seq<char>) -> Option<JsonValue> {
    match v {
        JsonValue::Object(members) => member_of(members@, key),
        _ => None,
    }
}

pub open spec fn text_of(v: JsonValue) -> Option<Seq<char>> {
    match v {
        JsonValue::Str(s) => Some(s@),
        _ => None,
    }
}

pub open spec fn int_of(v: JsonValue) -> Option<i64> {
    match v {
        JsonValue::Number(n) => n,
        _ => None,
    }
}

pub open spec fn flag_of(v: JsonValue) -> Option<bool> {
    match v {
        JsonValue::Bool(b) => Some(b),
        _ => None,
    }
}

pub open spec fn is_number(v: JsonValue) -> bool {
    v is Number
}

pub open spec fn all_text(items: Seq<JsonValue>) -> bool {
    forall|i: int| 0 <= i < items.len() ==> (#[trigger] items[i]) is Str
}

/// The strings of an array whose items are all strings.
pub open spec fn text_list_of(v: JsonValue) -> Option<Seq<Seq<char>>> {
    match v {
        JsonValue::Array(items) => if all_text(items@) {
            Some(items@.map_values(|x: JsonValue| text_of(x).unwrap()))
        } else {
            None
        },
        _ => None,
    }
}

/// Index of the first member named `key`.
pub fn find_member(members: &Vec<(String, JsonValue)>, key: &str) -> (r: Option<usize>)
    ensures
        match r {
            Some(i) => i < members@.len() && member_of(members@, key@) == Some(members@[i as int].1),
            None => member_of(members@, key@) is None,
        },
{
    let k = String::from_str(key);
    let mut i: usize = 0;
    assert(members@.subrange(0, members@.len() as int) =~= members@);
    while i < members.len()
        invariant
            i <= members@.len(),
            k@ == key@,
            member_of(members@, key@) == member_of(members@.subrange(i as int, members@.len() as int), key@),
        decreases members@.len() - i,
    {
        let ghost rest = members@.subrange(i as int, members@.len() as int);
        assert(rest.drop_first() =~= members@.subrange(i + 1, members@.len() as int));
        if members[i].0 == k {
            return Some(i);
        }
        i = i + 1;
    }
    None
}

/// The member of `v` named `key`, when `v` is an object that has one.
pub fn field<'a>(v: &'a JsonValue, key: &str) -> (r: Option<&'a JsonValue>)
    ensures
        match r {
            Some(f) => field_of(*v, key@) == Some(*f),
            None => field_of(*v, key@) is None,
        },
{
    match v {
        JsonValue::Object(members) => match find_member(members, key) {
            Some(i) => Some(&members[i].1),
            None => None,
        },
        _ => None,
    }
}

pub fn text(v: &JsonValue) -> (r: Option<String>)
    ensures
        match r {
            Some(s) => text_of(*v) == Some(s@),
            None => text_of(*v) is None,
        },
{
    match v {
        JsonValue::Str(s) => Some(s.clone()),
        _ => None,
    }
}

pub fn integer(v: &JsonValue) -> (r: Option<i64>)
    ensures
        r == int_of(*v),
{
    match v {
        JsonValue::Number(n) => *n,
        _ => None,
    }
}

pub fn boolean(v: &JsonValue) -> (r: Option<bool>)
    ensures
        r == flag_of(*v),
{
    match v {
        JsonValue::Bool(b) => Some(*b),
        _ => None,
    }
}

pub fn text_list(v: &JsonValue) -> (r: Option<Vec<String>>)
    ensures
        match r {
            Some(l) => text_list_of(*v) == Some(l@.map_values(|s: String| s@)),
            None => text_list_of(*v) is None,
        },
{
    match v {
        JsonValue::Array(items) => {
            let mut out: Vec<String> = Vec::new();
            let mut i: usize = 0;
            while i < items.len()
                invariant
                    *v == JsonValue::Array(*items),
                    i <= items@.len(),
                    out@.len() == i,
                    all_text(items@.subrange(0, i as int)),
                    forall|j: int| 0 <= j < i ==> text_of(items@[j]) == Some(#[trigger] out@[j]@),
                decreases items@.len() - i,
            {
                match &items[i] {
                    JsonValue::Str(s) => {
                        out.push(s.clone());
                    },
                    _ => {
                        assert(!(items@[i as int] is Str));
                        assert(!all_text(items@));
                        assert(text_list_of(*v) is None);
                        return None;
                    },
                }
                assert(all_text(items@.subrange(0, i + 1))) by {
                    assert forall|j: int| 0 <= j < i + 1 implies (#[trigger] items@.subrange(0, i + 1)[j]) is Str by {
                        assert(items@.subrange(0, i + 1)[j] == items@[j]);
                        if j < i {
                            assert(items@.subrange(0, i as int)[j] == items@[j]);
                        }
                    }
                }
                i = i + 1;
            }
            assert(items@.subrange(0, i as int) =~= items@);
            assert(items@.map_values(|x: JsonValue| text_of(x).unwrap()) =~= out@.map_values(|s: String| s@));
            Some(out)
        },
        _ => None,
    }
}

} // verus!
