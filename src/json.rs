//! A plain model of parsed JSON values, and typed field lookups on objects.
use vstd::prelude::*;

verus! {

/// A parsed JSON value. Numbers keep what the wire schema reads of them: a
/// non-negative integer that fits in `u64`, or some other number.
#[derive(Debug)]
pub enum Json {
    Null,
    Bool(bool),
    UInt(u64),
    OtherNumber,
    Str(String),
    Array(Vec<Json>),
    Object(Vec<(String, Json)>),
}

/// The value of the first member with this key.
pub open spec fn lookup(m: Seq<(String, Json)>, key: Seq<char>) -> Option<Json>
    decreases m.len(),
{
    if m.len() == 0 {
        None
    } else if m[0].0@ == key {
        Some(m[0].1)
    } else {
        lookup(m.drop_first(), key)
    }
}

/// The view of an optional string.
pub open spec fn opt_view(o: Option<String>) -> Option<Seq<char>> {
    match o {
        Some(s) => Some(s@),
        None => None,
    }
}

/// A required string member: `None` where it is missing or not a string.
pub open spec fn str_at(m: Seq<(String, Json)>, key: Seq<char>) -> Option<Seq<char>> {
    match lookup(m, key) {
        Some(Json::Str(s)) => Some(s@),
        _ => None,
    }
}

/// An optional string member: absent or null reads as `Some(None)`; `None`
/// where it holds anything else.
pub open spec fn opt_str_at(m: Seq<(String, Json)>, key: Seq<char>) -> Option<Option<Seq<char>>> {
    match lookup(m, key) {
        None => Some(None),
        Some(Json::Null) => Some(None),
        Some(Json::Str(s)) => Some(Some(s@)),
        _ => None,
    }
}

/// An unsigned integer that fits the bound, read from a JSON value.
pub open spec fn uint_in(j: Json, max: u64) -> Option<u64> {
    match j {
        Json::UInt(n) => if n <= max {
            Some(n)
        } else {
            None
        },
        _ => None,
    }
}

/// A required unsigned integer member no larger than `max`.
pub open spec fn uint_at(m: Seq<(String, Json)>, key: Seq<char>, max: u64) -> Option<u64> {
    match lookup(m, key) {
        Some(j) => uint_in(j, max),
        None => None,
    }
}

/// An optional unsigned integer member no larger than `max`: absent or null
/// reads as `Some(None)`.
pub open spec fn opt_uint_at(m: Seq<(String, Json)>, key: Seq<char>, max: u64) -> Option<
    Option<u64>,
> {
    match lookup(m, key) {
        None => Some(None),
        Some(Json::Null) => Some(None),
        Some(j) => match uint_in(j, max) {
            Some(n) => Some(Some(n)),
            None => None,
        },
    }
}

/// A boolean member that defaults to `false` when absent.
pub open spec fn bool_at(m: Seq<(String, Json)>, key: Seq<char>) -> Option<bool> {
    match lookup(m, key) {
        None => Some(false),
        Some(Json::Bool(b)) => Some(b),
        _ => None,
    }
}

/// Finds the value of the first member with this key.
pub fn find<'a>(m: &'a Vec<(String, Json)>, key: &str) -> (r: Option<&'a Json>)
    ensures
        match r {
            Some(j) => lookup(m@, key@) == Some(*j),
            None => lookup(m@, key@) is None,
        },
{
    let k = String::from_str(key);
    let mut i: usize = 0;
    assert(m@.subrange(0, m@.len() as int) =~= m@);
    while i < m.len()
        invariant
            i <= m@.len(),
            k@ == key@,
            lookup(m@, key@) == lookup(m@.subrange(i as int, m@.len() as int), key@),
        decreases m@.len() - i,
    {
        let ghost rest = m@.subrange(i as int, m@.len() as int);
        assert(rest.drop_first() =~= m@.subrange(i + 1, m@.len() as int));
        assert(rest[0] == m@[i as int]);
        if m[i].0 == k {
            return Some(&m[i].1);
        }
        i = i + 1;
    }
    assert(m@.subrange(i as int, m@.len() as int).len() == 0);
    None
}

/// Reads a required string member.
pub fn get_str(m: &Vec<(String, Json)>, key: &str) -> (r: Option<String>)
    ensures
        opt_view(r) == str_at(m@, key@),
{
    match find(m, key) {
        Some(Json::Str(s)) => Some(s.clone()),
        _ => None,
    }
}

/// Reads an optional string member; `None` where it has the wrong type.
pub fn get_opt_str(m: &Vec<(String, Json)>, key: &str) -> (r: Option<Option<String>>)
    ensures
        match r {
            Some(o) => opt_str_at(m@, key@) == Some(opt_view(o)),
            None => opt_str_at(m@, key@) is None,
        },
{
    match find(m, key) {
        None => Some(None),
        Some(Json::Null) => Some(None),
        Some(Json::Str(s)) => Some(Some(s.clone())),
        _ => None,
    }
}

/// Reads an unsigned integer no larger than `max` from a value.
pub fn uint_value(j: &Json, max: u64) -> (r: Option<u64>)
    ensures
        r == uint_in(*j, max),
{
    match j {
        Json::UInt(n) => if *n <= max {
            Some(*n)
        } else {
            None
        },
        _ => None,
    }
}

/// Reads a required unsigned integer member no larger than `max`.
pub fn get_uint(m: &Vec<(String, Json)>, key: &str, max: u64) -> (r: Option<u64>)
    ensures
        r == uint_at(m@, key@, max),
{
    match find(m, key) {
        Some(j) => uint_value(j, max),
        None => None,
    }
}

/// Reads an optional unsigned integer member no larger than `max`.
pub fn get_opt_uint(m: &Vec<(String, Json)>, key: &str, max: u64) -> (r: Option<Option<u64>>)
    ensures
        r == opt_uint_at(m@, key@, max),
{
    match find(m, key) {
        None => Some(None),
        Some(Json::Null) => Some(None),
        Some(j) => match uint_value(j, max) {
            Some(n) => Some(Some(n)),
            None => None,
        },
    }
}

/// Reads a boolean member that defaults to `false`.
pub fn get_bool(m: &Vec<(String, Json)>, key: &str) -> (r: Option<bool>)
    ensures
        r == bool_at(m@, key@),
{
    match find(m, key) {
        None => Some(false),
        Some(Json::Bool(b)) => Some(*b),
        _ => None,
    }
}

/// A string-list member that defaults to empty: `None` where it is not an
/// array of strings.
pub open spec fn str_list_at(m: Seq<(String, Json)>, key: Seq<char>) -> Option<Seq<Seq<char>>> {
    match lookup(m, key) {
        None => Some(Seq::empty()),
        Some(Json::Array(items)) => if forall|i: int|
            0 <= i < items@.len() ==> (#[trigger] items@[i]) is Str {
            Some(items@.map_values(|j: Json| j->Str_0@))
        } else {
            None
        },
        _ => None,
    }
}

/// The views of a list of strings.
pub open spec fn str_views(v: Seq<String>) -> Seq<Seq<char>> {
    v.map_values(|s: String| s@)
}

/// Reads a string-list member that defaults to empty.
pub fn get_str_list(m: &Vec<(String, Json)>, key: &str) -> (r: Option<Vec<String>>)
    ensures
        match r {
            Some(v) => str_list_at(m@, key@) == Some(str_views(v@)),
            None => str_list_at(m@, key@) is None,
        },
{
    match find(m, key) {
        None => {
            let v: Vec<String> = Vec::new();
            assert(str_views(v@) =~= Seq::<Seq<char>>::empty());
            Some(v)
        },
        Some(Json::Array(items)) => {
            let mut out: Vec<String> = Vec::new();
            let mut i: usize = 0;
            while i < items.len()
                invariant
                    i <= items@.len(),
                    lookup(m@, key@) == Some(Json::Array(*items)),
                    out@.len() == i,
                    forall|k: int| 0 <= k < i ==> (#[trigger] items@[k]) is Str,
                    forall|k: int| 0 <= k < i ==> (#[trigger] out@[k])@ == items@[k]->Str_0@,
                decreases items@.len() - i,
            {
                match &items[i] {
                    Json::Str(s) => {
                        out.push(s.clone());
                    },
                    _ => {
                        assert(!(items@[i as int] is Str));
                        return None;
                    },
                }
                i = i + 1;
            }
            assert(str_views(out@) =~= items@.map_values(|j: Json| j->Str_0@));
            Some(out)
        },
        _ => None,
    }
}

} // verus!
