//! A JSON document tree, read by serde_json, and the structural decoding of
//! typed values out of it: unknown fields are ignored, an absent or null
//! optional field is `None`, and anything else of the wrong shape is refused.
use vstd::prelude::*;
use crate::duration::VaultDuration;
use crate::text::str_eq;
use vstd::string::*;

verus! {

/// A JSON value. Numbers keep their integer value; a number with a fraction
/// or an exponent is kept only as such.
#[derive(Debug)]
pub enum Json {
    Null,
    Bool(bool),
    /// A non-negative integer.
    UInt(u64),
    /// A negative integer.
    NegInt(i64),
    /// A number that is not an integer of 64 bits.
    Fraction,
    Str(String),
    Array(Vec<Json>),
    /// The members of an object; keys are distinct.
    Object(Vec<(String, Json)>),
}

#[verifier::external_type_specification]
#[verifier::external_body]
pub struct ExJsonValue(serde_json::Value);

/// What serde_json reads from a text: the document, or `None` where the text
/// is not JSON.
pub uninterp spec fn json_parsed(s: Seq<char>) -> Option<Json>;

/// Relies on the variants of serde_json::Value and on serde_json::Number's
/// `as_u64` and `as_i64`: moves each value into a `Json`, one for one.
#[verifier::external_body]
fn json_of_value(v: &serde_json::Value) -> Json {
    match v {
        serde_json::Value::Null => Json::Null,
        serde_json::Value::Bool(b) => Json::Bool(*b),
        serde_json::Value::Number(n) => match (n.as_u64(), n.as_i64()) {
            (Some(u), _) => Json::UInt(u),
            (None, Some(i)) => Json::NegInt(i),
            _ => Json::Fraction,
        },
        serde_json::Value::String(s) => Json::Str(s.clone()),
        serde_json::Value::Array(a) => Json::Array(a.iter().map(json_of_value).collect()),
        serde_json::Value::Object(o) => Json::Object(
            o.iter().map(|(k, x)| (k.clone(), json_of_value(x))).collect(),
        ),
    }
}

/// Relies on serde_json::from_str into a serde_json::Value: the document for
/// a JSON text, an error otherwise.
#[verifier::external_body]
pub(crate) fn parse_json(s: &str) -> (r: Option<Json>)
    ensures
        r == json_parsed(s@),
{
    serde_json::from_str::<serde_json::Value>(s).ok().map(|v| json_of_value(&v))
}

/// The value of the first member named `key`, looking from position `i` on.
pub open spec fn lookup_from(fs: Seq<(String, Json)>, key: Seq<char>, i: int) -> Option<Json>
    decreases fs.len() - i,
{
    if i < 0 || i >= fs.len() {
        None
    } else if fs[i].0@ == key {
        Some(fs[i].1)
    } else {
        lookup_from(fs, key, i + 1)
    }
}

/// The value of the member named `key`.
pub open spec fn lookup(fs: Seq<(String, Json)>, key: Seq<char>) -> Option<Json> {
    lookup_from(fs, key, 0)
}

/// The position of the member named `key`, if there is one.
pub fn find_member(fs: &Vec<(String, Json)>, key: &str) -> (r: Option<usize>)
    ensures
        r matches Some(i) ==> i < fs@.len() && lookup(fs@, key@) == Some(fs@[i as int].1),
        r is None ==> lookup(fs@, key@) is None,
{
    let mut i: usize = 0;
    while i < fs.len()
        invariant
            i <= fs@.len(),
            lookup(fs@, key@) == lookup_from(fs@, key@, i as int),
        decreases fs@.len() - i,
    {
        if str_eq(fs[i].0.as_str(), key) {
            return Some(i);
        }
        i = i + 1;
    }
    None
}

/// A type that can be decoded structurally from a JSON value.
pub trait FromJson: Sized {
    /// Whether `j` has the shape of a value of this type.
    spec fn json_accepts(j: Json) -> bool;

    /// `v` is the value that `j` decodes to.
    spec fn decoded_from(v: Self, j: Json) -> bool;

    /// Decodes `j`, or returns `None` where it has the wrong shape.
    fn from_json(j: &Json) -> (r: Option<Self>)
        ensures
            r is Some <==> Self::json_accepts(*j),
            r matches Some(v) ==> Self::decoded_from(v, *j),
    ;
}

/// A required member is present and of the right shape.
pub open spec fn field_ok<T: FromJson>(fs: Seq<(String, Json)>, key: Seq<char>) -> bool {
    lookup(fs, key) matches Some(j) && T::json_accepts(j)
}

/// `v` is what the required member `key` decodes to.
pub open spec fn field_is<T: FromJson>(fs: Seq<(String, Json)>, key: Seq<char>, v: T) -> bool {
    lookup(fs, key) matches Some(j) && T::decoded_from(v, j)
}

/// An optional member is absent, null, or of the right shape.
pub open spec fn opt_field_ok<T: FromJson>(fs: Seq<(String, Json)>, key: Seq<char>) -> bool {
    match lookup(fs, key) {
        None => true,
        Some(Json::Null) => true,
        Some(j) => T::json_accepts(j),
    }
}

/// `v` is what the optional member `key` decodes to: `None` when absent or null.
pub open spec fn opt_field_is<T: FromJson>(
    fs: Seq<(String, Json)>,
    key: Seq<char>,
    v: Option<T>,
) -> bool {
    match lookup(fs, key) {
        None => v is None,
        Some(Json::Null) => v is None,
        Some(j) => v matches Some(x) && T::decoded_from(x, j),
    }
}

/// Decodes the required member `key` of an object.
pub fn field<T: FromJson>(fs: &Vec<(String, Json)>, key: &str) -> (r: Option<T>)
    ensures
        r is Some <==> field_ok::<T>(fs@, key@),
        r matches Some(v) ==> field_is::<T>(fs@, key@, v),
{
    match find_member(fs, key) {
        Some(i) => T::from_json(&fs[i].1),
        None => None,
    }
}

/// Decodes the optional member `key` of an object: the outer `None` where it
/// has the wrong shape.
pub fn opt_field<T: FromJson>(fs: &Vec<(String, Json)>, key: &str) -> (r: Option<Option<T>>)
    ensures
        r is Some <==> opt_field_ok::<T>(fs@, key@),
        r matches Some(v) ==> opt_field_is::<T>(fs@, key@, v),
{
    match find_member(fs, key) {
        Some(i) => match &fs[i].1 {
            Json::Null => Some(None),
            j => match T::from_json(j) {
                Some(v) => Some(Some(v)),
                None => None,
            },
        },
        None => Some(None),
    }
}

impl FromJson for String {
    open spec fn json_accepts(j: Json) -> bool {
        j is Str
    }

    open spec fn decoded_from(v: String, j: Json) -> bool {
        j == Json::Str(v)
    }

    fn from_json(j: &Json) -> (r: Option<String>) {
        match j {
            Json::Str(s) => Some(s.clone()),
            _ => None,
        }
    }
}

impl FromJson for bool {
    open spec fn json_accepts(j: Json) -> bool {
        j is Bool
    }

    open spec fn decoded_from(v: bool, j: Json) -> bool {
        j == Json::Bool(v)
    }

    fn from_json(j: &Json) -> (r: Option<bool>) {
        match j {
            Json::Bool(b) => Some(*b),
            _ => None,
        }
    }
}

impl FromJson for u64 {
    open spec fn json_accepts(j: Json) -> bool {
        j is UInt
    }

    open spec fn decoded_from(v: u64, j: Json) -> bool {
        j == Json::UInt(v)
    }

    fn from_json(j: &Json) -> (r: Option<u64>) {
        match j {
            Json::UInt(u) => Some(*u),
            _ => None,
        }
    }
}

impl FromJson for VaultDuration {
    open spec fn json_accepts(j: Json) -> bool {
        j is UInt
    }

    open spec fn decoded_from(v: VaultDuration, j: Json) -> bool {
        j == Json::UInt(v.0)
    }

    fn from_json(j: &Json) -> (r: Option<VaultDuration>) {
        match j {
            Json::UInt(u) => Some(crate::duration::decode_duration_seconds(*u)),
            _ => None,
        }
    }
}

/// The unit payload: only `null` decodes to it.
impl FromJson for () {
    open spec fn json_accepts(j: Json) -> bool {
        j is Null
    }

    open spec fn decoded_from(v: (), j: Json) -> bool {
        j is Null
    }

    fn from_json(j: &Json) -> (r: Option<()>) {
        match j {
            Json::Null => Some(()),
            _ => None,
        }
    }
}

/// Every item is a string.
pub open spec fn all_strings(a: Seq<Json>) -> bool {
    forall|i: int| 0 <= i < a.len() ==> #[trigger] a[i] is Str
}

/// A list of strings: an array whose items are all strings.
impl FromJson for Vec<String> {
    open spec fn json_accepts(j: Json) -> bool {
        match j {
            Json::Array(a) => all_strings(a@),
            _ => false,
        }
    }

    open spec fn decoded_from(v: Vec<String>, j: Json) -> bool {
        j matches Json::Array(a) && strings_of(a@, v@)
    }

    fn from_json(j: &Json) -> (r: Option<Vec<String>>) {
        match j {
            Json::Array(a) => {
                let mut out: Vec<String> = Vec::new();
                let mut i: usize = 0;
                while i < a.len()
                    invariant
                        *j == Json::Array(*a),
                        i <= a@.len(),
                        out@.len() == i,
                        forall|k: int| 0 <= k < i ==> #[trigger] a@[k] == Json::Str(out@[k]),
                    decreases a@.len() - i,
                {
                    match &a[i] {
                        Json::Str(s) => out.push(s.clone()),
                        _ => {
                            assert(!(a@[i as int] is Str));
                            assert(!all_strings(a@));
                            assert(!Self::json_accepts(*j));
                            return None;
                        },
                    }
                    i = i + 1;
                }
                Some(out)
            },
            _ => None,
        }
    }
}

/// Every member's value is a string.
pub open spec fn all_string_members(fs: Seq<(String, Json)>) -> bool {
    forall|i: int| 0 <= i < fs.len() ==> #[trigger] fs[i].1 is Str
}

/// `v` lists the strings of the array `a`, in order.
pub open spec fn strings_of(a: Seq<Json>, v: Seq<String>) -> bool {
    a.len() == v.len() && forall|i: int| 0 <= i < a.len() ==> #[trigger] a[i] == Json::Str(v[i])
}

/// `v` lists the members of `fs`, whose values are strings, in order.
pub open spec fn string_members_of(fs: Seq<(String, Json)>, v: Seq<(String, String)>) -> bool {
    fs.len() == v.len() && forall|i: int|
        0 <= i < fs.len() ==> #[trigger] fs[i] == (v[i].0, Json::Str(v[i].1))
}

/// A mapping of strings to strings: an object whose members are all strings,
/// kept in the order of the document.
impl FromJson for Vec<(String, String)> {
    open spec fn json_accepts(j: Json) -> bool {
        match j {
            Json::Object(fs) => all_string_members(fs@),
            _ => false,
        }
    }

    open spec fn decoded_from(v: Vec<(String, String)>, j: Json) -> bool {
        j matches Json::Object(fs) && string_members_of(fs@, v@)
    }

    fn from_json(j: &Json) -> (r: Option<Vec<(String, String)>>) {
        match j {
            Json::Object(fs) => {
                let mut out: Vec<(String, String)> = Vec::new();
                let mut i: usize = 0;
                while i < fs.len()
                    invariant
                        *j == Json::Object(*fs),
                        i <= fs@.len(),
                        out@.len() == i,
                        forall|k: int|
                            0 <= k < i ==> #[trigger] fs@[k] == (out@[k].0, Json::Str(out@[k].1)),
                    decreases fs@.len() - i,
                {
                    match &fs[i].1 {
                        Json::Str(s) => out.push((fs[i].0.clone(), s.clone())),
                        _ => {
                            assert(!(fs@[i as int].1 is Str));
                            assert(!all_string_members(fs@));
                            assert(!Self::json_accepts(*j));
                            return None;
                        },
                    }
                    i = i + 1;
                }
                Some(out)
            },
            _ => None,
        }
    }
}

/// The JSON text of a string, quoted and escaped as serde_json writes it.
pub uninterp spec fn json_string(s: Seq<char>) -> Seq<char>;

/// Relies on serde_json::to_string on a `str`: the string quoted and escaped.
/// Serializing a `str` cannot fail (it holds no map).
#[verifier::external_body]
pub(crate) fn quote(s: &str) -> (r: String)
    ensures
        r@ == json_string(s@),
{
    serde_json::to_string(s).unwrap_or_default()
}

/// The names and encoded values of a list of object members, as views.
pub open spec fn members_view(ms: Seq<(String, String)>) -> Seq<(Seq<char>, Seq<char>)> {
    ms.map_values(|m: (String, String)| (m.0@, m.1@))
}

/// One member: the quoted name, a colon, and the value's JSON text.
pub open spec fn member_text(m: (Seq<char>, Seq<char>)) -> Seq<char> {
    json_string(m.0) + ":"@ + m.1
}

/// Members separated by commas.
pub open spec fn members_text(ms: Seq<(Seq<char>, Seq<char>)>) -> Seq<char>
    decreases ms.len(),
{
    if ms.len() == 0 {
        Seq::empty()
    } else if ms.len() == 1 {
        member_text(ms[0])
    } else {
        members_text(ms.drop_last()) + ","@ + member_text(ms.last())
    }
}

/// The compact JSON text of an object with these members, in order.
pub open spec fn object_text(ms: Seq<(Seq<char>, Seq<char>)>) -> Seq<char> {
    "{"@ + members_text(ms) + "}"@
}

/// Writes a JSON object from member names and the JSON text of their values.
pub fn json_object(ms: &Vec<(String, String)>) -> (r: String)
    ensures
        r@ == object_text(members_view(ms@)),
{
    let mut inner = String::new();
    let mut i: usize = 0;
    while i < ms.len()
        invariant
            i <= ms@.len(),
            inner@ == members_text(members_view(ms@.subrange(0, i as int))),
        decreases ms@.len() - i,
    {
        let m = quote(ms[i].0.as_str()).concat(":").concat(ms[i].1.as_str());
        let next = if i == 0 {
            m
        } else {
            inner.concat(",").concat(m.as_str())
        };
        proof {
            let pre = members_view(ms@.subrange(0, i as int));
            let post = members_view(ms@.subrange(0, i + 1));
            assert(post.drop_last() =~= pre);
            assert(post.last() == (ms@[i as int].0@, ms@[i as int].1@));
            if i == 0 {
                assert(post.len() == 1);
            }
        }
        inner = next;
        i = i + 1;
    }
    assert(ms@.subrange(0, ms@.len() as int) =~= ms@);
    String::from_str("{").concat(inner.as_str()).concat("}")
}

/// Items separated by commas.
pub open spec fn items_text(items: Seq<Seq<char>>) -> Seq<char>
    decreases items.len(),
{
    if items.len() == 0 {
        Seq::empty()
    } else if items.len() == 1 {
        items[0]
    } else {
        items_text(items.drop_last()) + ","@ + items.last()
    }
}

/// The quoted strings of a list.
pub open spec fn quoted_all(v: Seq<String>) -> Seq<Seq<char>> {
    v.map_values(|s: String| json_string(s@))
}

/// The compact JSON text of an array of strings.
pub open spec fn string_array_text(v: Seq<String>) -> Seq<char> {
    "["@ + items_text(quoted_all(v)) + "]"@
}

/// Writes a list of strings as a JSON array.
pub fn json_string_array(v: &Vec<String>) -> (r: String)
    ensures
        r@ == string_array_text(v@),
{
    let mut inner = String::new();
    let mut i: usize = 0;
    while i < v.len()
        invariant
            i <= v@.len(),
            inner@ == items_text(quoted_all(v@.subrange(0, i as int))),
        decreases v@.len() - i,
    {
        let q = quote(v[i].as_str());
        let next = if i == 0 {
            q
        } else {
            inner.concat(",").concat(q.as_str())
        };
        proof {
            let pre = quoted_all(v@.subrange(0, i as int));
            let post = quoted_all(v@.subrange(0, i + 1));
            assert(post.drop_last() =~= pre);
            assert(post.last() == json_string(v@[i as int]@));
            if i == 0 {
                assert(post.len() == 1);
            }
        }
        inner = next;
        i = i + 1;
    }
    assert(v@.subrange(0, v@.len() as int) =~= v@);
    String::from_str("[").concat(inner.as_str()).concat("]")
}

} // verus!
