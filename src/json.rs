//! A JSON document held as plain values, and the reads that the decoders make of it.
use vstd::prelude::*;

verus! {

/// A JSON document as plain values. A number keeps the text it was written with.
#[derive(Debug, PartialEq)]
pub enum Json {
    /// `null`.
    Null,
    /// `true` or `false`.
    Bool(bool),
    /// A number, as written.
    Number(String),
    /// A string.
    Str(String),
    /// An array.
    Array(Vec<Json>),
    /// An object: its members in order.
    Object(Vec<(String, Json)>),
}

/// The magnitude that an integer read from a document must stay below.
pub const INTEGER_BOUND: u128 = 18446744073709551616;

/// The value of the first member named `key`.
pub open spec fn lookup(members: Seq<(String, Json)>, key: Seq<char>) -> Option<Json>
    decreases members.len(),
{
    if members.len() == 0 {
        None
    } else if members[0].0@ == key {
        Some(members[0].1)
    } else {
        lookup(members.drop_first(), key)
    }
}

/// The member `key` of an object; nothing for other values.
pub open spec fn field(j: Json, key: Seq<char>) -> Option<Json> {
    match j {
        Json::Object(members) => lookup(members@, key),
        _ => None,
    }
}

/// The string that a value holds, if it is one.
pub open spec fn text_of(v: Option<Json>) -> Option<String> {
    match v {
        Some(Json::Str(s)) => Some(s),
        _ => None,
    }
}

/// The characters of a string value; empty for anything else.
pub open spec fn text_or_empty(v: Option<Json>) -> Seq<char> {
    match v {
        Some(Json::Str(s)) => s@,
        _ => Seq::empty(),
    }
}

/// The boolean that a value holds, if it is one.
pub open spec fn bool_of(v: Option<Json>) -> Option<bool> {
    match v {
        Some(Json::Bool(b)) => Some(b),
        _ => None,
    }
}

/// A boolean value, `false` for anything else.
pub open spec fn flag_of(v: Option<Json>) -> bool {
    match v {
        Some(Json::Bool(b)) => b,
        _ => false,
    }
}

/// Whether a character is an ASCII digit.
pub open spec fn is_digit(c: char) -> bool {
    48 <= (c as u32) && (c as u32) <= 57
}

/// Whether every character of a text is an ASCII digit.
pub open spec fn all_digits(s: Seq<char>) -> bool {
    forall|i: int| 0 <= i < s.len() ==> is_digit(#[trigger] s[i])
}

/// The value of a text of decimal digits.
pub open spec fn digits_value(s: Seq<char>) -> int
    decreases s.len(),
{
    if s.len() == 0 {
        0
    } else {
        digits_value(s.drop_last()) * 10 + ((s.last() as u32) as int - 48)
    }
}

/// The value of an integer written as an optional `-` and one or more digits.
pub open spec fn integer_text(s: Seq<char>) -> Option<int> {
    if s.len() > 0 && s[0] == '-' {
        if s.len() > 1 && all_digits(s.drop_first()) {
            Some(-digits_value(s.drop_first()))
        } else {
            None
        }
    } else if s.len() > 0 && all_digits(s) {
        Some(digits_value(s))
    } else {
        None
    }
}

/// The integer that a number's text gives, when its magnitude is below `INTEGER_BOUND`.
pub open spec fn number_value(s: Seq<char>) -> Option<int> {
    match integer_text(s) {
        Some(v) => if -(INTEGER_BOUND as int) < v && v < INTEGER_BOUND as int {
            Some(v)
        } else {
            None
        },
        None => None,
    }
}

/// The integer that a value holds, if it is a number written as an integer in range.
pub open spec fn int_of(v: Option<Json>) -> Option<int> {
    match v {
        Some(Json::Number(t)) => number_value(t@),
        _ => None,
    }
}

/// An integer kept only when it lies in `lo..=hi`.
pub open spec fn within(v: Option<int>, lo: int, hi: int) -> Option<int> {
    match v {
        Some(x) => if lo <= x && x <= hi {
            Some(x)
        } else {
            None
        },
        None => None,
    }
}

/// Reads an integer written as an optional `-` and decimal digits.
pub fn parse_integer(t: &str) -> (r: Option<i128>)
    ensures
        match r {
            Some(v) => number_value(t@) == Some(v as int),
            None => number_value(t@) is None,
        },
{
    let n = t.unicode_len();
    if n == 0 {
        return None;
    }
    let neg = t.get_char(0) == '-';
    let start: usize = if neg { 1 } else { 0 };
    if start >= n {
        return None;
    }
    let ghost s = t@;
    let ghost d = s.subrange(start as int, n as int);
    assert(neg ==> d =~= s.drop_first());
    assert(!neg ==> d =~= s);
    assert(neg == (s[0] == '-'));
    let mut acc: u128 = 0;
    let mut big = false;
    let mut i: usize = start;
    while i < n
        invariant
            s == t@,
            n == s.len(),
            start <= i <= n,
            d == s.subrange(start as int, n as int),
            neg ==> d == s.drop_first(),
            !neg ==> d == s,
            neg == (s[0] == '-'),
            start < n,
            start == (if neg { 1usize } else { 0usize }),
            all_digits(s.subrange(start as int, i as int)),
            !big ==> acc == digits_value(s.subrange(start as int, i as int)),
            !big ==> acc <= INTEGER_BOUND,
            big ==> digits_value(s.subrange(start as int, i as int)) > INTEGER_BOUND,
        decreases n - i,
    {
        let c = t.get_char(i);
        let cu = c as u32;
        if cu < 48 || cu > 57 {
            assert(d[i - start] == c);
            assert(!all_digits(d));
            return None;
        }
        let ghost prev = s.subrange(start as int, i as int);
        let ghost next = s.subrange(start as int, i + 1);
        assert(next.drop_last() =~= prev);
        assert(next.last() == c);
        assert(digits_value(next) == digits_value(prev) * 10 + (cu as int - 48));
        assert forall|k: int| 0 <= k < next.len() implies is_digit(#[trigger] next[k]) by {
            if k < prev.len() {
                assert(next[k] == prev[k]);
            }
        }
        if !big {
            let v = acc * 10 + (cu - 48) as u128;
            if v > INTEGER_BOUND {
                big = true;
            } else {
                acc = v;
            }
        }
        i = i + 1;
    }
    assert(s.subrange(start as int, n as int) == d);
    if big || acc >= INTEGER_BOUND {
        return None;
    }
    if neg {
        Some(-(acc as i128))
    } else {
        Some(acc as i128)
    }
}

/// The member `key` of an object, if it has one.
pub fn get<'a>(j: &'a Json, key: &str) -> (r: Option<&'a Json>)
    ensures
        match r {
            Some(v) => field(*j, key@) == Some(*v),
            None => field(*j, key@) is None,
        },
{
    match j {
        Json::Object(members) => {
            let mut i: usize = 0;
            assert(members@.subrange(0, members@.len() as int) =~= members@);
            while i < members.len()
                invariant
                    i <= members@.len(),
                    field(*j, key@) == lookup(members@, key@),
                    lookup(members@, key@) == lookup(members@.subrange(i as int, members@.len() as int), key@),
                decreases members.len() - i,
            {
                let ghost rest = members@.subrange(i as int, members@.len() as int);
                assert(rest.drop_first() =~= members@.subrange(i + 1, members@.len() as int));
                assert(rest[0] == members@[i as int]);
                if crate::text::same_text(members[i].0.as_str(), key) {
                    assert(lookup(rest, key@) == Some(rest[0].1));
                    return Some(&members[i].1);
                }
                i = i + 1;
            }
            None
        },
        _ => None,
    }
}

/// The string member `key`, if present.
pub fn text_field(j: &Json, key: &str) -> (r: Option<String>)
    ensures
        r == text_of(field(*j, key@)),
{
    match get(j, key) {
        Some(Json::Str(s)) => Some(s.clone()),
        _ => None,
    }
}

/// The string member `key`; empty when it is absent or not a string.
pub fn text_or_empty_field(j: &Json, key: &str) -> (r: String)
    ensures
        r@ == text_or_empty(field(*j, key@)),
{
    match get(j, key) {
        Some(Json::Str(s)) => s.clone(),
        _ => String::new(),
    }
}

/// The boolean member `key`, if present.
pub fn bool_field(j: &Json, key: &str) -> (r: Option<bool>)
    ensures
        r == bool_of(field(*j, key@)),
{
    match get(j, key) {
        Some(Json::Bool(b)) => Some(*b),
        _ => None,
    }
}

/// The boolean member `key`; `false` when it is absent or not a boolean.
pub fn flag_field(j: &Json, key: &str) -> (r: bool)
    ensures
        r == flag_of(field(*j, key@)),
{
    match get(j, key) {
        Some(Json::Bool(b)) => *b,
        _ => false,
    }
}

/// The integer member `key`, if present and in `lo..=hi`.
pub fn int_field(j: &Json, key: &str, lo: i128, hi: i128) -> (r: Option<i128>)
    ensures
        match r {
            Some(v) => within(int_of(field(*j, key@)), lo as int, hi as int) == Some(v as int),
            None => within(int_of(field(*j, key@)), lo as int, hi as int) is None,
        },
{
    match get(j, key) {
        Some(Json::Number(t)) => match parse_integer(t.as_str()) {
            Some(v) => if lo <= v && v <= hi {
                Some(v)
            } else {
                None
            },
            None => None,
        },
        _ => None,
    }
}

/// The `i64` that a value holds, if it is an integer in the range of `i64`.
pub open spec fn i64_of(v: Option<Json>) -> Option<i64> {
    match within(int_of(v), i64::MIN as int, i64::MAX as int) {
        Some(x) => Some(x as i64),
        None => None,
    }
}

/// The member `key` as an `i64`, if it is an integer in range.
pub fn i64_field(j: &Json, key: &str) -> (r: Option<i64>)
    ensures
        r == i64_of(field(*j, key@)),
{
    match int_field(j, key, i64::MIN as i128, i64::MAX as i128) {
        Some(v) => Some(v as i64),
        None => None,
    }
}

/// The `i32` that a value holds, if it is an integer in the range of `i32`.
pub open spec fn i32_of(v: Option<Json>) -> Option<i32> {
    match within(int_of(v), i32::MIN as int, i32::MAX as int) {
        Some(x) => Some(x as i32),
        None => None,
    }
}

/// The member `key` as an `i32`, if it is an integer in range.
pub fn i32_field(j: &Json, key: &str) -> (r: Option<i32>)
    ensures
        r == i32_of(field(*j, key@)),
{
    match int_field(j, key, i32::MIN as i128, i32::MAX as i128) {
        Some(v) => Some(v as i32),
        None => None,
    }
}

/// The `u8` that a value holds, if it is an integer in the range of `u8`.
pub open spec fn u8_of(v: Option<Json>) -> Option<u8> {
    match within(int_of(v), 0 as int, 255 as int) {
        Some(x) => Some(x as u8),
        None => None,
    }
}

/// The member `key` as an `u8`, if it is an integer in range.
pub fn u8_field(j: &Json, key: &str) -> (r: Option<u8>)
    ensures
        r == u8_of(field(*j, key@)),
{
    match int_field(j, key, 0 as i128, 255 as i128) {
        Some(v) => Some(v as u8),
        None => None,
    }
}

/// The `u16` that a value holds, if it is an integer in the range of `u16`.
pub open spec fn u16_of(v: Option<Json>) -> Option<u16> {
    match within(int_of(v), 0 as int, 65535 as int) {
        Some(x) => Some(x as u16),
        None => None,
    }
}

/// The member `key` as an `u16`, if it is an integer in range.
pub fn u16_field(j: &Json, key: &str) -> (r: Option<u16>)
    ensures
        r == u16_of(field(*j, key@)),
{
    match int_field(j, key, 0 as i128, 65535 as i128) {
        Some(v) => Some(v as u16),
        None => None,
    }
}

/// The `u32` that a value holds, if it is an integer in the range of `u32`.
pub open spec fn u32_of(v: Option<Json>) -> Option<u32> {
    match within(int_of(v), 0 as int, 4294967295 as int) {
        Some(x) => Some(x as u32),
        None => None,
    }
}

/// The member `key` as an `u32`, if it is an integer in range.
pub fn u32_field(j: &Json, key: &str) -> (r: Option<u32>)
    ensures
        r == u32_of(field(*j, key@)),
{
    match int_field(j, key, 0 as i128, 4294967295 as i128) {
        Some(v) => Some(v as u32),
        None => None,
    }
}

/// The `u64` that a value holds, if it is an integer in the range of `u64`.
pub open spec fn u64_of(v: Option<Json>) -> Option<u64> {
    match within(int_of(v), 0 as int, 18446744073709551615 as int) {
        Some(x) => Some(x as u64),
        None => None,
    }
}

/// The member `key` as an `u64`, if it is an integer in range.
pub fn u64_field(j: &Json, key: &str) -> (r: Option<u64>)
    ensures
        r == u64_of(field(*j, key@)),
{
    match int_field(j, key, 0 as i128, 18446744073709551615 as i128) {
        Some(v) => Some(v as u64),
        None => None,
    }
}

/// The strings of an array value, when it is an array of strings only.
pub open spec fn strings_of(v: Option<Json>) -> Option<Seq<String>> {
    match v {
        Some(Json::Array(items)) => if forall|i: int| 0 <= i < items@.len() ==> (#[trigger] items@[i]) is Str {
            Some(Seq::new(items@.len(), |i: int| items@[i]->Str_0))
        } else {
            None
        },
        _ => None,
    }
}

/// The member `key` as a list of strings, when it is an array of strings only.
pub fn strings_field(j: &Json, key: &str) -> (r: Option<Vec<String>>)
    ensures
        match r {
            Some(v) => strings_of(field(*j, key@)) == Some(v@),
            None => strings_of(field(*j, key@)) is None,
        },
{
    match get(j, key) {
        Some(Json::Array(items)) => {
            let mut out: Vec<String> = Vec::new();
            let mut i: usize = 0;
            while i < items.len()
                invariant
                    i <= items@.len(),
                    field(*j, key@) == Some(Json::Array(*items)),
                    out@.len() == i,
                    forall|k: int| 0 <= k < i ==> (#[trigger] items@[k]) is Str && out@[k] == items@[k]->Str_0,
                decreases items.len() - i,
            {
                match &items[i] {
                    Json::Str(s) => out.push(s.clone()),
                    _ => {
                        assert(!(items@[i as int] is Str));
                        return None;
                    },
                }
                i = i + 1;
            }
            assert(out@ =~= Seq::new(items@.len(), |k: int| items@[k]->Str_0));
            Some(out)
        },
        _ => None,
    }
}

/// The member `key`, or `null` when it is absent.
pub open spec fn member_or_null(j: Json, key: Seq<char>) -> Json {
    match field(j, key) {
        Some(v) => v,
        None => Json::Null,
    }
}

/// The items of an array value; none for anything else.
pub open spec fn items_of(v: Json) -> Seq<Json> {
    match v {
        Json::Array(items) => items@,
        _ => Seq::empty(),
    }
}


/// The value if it is an object.
pub open spec fn object_of(v: Option<Json>) -> Option<Json> {
    match v {
        Some(Json::Object(m)) => Some(Json::Object(m)),
        _ => None,
    }
}

/// The index of the first member named `key`.
pub fn position(members: &Vec<(String, Json)>, key: &str) -> (r: Option<usize>)
    ensures
        match r {
            Some(i) => i < members@.len() && members@[i as int].0@ == key@ && lookup(members@, key@)
                == Some(members@[i as int].1),
            None => lookup(members@, key@) is None,
        },
{
    let mut i: usize = 0;
    assert(members@.subrange(0, members@.len() as int) =~= members@);
    while i < members.len()
        invariant
            i <= members@.len(),
            lookup(members@, key@) == lookup(members@.subrange(i as int, members@.len() as int), key@),
        decreases members.len() - i,
    {
        let ghost rest = members@.subrange(i as int, members@.len() as int);
        assert(rest.drop_first() =~= members@.subrange(i + 1, members@.len() as int));
        assert(rest[0] == members@[i as int]);
        if crate::text::same_text(members[i].0.as_str(), key) {
            assert(lookup(rest, key@) == Some(rest[0].1));
            return Some(i);
        }
        i = i + 1;
    }
    None
}

/// Takes the member `key` out of a document; `null` when it has none.
pub fn take_member(j: Json, key: &str) -> (r: Json)
    ensures
        r == member_or_null(j, key@),
{
    match j {
        Json::Object(mut members) => match position(&members, key) {
            Some(i) => members.remove(i).1,
            None => Json::Null,
        },
        _ => Json::Null,
    }
}

/// Takes two members with different names out of a document; `null` for a missing one.
pub fn take_two(j: Json, k1: &str, k2: &str) -> (r: (Json, Json))
    requires
        k1@ != k2@,
    ensures
        r.0 == member_or_null(j, k1@),
        r.1 == member_or_null(j, k2@),
{
    match j {
        Json::Object(mut members) => {
            let ghost old_members = members@;
            let p1 = position(&members, k1);
            let p2 = position(&members, k2);
            match (p1, p2) {
                (Some(i1), Some(i2)) => {
                    if i1 > i2 {
                        let a = members.remove(i1).1;
                        let b = members.remove(i2).1;
                        (a, b)
                    } else {
                        let b = members.remove(i2).1;
                        let a = members.remove(i1).1;
                        (a, b)
                    }
                },
                (Some(i1), None) => (members.remove(i1).1, Json::Null),
                (None, Some(i2)) => (Json::Null, members.remove(i2).1),
                (None, None) => (Json::Null, Json::Null),
            }
        },
        _ => (Json::Null, Json::Null),
    }
}


/// The `i32` items of an array value, when every item is an integer in range.
pub open spec fn i32s_of(v: Option<Json>) -> Option<Seq<i32>> {
    match v {
        Some(Json::Array(items)) => if forall|i: int|
            0 <= i < items@.len() ==> (#[trigger] i32_of(Some(items@[i]))) is Some {
            Some(Seq::new(items@.len(), |i: int| i32_of(Some(items@[i]))->0))
        } else {
            None
        },
        _ => None,
    }
}

/// The member `key` as a list of `i32`, when it is an array of integers in range.
pub fn i32s_field(j: &Json, key: &str) -> (r: Option<Vec<i32>>)
    ensures
        match r {
            Some(v) => i32s_of(field(*j, key@)) == Some(v@),
            None => i32s_of(field(*j, key@)) is None,
        },
{
    match get(j, key) {
        Some(Json::Array(items)) => {
            let mut out: Vec<i32> = Vec::new();
            let mut i: usize = 0;
            while i < items.len()
                invariant
                    i <= items@.len(),
                    field(*j, key@) == Some(Json::Array(*items)),
                    out@.len() == i,
                    forall|k: int|
                        0 <= k < i ==> (#[trigger] i32_of(Some(items@[k]))) == Some(out@[k]),
                decreases items.len() - i,
            {
                let v = match &items[i] {
                    Json::Number(t) => match parse_integer(t.as_str()) {
                        Some(v) => if -2147483648 <= v && v <= 2147483647 {
                            v as i32
                        } else {
                            assert(i32_of(Some(items@[i as int])) is None);
                            return None;
                        },
                        None => {
                            assert(i32_of(Some(items@[i as int])) is None);
                            return None;
                        },
                    },
                    _ => {
                        assert(i32_of(Some(items@[i as int])) is None);
                        return None;
                    },
                };
                out.push(v);
                i = i + 1;
            }
            assert(out@ =~= Seq::new(items@.len(), |k: int| i32_of(Some(items@[k]))->0));
            Some(out)
        },
        _ => None,
    }
}


/// Whether a member is absent or `null`.
pub open spec fn absent(v: Option<Json>) -> bool {
    v is None || v == Some(Json::Null)
}

/// Whether a member is absent, `null` or a string.
pub open spec fn fits_text(v: Option<Json>) -> bool {
    absent(v) || text_of(v) is Some
}

/// Whether a member is absent, `null` or a boolean.
pub open spec fn fits_bool(v: Option<Json>) -> bool {
    absent(v) || bool_of(v) is Some
}

/// Whether a member is absent, `null` or an integer in `lo..=hi`.
pub open spec fn fits_int(v: Option<Json>, lo: int, hi: int) -> bool {
    absent(v) || within(int_of(v), lo, hi) is Some
}

/// Whether a member is absent, `null` or an array of strings.
pub open spec fn fits_strings(v: Option<Json>) -> bool {
    absent(v) || strings_of(v) is Some
}

/// Whether a member is absent, `null` or an array of `i32` integers.
pub open spec fn fits_i32s(v: Option<Json>) -> bool {
    absent(v) || i32s_of(v) is Some
}

/// Whether a value is an object or `null`.
pub open spec fn object_or_null(j: Json) -> bool {
    j is Object || j is Null
}

/// Whether the member `key` is absent, `null` or a string.
pub fn text_fits(j: &Json, key: &str) -> (r: bool)
    ensures
        r == fits_text(field(*j, key@)),
{
    match get(j, key) {
        None => true,
        Some(Json::Null) => true,
        Some(Json::Str(_)) => true,
        _ => false,
    }
}

/// Whether the member `key` is absent, `null` or a boolean.
pub fn bool_fits(j: &Json, key: &str) -> (r: bool)
    ensures
        r == fits_bool(field(*j, key@)),
{
    match get(j, key) {
        None => true,
        Some(Json::Null) => true,
        Some(Json::Bool(_)) => true,
        _ => false,
    }
}

/// Whether the member `key` is absent, `null` or an integer in `lo..=hi`.
pub fn int_fits(j: &Json, key: &str, lo: i128, hi: i128) -> (r: bool)
    ensures
        r == fits_int(field(*j, key@), lo as int, hi as int),
{
    match get(j, key) {
        None => true,
        Some(Json::Null) => true,
        _ => int_field(j, key, lo, hi).is_some(),
    }
}

/// Whether the member `key` is absent, `null` or an array of strings.
pub fn strings_fits(j: &Json, key: &str) -> (r: bool)
    ensures
        r == fits_strings(field(*j, key@)),
{
    match get(j, key) {
        None => true,
        Some(Json::Null) => true,
        _ => strings_field(j, key).is_some(),
    }
}

/// Whether the member `key` is absent, `null` or an array of `i32` integers.
pub fn i32s_fits(j: &Json, key: &str) -> (r: bool)
    ensures
        r == fits_i32s(field(*j, key@)),
{
    match get(j, key) {
        None => true,
        Some(Json::Null) => true,
        _ => i32s_field(j, key).is_some(),
    }
}

} // verus!
