//! JSON values as the rest of the library reads them.
//!
//! Text is parsed by `serde_json`; what it returns is copied into [`Json`], a
//! plain tree that verified code can take apart.

use vstd::prelude::*;

verus! {

/// A JSON number, kept as the integers it can be read as. A number with a
/// fraction or an exponent, or one too large for both, has neither.
#[derive(Clone, Copy, Debug, PartialEq, Eq)]
pub struct Number {
    pub unsigned: Option<u64>,
    pub signed: Option<i64>,
}

/// A JSON value. The members of an object are kept in the order in which the
/// parser hands them out.
#[derive(Debug)]
pub enum Json {
    Null,
    Bool(bool),
    Number(Number),
    Text(String),
    List(Vec<Json>),
    Object(Vec<(String, Json)>),
}

/// `serde_json::Value`, carried from the parser to the copy below; nothing
/// of what it holds is known here.
#[verifier::external_type_specification]
#[verifier::external_body]
pub struct ExValue(serde_json::Value);

/// What `serde_json::from_str` makes of a text: the value it describes, or
/// `None` where the text is not one JSON value.
pub uninterp spec fn parsed_json(text: Seq<char>) -> Option<Json>;

/// Whether every character is a decimal digit.
pub open spec fn all_digits(s: Seq<char>) -> bool {
    forall|i: int| 0 <= i < s.len() ==> '0' <= #[trigger] s[i] <= '9'
}

/// The number that decimal digits spell.
pub open spec fn digits_value(s: Seq<char>) -> nat
    decreases s.len(),
{
    if s.len() == 0 {
        0
    } else {
        (digits_value(s.drop_last()) * 10 + (s.last() as nat - '0' as nat)) as nat
    }
}

/// The count that a text spells: decimal digits, at least one, after at most
/// one `+`, where the number fits 64 bits.
pub open spec fn parsed_u64(text: Seq<char>) -> Option<u64> {
    let digits = if text.len() > 0 && text[0] == '+' {
        text.drop_first()
    } else {
        text
    };
    if digits.len() > 0 && all_digits(digits) && digits_value(digits) <= u64::MAX {
        Some(digits_value(digits) as u64)
    } else {
        None
    }
}

/// Calls `serde_json::from_str` for a `serde_json::Value` and copies the value
/// into a [`Json`]. The contract only names the result: the same text always
/// gives the same value.
#[verifier::external_body]
pub(crate) fn parse_json(text: &str) -> (r: Option<Json>)
    ensures
        r == parsed_json(text@),
{
    match serde_json::from_str::<serde_json::Value>(text) {
        Ok(value) => Some(json_of_value(&value)),
        Err(_) => None,
    }
}

/// Copies a `serde_json::Value` into a [`Json`], variant by variant; a number
/// through `Number::as_u64` and `Number::as_i64`. Nothing is claimed of the
/// result here: `parse_json` names it.
#[verifier::external_body]
fn json_of_value(value: &serde_json::Value) -> Json {
    match value {
        serde_json::Value::Null => Json::Null,
        serde_json::Value::Bool(b) => Json::Bool(*b),
        serde_json::Value::Number(n) => Json::Number(
            Number { unsigned: n.as_u64(), signed: n.as_i64() },
        ),
        serde_json::Value::String(s) => Json::Text(s.clone()),
        serde_json::Value::Array(a) => Json::List(a.iter().map(json_of_value).collect()),
        serde_json::Value::Object(o) => Json::Object(
            o.iter().map(|(k, v)| (k.clone(), json_of_value(v))).collect(),
        ),
    }
}

/// Digits that go on spell a number that is no smaller.
pub proof fn lemma_digits_grow(s: Seq<char>, n: int)
    requires
        0 <= n <= s.len(),
        all_digits(s),
    ensures
        digits_value(s.take(n)) <= digits_value(s),
    decreases s.len() - n,
{
    if n < s.len() {
        assert forall|i: int| 0 <= i < s.drop_last().len() implies '0' <= #[trigger] s.drop_last()[i]
            <= '9' by {
            assert(s.drop_last()[i] == s[i]);
        }
        assert('0' <= s[s.len() - 1] <= '9');
        lemma_digits_grow(s.drop_last(), n);
        assert(s.drop_last().take(n) =~= s.take(n));
    } else {
        assert(s.take(n) =~= s);
    }
}

/// Reads the count that a text spells, as `str::parse` does for `u64`.
pub fn parse_u64(text: &str) -> (r: Option<u64>)
    ensures
        r == parsed_u64(text@),
{
    if !text.is_ascii() {
        proof {
            let at = choose|at: int|
                0 <= at < text@.len() && !('\0' <= #[trigger] text@[at] <= '\u{7f}');
            if text@.len() > 0 && text@[0] == '+' {
                assert(text@.drop_first()[at - 1] == text@[at]);
            }
        }
        return None;
    }
    let n: usize = text.unicode_len();
    let start: usize = if n > 0 && text.get_ascii(0) == 43 {
        1
    } else {
        0
    };
    let ghost digits = if text@.len() > 0 && text@[0] == '+' {
        text@.drop_first()
    } else {
        text@
    };
    assert(digits =~= text@.skip(start as int));
    if start == n {
        return None;
    }
    let mut value: u64 = 0;
    let mut i: usize = start;
    assert(digits.take(0) =~= Seq::<char>::empty());
    while i < n
        invariant
            start <= i <= n,
            n == text@.len(),
            text.is_ascii(),
            digits == text@.skip(start as int),
            digits == if text@.len() > 0 && text@[0] == '+' {
                text@.drop_first()
            } else {
                text@
            },
            all_digits(digits.take(i - start)),
            value == digits_value(digits.take(i - start)),
        decreases n - i,
    {
        let c: u8 = text.get_ascii(i);
        let ghost seen = digits.take(i - start);
        let ghost next = digits.take(i - start + 1);
        proof {
            assert(next.drop_last() =~= seen);
            assert(next.last() == text@[i as int]);
            assert('\0' <= text@[i as int] <= '\u{7f}');
        }
        if c < 48 || c > 57 {
            assert(digits[i - start] == text@[i as int]);
            return None;
        }
        let d: u64 = (c - 48) as u64;
        if value > (u64::MAX - d) / 10 {
            proof {
                assert(digits_value(next) == value * 10 + d);
                if all_digits(digits) {
                    lemma_digits_grow(digits, i - start + 1);
                }
            }
            return None;
        }
        value = value * 10 + d;
        proof {
            assert forall|k: int| 0 <= k < next.len() implies '0' <= #[trigger] next[k] <= '9' by {
                if k < seen.len() {
                    assert(next[k] == seen[k]);
                }
            }
        }
        i += 1;
    }
    assert(digits.take(n - start) =~= digits);
    Some(value)
}

/// The value of the first member named `key` among `entries`.
pub open spec fn member(entries: Seq<(String, Json)>, key: Seq<char>) -> Option<Json>
    decreases entries.len(),
{
    if entries.len() == 0 {
        None
    } else if entries[0].0@ == key {
        Some(entries[0].1)
    } else {
        member(entries.drop_first(), key)
    }
}

/// `member` skips a prefix that does not hold the key.
pub proof fn lemma_member_skip(entries: Seq<(String, Json)>, key: Seq<char>, n: int)
    requires
        0 <= n <= entries.len(),
        forall|i: int| 0 <= i < n ==> (#[trigger] entries[i]).0@ != key,
    ensures
        member(entries, key) == member(entries.skip(n), key),
    decreases n,
{
    if n == 0 {
        assert(entries.skip(0) =~= entries);
    } else {
        let rest = entries.drop_first();
        assert(entries[0].0@ != key);
        assert forall|i: int| 0 <= i < n - 1 implies (#[trigger] rest[i]).0@ != key by {
            assert(rest[i] == entries[i + 1]);
        }
        lemma_member_skip(rest, key, n - 1);
        assert(rest.skip(n - 1) =~= entries.skip(n));
    }
}

impl Json {
    /// The member `key` of an object; `None` for a value that is no object or
    /// has no such member.
    pub open spec fn spec_get(self, key: Seq<char>) -> Option<Json> {
        match self {
            Json::Object(entries) => member(entries@, key),
            _ => None,
        }
    }

    /// The text under `key`, where the member is there and is a string.
    pub open spec fn spec_text(self, key: Seq<char>) -> Option<String> {
        match self.spec_get(key) {
            Some(Json::Text(s)) => Some(s),
            _ => None,
        }
    }

    /// Looks up a member of an object.
    pub fn get(&self, key: &str) -> (r: Option<&Json>)
        ensures
            match r {
                Some(v) => self.spec_get(key@) == Some(*v),
                None => self.spec_get(key@) is None,
            },
    {
        match self {
            Json::Object(entries) => {
                let wanted = key.to_owned();
                let mut i: usize = 0;
                while i < entries.len()
                    invariant
                        i <= entries.len(),
                        wanted@ == key@,
                        self.spec_get(key@) == member(entries@, key@),
                        forall|k: int| 0 <= k < i ==> (#[trigger] entries@[k]).0@ != key@,
                    decreases entries.len() - i,
                {
                    if entries[i].0 == wanted {
                        proof {
                            lemma_member_skip(entries@, key@, i as int);
                            assert(entries@.skip(i as int)[0] == entries@[i as int]);
                        }
                        return Some(&entries[i].1);
                    }
                    i += 1;
                }
                proof {
                    lemma_member_skip(entries@, key@, entries@.len() as int);
                }
                None
            },
            _ => None,
        }
    }

    /// The string under `key`.
    pub fn text(&self, key: &str) -> (r: Option<String>)
        ensures
            r == self.spec_text(key@),
    {
        match self.get(key) {
            Some(Json::Text(s)) => Some(s.clone()),
            _ => None,
        }
    }

    /// The string under `key` where one may be left out: `Some(None)` for a
    /// member that is missing or `null`, `None` for one that is neither that
    /// nor a string.
    pub open spec fn spec_optional_text(self, key: Seq<char>) -> Option<Option<String>> {
        match self.spec_get(key) {
            None | Some(Json::Null) => Some(None),
            Some(Json::Text(s)) => Some(Some(s)),
            _ => None,
        }
    }

    /// The string under `key`, which may be missing or `null`.
    pub fn optional_text(&self, key: &str) -> (r: Option<Option<String>>)
        ensures
            r == self.spec_optional_text(key@),
    {
        match self.get(key) {
            None | Some(Json::Null) => Some(None),
            Some(Json::Text(s)) => Some(Some(s.clone())),
            _ => None,
        }
    }

    /// This value as a count: a number without sign or fraction, or a string
    /// that spells one.
    pub open spec fn spec_as_count(self) -> Option<u64> {
        match self {
            Json::Number(n) => n.unsigned,
            Json::Text(s) => parsed_u64(s@),
            _ => None,
        }
    }

    /// This value as a count.
    pub fn as_count(&self) -> (r: Option<u64>)
        ensures
            r == self.spec_as_count(),
    {
        match self {
            Json::Number(n) => n.unsigned,
            Json::Text(s) => parse_u64(s.as_str()),
            _ => None,
        }
    }

    /// The count under `key`.
    pub open spec fn spec_count(self, key: Seq<char>) -> Option<u64> {
        match self.spec_get(key) {
            Some(v) => v.spec_as_count(),
            None => None,
        }
    }

    /// The count under `key`.
    pub fn count(&self, key: &str) -> (r: Option<u64>)
        ensures
            r == self.spec_count(key@),
    {
        match self.get(key) {
            Some(v) => v.as_count(),
            None => None,
        }
    }

    /// The count under `key` where it fits 32 bits.
    pub open spec fn spec_count32(self, key: Seq<char>) -> Option<u32> {
        match self.spec_count(key) {
            Some(n) if n <= u32::MAX => Some(n as u32),
            _ => None,
        }
    }

    /// The count under `key` where it fits 32 bits.
    pub fn count32(&self, key: &str) -> (r: Option<u32>)
        ensures
            r == self.spec_count32(key@),
    {
        match self.count(key) {
            Some(n) => narrow(n),
            None => None,
        }
    }

    /// The count under `key` where one may be left out: `Some(None)` for a
    /// member that is missing or `null`. Here the count must be a number.
    pub open spec fn spec_optional_count32(self, key: Seq<char>) -> Option<Option<u32>> {
        match self.spec_get(key) {
            None | Some(Json::Null) => Some(None),
            Some(Json::Number(n)) => match n.unsigned {
                Some(v) if v <= u32::MAX => Some(Some(v as u32)),
                _ => None,
            },
            _ => None,
        }
    }

    /// The count under `key`, which may be missing or `null`.
    pub fn optional_count32(&self, key: &str) -> (r: Option<Option<u32>>)
        ensures
            r == self.spec_optional_count32(key@),
    {
        match self.get(key) {
            None | Some(Json::Null) => Some(None),
            Some(Json::Number(n)) => match n.unsigned {
                Some(v) => match narrow(v) {
                    Some(small) => Some(Some(small)),
                    None => None,
                },
                None => None,
            },
            _ => None,
        }
    }

    /// The count under `key`, or 0 where there is no such member.
    pub open spec fn spec_count_or_zero(self, key: Seq<char>) -> Option<u64> {
        match self.spec_get(key) {
            Some(v) => v.spec_as_count(),
            None => Some(0),
        }
    }

    /// The count under `key`, or 0 where there is no such member.
    pub fn count_or_zero(&self, key: &str) -> (r: Option<u64>)
        ensures
            r == self.spec_count_or_zero(key@),
    {
        match self.get(key) {
            Some(v) => v.as_count(),
            None => Some(0),
        }
    }

    /// The count under `key` where the member must be a number.
    pub open spec fn spec_plain_count(self, key: Seq<char>) -> Option<u64> {
        match self.spec_get(key) {
            Some(Json::Number(n)) => n.unsigned,
            _ => None,
        }
    }

    /// The count under `key` where the member must be a number.
    pub fn plain_count(&self, key: &str) -> (r: Option<u64>)
        ensures
            r == self.spec_plain_count(key@),
    {
        match self.get(key) {
            Some(Json::Number(n)) => n.unsigned,
            _ => None,
        }
    }

    /// The count under `key` where one may be left out and, if it is there,
    /// must be a number: `Some(None)` for a member that is missing or `null`.
    pub open spec fn spec_optional_count(self, key: Seq<char>) -> Option<Option<u64>> {
        match self.spec_get(key) {
            None | Some(Json::Null) => Some(None),
            Some(Json::Number(n)) => match n.unsigned {
                Some(v) => Some(Some(v)),
                None => None,
            },
            _ => None,
        }
    }

    /// The count under `key`, which may be missing or `null`.
    pub fn optional_count(&self, key: &str) -> (r: Option<Option<u64>>)
        ensures
            r == self.spec_optional_count(key@),
    {
        match self.get(key) {
            None | Some(Json::Null) => Some(None),
            Some(Json::Number(n)) => match n.unsigned {
                Some(v) => Some(Some(v)),
                None => None,
            },
            _ => None,
        }
    }

    /// The truth value under `key` where the member must be `true` or
    /// `false` itself.
    pub open spec fn spec_plain_flag(self, key: Seq<char>) -> Option<bool> {
        match self.spec_get(key) {
            Some(Json::Bool(b)) => Some(b),
            _ => None,
        }
    }

    /// The truth value under `key` where the member must be `true` or
    /// `false` itself.
    pub fn plain_flag(&self, key: &str) -> (r: Option<bool>)
        ensures
            r == self.spec_plain_flag(key@),
    {
        match self.get(key) {
            Some(Json::Bool(b)) => Some(*b),
            _ => None,
        }
    }

    /// The truth value under `key` where one may be left out and, if it is
    /// there, must be `true` or `false` itself: `Some(None)` for a member
    /// that is missing or `null`.
    pub open spec fn spec_optional_flag(self, key: Seq<char>) -> Option<Option<bool>> {
        match self.spec_get(key) {
            None | Some(Json::Null) => Some(None),
            Some(Json::Bool(b)) => Some(Some(b)),
            _ => None,
        }
    }

    /// The truth value under `key`, which may be missing or `null`.
    pub fn optional_flag(&self, key: &str) -> (r: Option<Option<bool>>)
        ensures
            r == self.spec_optional_flag(key@),
    {
        match self.get(key) {
            None | Some(Json::Null) => Some(None),
            Some(Json::Bool(b)) => Some(Some(*b)),
            _ => None,
        }
    }

    /// The truth value under `key` where the member must be `true` or
    /// `false` itself; `false` where there is no such member.
    pub open spec fn spec_flag_or_false(self, key: Seq<char>) -> Option<bool> {
        match self.spec_get(key) {
            None => Some(false),
            Some(Json::Bool(b)) => Some(b),
            _ => None,
        }
    }

    /// The truth value under `key`, or `false` where there is no such member.
    pub fn flag_or_false(&self, key: &str) -> (r: Option<bool>)
        ensures
            r == self.spec_flag_or_false(key@),
    {
        match self.get(key) {
            None => Some(false),
            Some(Json::Bool(b)) => Some(*b),
            _ => None,
        }
    }

    /// The truth value under `key`: `true` or `false`, as such or spelled in
    /// a string.
    pub open spec fn spec_flag(self, key: Seq<char>) -> Option<bool> {
        match self.spec_get(key) {
            Some(Json::Bool(b)) => Some(b),
            Some(Json::Text(s)) => if s@ == "true"@ {
                Some(true)
            } else if s@ == "false"@ {
                Some(false)
            } else {
                None
            },
            _ => None,
        }
    }

    /// The truth value under `key`.
    pub fn flag(&self, key: &str) -> (r: Option<bool>)
        ensures
            r == self.spec_flag(key@),
    {
        match self.get(key) {
            Some(Json::Bool(b)) => Some(*b),
            Some(Json::Text(s)) => {
                if same_text(s.as_str(), "true") {
                    Some(true)
                } else if same_text(s.as_str(), "false") {
                    Some(false)
                } else {
                    None
                }
            },
            _ => None,
        }
    }

    /// The items of the list under `key`.
    pub open spec fn spec_items(self, key: Seq<char>) -> Option<Seq<Json>> {
        match self.spec_get(key) {
            Some(Json::List(items)) => Some(items@),
            _ => None,
        }
    }

    /// The list under `key`.
    pub fn items(&self, key: &str) -> (r: Option<&Vec<Json>>)
        ensures
            match r {
                Some(v) => self.spec_items(key@) == Some(v@),
                None => self.spec_items(key@) is None,
            },
    {
        match self.get(key) {
            Some(Json::List(items)) => Some(items),
            _ => None,
        }
    }
}

/// A count as 32 bits, where it fits.
pub fn narrow(n: u64) -> (r: Option<u32>)
    ensures
        r == if n <= u32::MAX {
            Some(n as u32)
        } else {
            None
        },
{
    if n <= 0xffff_ffff {
        Some(n as u32)
    } else {
        None
    }
}

/// Whether two texts are the same.
pub fn same_text(a: &str, b: &str) -> (r: bool)
    ensures
        r == (a@ == b@),
{
    a.to_owned() == b.to_owned()
}

/// A type whose values can be read from JSON.
pub trait FromJson: Sized {
    /// Whether `j` describes a value of the type.
    spec fn parses(j: Json) -> bool;

    /// Whether `v` is the value that `j` describes.
    spec fn parsed_as(j: Json, v: Self) -> bool;

    /// Reads the value that `j` describes, if it describes one.
    fn from_json(j: &Json) -> (r: Option<Self>)
        ensures
            r is Some <==> Self::parses(*j),
            r matches Some(v) ==> Self::parsed_as(*j, v),
    ;
}

impl FromJson for String {
    open spec fn parses(j: Json) -> bool {
        j is Text
    }

    open spec fn parsed_as(j: Json, v: String) -> bool {
        j == Json::Text(v)
    }

    fn from_json(j: &Json) -> (r: Option<String>) {
        match j {
            Json::Text(s) => Some(s.clone()),
            _ => None,
        }
    }
}

/// Whether `j` has a member `key` that describes a `T`.
pub open spec fn member_parses<T: FromJson>(j: Json, key: Seq<char>) -> bool {
    j.spec_get(key) matches Some(sub) && T::parses(sub)
}

/// Whether `v` is what the member `key` of `j` describes.
pub open spec fn member_parsed_as<T: FromJson>(j: Json, key: Seq<char>, v: T) -> bool {
    j.spec_get(key) matches Some(sub) && T::parsed_as(sub, v)
}

/// Reads the member `key` of `j`.
pub fn read_member<T: FromJson>(j: &Json, key: &str) -> (r: Option<T>)
    ensures
        r is Some <==> member_parses::<T>(*j, key@),
        r matches Some(v) ==> member_parsed_as(*j, key@, v),
{
    match j.get(key) {
        Some(sub) => T::from_json(sub),
        None => None,
    }
}

/// Whether the member `key` of `j` is missing, `null`, or describes a `T`.
pub open spec fn optional_parses<T: FromJson>(j: Json, key: Seq<char>) -> bool {
    match j.spec_get(key) {
        None | Some(Json::Null) => true,
        Some(sub) => T::parses(sub),
    }
}

/// Whether `v` is what the member `key` of `j` describes: nothing where it
/// is missing or `null`.
pub open spec fn optional_parsed_as<T: FromJson>(j: Json, key: Seq<char>, v: Option<T>) -> bool {
    match j.spec_get(key) {
        None | Some(Json::Null) => v is None,
        Some(sub) => v matches Some(inner) && T::parsed_as(sub, inner),
    }
}

/// Reads the member `key` of `j`, which may be missing or `null`.
pub fn read_optional<T: FromJson>(j: &Json, key: &str) -> (r: Option<Option<T>>)
    ensures
        r is Some <==> optional_parses::<T>(*j, key@),
        r matches Some(v) ==> optional_parsed_as(*j, key@, v),
{
    match j.get(key) {
        None | Some(Json::Null) => Some(None),
        Some(sub) => match T::from_json(sub) {
            Some(v) => Some(Some(v)),
            None => None,
        },
    }
}

/// Whether every one of `items` describes a `T`.
pub open spec fn all_parse<T: FromJson>(items: Seq<Json>) -> bool {
    forall|i: int| 0 <= i < items.len() ==> T::parses(#[trigger] items[i])
}

/// Whether `v` holds, one by one and in order, what `items` describe.
pub open spec fn all_parsed_as<T: FromJson>(items: Seq<Json>, v: Seq<T>) -> bool {
    items.len() == v.len() && forall|i: int|
        0 <= i < items.len() ==> T::parsed_as(items[i], #[trigger] v[i])
}

/// Reads every one of `items`.
pub fn read_all<T: FromJson>(items: &Vec<Json>) -> (r: Option<Vec<T>>)
    ensures
        r is Some <==> all_parse::<T>(items@),
        r matches Some(v) ==> all_parsed_as(items@, v@),
{
    let mut out: Vec<T> = Vec::new();
    let mut i: usize = 0;
    while i < items.len()
        invariant
            i <= items.len(),
            out@.len() == i,
            forall|k: int| 0 <= k < i ==> T::parses(#[trigger] items@[k]),
            forall|k: int| 0 <= k < i ==> T::parsed_as(items@[k], #[trigger] out@[k]),
        decreases items.len() - i,
    {
        match T::from_json(&items[i]) {
            Some(v) => {
                out.push(v);
            },
            None => {
                return None;
            },
        }
        i += 1;
    }
    Some(out)
}

/// Whether `j` has a list under `key` whose items all describe a `T`.
pub open spec fn list_parses<T: FromJson>(j: Json, key: Seq<char>) -> bool {
    j.spec_items(key) matches Some(items) && all_parse::<T>(items)
}

/// Whether `v` holds what the items of the list under `key` describe.
pub open spec fn list_parsed_as<T: FromJson>(j: Json, key: Seq<char>, v: Seq<T>) -> bool {
    j.spec_items(key) matches Some(items) && all_parsed_as(items, v)
}

/// Reads the list under `key`.
pub fn read_list<T: FromJson>(j: &Json, key: &str) -> (r: Option<Vec<T>>)
    ensures
        r is Some <==> list_parses::<T>(*j, key@),
        r matches Some(v) ==> list_parsed_as(*j, key@, v@),
{
    match j.items(key) {
        Some(items) => read_all(items),
        None => None,
    }
}

/// Whether `j` has no member `key`, or `null` there, or a list whose items
/// all describe a `T`.
pub open spec fn optional_list_parses<T: FromJson>(j: Json, key: Seq<char>) -> bool {
    match j.spec_get(key) {
        None | Some(Json::Null) => true,
        Some(Json::List(items)) => all_parse::<T>(items@),
        _ => false,
    }
}

/// Whether `v` holds what the items of the list under `key` describe, or
/// nothing where there is no list.
pub open spec fn optional_list_parsed_as<T: FromJson>(
    j: Json,
    key: Seq<char>,
    v: Option<Vec<T>>,
) -> bool {
    match j.spec_get(key) {
        None | Some(Json::Null) => v is None,
        Some(Json::List(items)) => v matches Some(list) && all_parsed_as(items@, list@),
        _ => false,
    }
}

/// Reads the list under `key`, which may be missing or `null`.
pub fn read_optional_list<T: FromJson>(j: &Json, key: &str) -> (r: Option<Option<Vec<T>>>)
    ensures
        r is Some <==> optional_list_parses::<T>(*j, key@),
        r matches Some(v) ==> optional_list_parsed_as(*j, key@, v),
{
    match j.get(key) {
        None | Some(Json::Null) => Some(None),
        Some(Json::List(items)) => match read_all(items) {
            Some(list) => Some(Some(list)),
            None => None,
        },
        _ => None,
    }
}

/// A member that is added at the end of an object is found under its name
/// unless an earlier member has that name; every other name is looked up as
/// before.
pub proof fn lemma_member_push(entries: Seq<(String, Json)>, entry: (String, Json), key: Seq<char>)
    ensures
        member(entries.push(entry), key) == match member(entries, key) {
            Some(v) => Some(v),
            None => if entry.0@ == key {
                Some(entry.1)
            } else {
                None
            },
        },
    decreases entries.len(),
{
    let longer = entries.push(entry);
    if entries.len() == 0 {
        assert(longer.drop_first().len() == 0);
    } else {
        assert(longer.drop_first() =~= entries.drop_first().push(entry));
        lemma_member_push(entries.drop_first(), entry, key);
    }
}

/// Members that are added at the end of an object are found under their
/// names unless an earlier member has that name.
pub proof fn lemma_member_append(
    first: Seq<(String, Json)>,
    second: Seq<(String, Json)>,
    key: Seq<char>,
)
    ensures
        member(first + second, key) == match member(first, key) {
            Some(v) => Some(v),
            None => member(second, key),
        },
    decreases first.len(),
{
    if first.len() == 0 {
        assert(first + second =~= second);
    } else {
        assert((first + second).drop_first() =~= first.drop_first() + second);
        lemma_member_append(first.drop_first(), second, key);
    }
}

/// Adds a member at the end of an object that is being written.
pub fn put(entries: &mut Vec<(String, Json)>, key: &str, value: Json)
    ensures
        final(entries)@.len() == old(entries)@.len() + 1,
        forall|k: Seq<char>| #[trigger]
            member(final(entries)@, k) == match member(old(entries)@, k) {
                Some(v) => Some(v),
                None => if k == key@ {
                    Some(value)
                } else {
                    None
                },
            },
{
    let name = key.to_owned();
    proof {
        assert forall|k: Seq<char>| #[trigger]
            member(entries@.push((name, value)), k) == match member(entries@, k) {
                Some(v) => Some(v),
                None => if k == key@ {
                    Some(value)
                } else {
                    None
                },
            } by {
            lemma_member_push(entries@, (name, value), k);
        }
    }
    entries.push((name, value));
}

/// A type whose values can be written as JSON and read back: what is
/// written describes the value it was written from.
pub trait ToJson: FromJson {
    /// Writes the value.
    fn to_json(&self) -> (r: Json)
        ensures
            Self::parses(r),
            Self::parsed_as(r, *self),
    ;
}

impl ToJson for String {
    fn to_json(&self) -> (r: Json) {
        Json::Text(self.clone())
    }
}

/// Writes every one of `items`.
pub fn write_all<T: ToJson>(items: &Vec<T>) -> (r: Vec<Json>)
    ensures
        all_parse::<T>(r@),
        all_parsed_as(r@, items@),
{
    let mut out: Vec<Json> = Vec::new();
    let mut i: usize = 0;
    while i < items.len()
        invariant
            i <= items.len(),
            out@.len() == i,
            forall|k: int| 0 <= k < i ==> T::parses(#[trigger] out@[k]),
            forall|k: int| 0 <= k < i ==> T::parsed_as(out@[k], #[trigger] items@[k]),
        decreases items.len() - i,
    {
        out.push(items[i].to_json());
        i += 1;
    }
    out
}

/// Writes a value that may be missing: `null` where it is. The type must be
/// one that `null` does not describe.
pub(crate) fn write_optional<T: ToJson>(value: &Option<T>) -> (r: Json)
    requires
        !T::parses(Json::Null),
    ensures
        match *value {
            Some(inner) => !(r is Null) && T::parses(r) && T::parsed_as(r, inner),
            None => r is Null,
        },
{
    match value {
        Some(inner) => inner.to_json(),
        None => Json::Null,
    }
}

/// A count as it is written: a number.
pub fn count_json(n: u64) -> (r: Json)
    ensures
        r matches Json::Number(number) && number.unsigned == Some(n),
{
    let signed = if n <= 0x7fff_ffff_ffff_ffff {
        Some(n as i64)
    } else {
        None
    };
    Json::Number(Number { unsigned: Some(n), signed })
}

/// A count that may be missing, as it is written: `null` where it is.
pub fn optional_count_json(n: &Option<u64>) -> (r: Json)
    ensures
        match *n {
            Some(v) => r matches Json::Number(number) && number.unsigned == Some(v),
            None => r is Null,
        },
{
    match n {
        Some(v) => count_json(*v),
        None => Json::Null,
    }
}

/// A count of 32 bits that may be missing, as it is written.
pub fn optional_count32_json(n: &Option<u32>) -> (r: Json)
    ensures
        match *n {
            Some(v) => r matches Json::Number(number) && number.unsigned == Some(v as u64),
            None => r is Null,
        },
{
    match n {
        Some(v) => count_json(*v as u64),
        None => Json::Null,
    }
}

/// A string that may be missing, as it is written: `null` where it is.
pub fn optional_text_json(text: &Option<String>) -> (r: Json)
    ensures
        r == match *text {
            Some(s) => Json::Text(s),
            None => Json::Null,
        },
{
    match text {
        Some(s) => Json::Text(s.clone()),
        None => Json::Null,
    }
}

/// Parses a text as JSON.
pub fn parse(text: &str) -> (r: Option<Json>)
    ensures
        r == parsed_json(text@),
{
    parse_json(text)
}

} // verus!
