//! A JSON value model that verified code can read, with serde_json doing the
//! parsing and the printing.
use vstd::prelude::*;

verus! {

/// A JSON value. Integers that fit `i64` are held as such; any other number
/// is held by its text.
#[derive(Debug, PartialEq, Eq)]
pub enum Json {
    Null,
    Bool(bool),
    Int(i64),
    Number(String),
    Str(String),
    Array(Vec<Json>),
    Object(Vec<(String, Json)>),
}

/// The mathematical model of a JSON value: texts as character sequences.
pub enum JsonV {
    Null,
    Bool(bool),
    Int(int),
    Number(Seq<char>),
    Str(Seq<char>),
    Array(Seq<JsonV>),
    Object(Seq<(Seq<char>, JsonV)>),
}

/// The model of a value.
pub open spec fn json_view(j: Json) -> JsonV
    decreases j,
{
    match j {
        Json::Null => JsonV::Null,
        Json::Bool(b) => JsonV::Bool(b),
        Json::Int(i) => JsonV::Int(i as int),
        Json::Number(t) => JsonV::Number(t@),
        Json::Str(s) => JsonV::Str(s@),
        Json::Array(a) => JsonV::Array(
            Seq::new(a@.len(), |i: int| if 0 <= i < a@.len() { json_view(a@[i]) } else { JsonV::Null }),
        ),
        Json::Object(e) => JsonV::Object(
            Seq::new(
                e@.len(),
                |i: int|
                    if 0 <= i < e@.len() {
                        (e@[i].0@, json_view(e@[i].1))
                    } else {
                        (Seq::empty(), JsonV::Null)
                    },
            ),
        ),
    }
}

/// The model of object entries.
pub open spec fn entries_view(e: Seq<(String, Json)>) -> Seq<(Seq<char>, JsonV)> {
    Seq::new(e.len(), |i: int| (e[i].0@, json_view(e[i].1)))
}

/// The model of an object is the model of its entries.
pub proof fn lemma_object_view(e: Vec<(String, Json)>)
    ensures
        json_view(Json::Object(e)) == JsonV::Object(entries_view(e@)),
{
    let m = match json_view(Json::Object(e)) {
        JsonV::Object(m) => m,
        _ => Seq::empty(),
    };
    assert(m =~= entries_view(e@));
}

impl View for Json {
    type V = JsonV;

    open spec fn view(&self) -> JsonV {
        json_view(*self)
    }
}

#[verifier::external_type_specification]
#[verifier::external_body]
pub struct ExValue(serde_json::Value);

/// What serde_json reads from a text, where the text is JSON, with every
/// number held by its text.
pub uninterp spec fn parsed_json(text: Seq<char>) -> Option<JsonV>;

/// What serde_json prints for a value.
pub uninterp spec fn json_text(v: JsonV) -> Seq<char>;

/// Moves a serde_json value into the library's model, variant for variant.
#[verifier::external_body]
fn from_value(v: serde_json::Value) -> Json {
    match v {
        serde_json::Value::Null => Json::Null,
        serde_json::Value::Bool(b) => Json::Bool(b),
        serde_json::Value::Number(n) => Json::Number(n.to_string()),
        serde_json::Value::String(s) => Json::Str(s),
        serde_json::Value::Array(a) => Json::Array(a.into_iter().map(from_value).collect()),
        serde_json::Value::Object(m) => Json::Object(m.into_iter().map(|(k, x)| (k, from_value(x))).collect()),
    }
}

/// Builds the serde_json value of a model value, variant for variant.
#[verifier::external_body]
fn to_value(j: &Json) -> serde_json::Value {
    match j {
        Json::Null => serde_json::Value::Null,
        Json::Bool(b) => serde_json::Value::Bool(*b),
        Json::Int(i) => serde_json::Value::from(*i),
        Json::Number(t) => serde_json::from_str(t).unwrap_or(serde_json::Value::Null),
        Json::Str(s) => serde_json::Value::String(s.clone()),
        Json::Array(a) => serde_json::Value::Array(a.iter().map(to_value).collect()),
        Json::Object(e) => serde_json::Value::Object(e.iter().map(|(k, x)| (k.clone(), to_value(x))).collect()),
    }
}

/// Relies on serde_json::from_str into a `serde_json::Value`: it succeeds
/// exactly on JSON text, and what it reads depends on the text alone. The
/// error carries serde_json's description.
#[verifier::external_body]
fn parse_value(text: &str) -> (r: Result<Json, String>)
    ensures
        r is Ok <==> parsed_json(text@) is Some,
        r is Ok ==> parsed_json(text@) == Some(r->Ok_0@),
{
    serde_json::from_str::<serde_json::Value>(text).map(from_value).map_err(|e| e.to_string())
}

/// Parses JSON text; integers that fit `i64` become `Int`.
pub fn parse_json(text: &str) -> (r: Result<Json, String>)
    ensures
        r is Ok <==> parsed_json(text@) is Some,
        r is Ok ==> r->Ok_0@ == norm_view(parsed_json(text@)->Some_0),
{
    match parse_value(text) {
        Ok(v) => Ok(normalize_numbers(v)),
        Err(e) => Err(e),
    }
}

/// Whether a character is a decimal digit.
pub open spec fn is_digit(c: char) -> bool {
    '0' <= c <= '9'
}

/// The value of decimal digits.
pub open spec fn digits_value(s: Seq<char>) -> int
    decreases s.len(),
{
    if s.len() == 0 {
        0
    } else {
        digits_value(s.drop_last()) * 10 + (s.last() as int - '0' as int)
    }
}

/// A non-empty run of decimal digits.
pub open spec fn all_digits(s: Seq<char>) -> bool {
    s.len() > 0 && forall|i: int| 0 <= i < s.len() ==> is_digit(#[trigger] s[i])
}

/// The integer a number text denotes, when it is an optional `-` and digits.
pub open spec fn int_of_text(t: Seq<char>) -> Option<int> {
    if t.len() > 0 && t[0] == '-' && all_digits(t.skip(1)) {
        Some(-digits_value(t.skip(1)))
    } else if all_digits(t) {
        Some(digits_value(t))
    } else {
        None
    }
}

/// The `i64` a number text denotes, if it denotes one.
pub open spec fn i64_of_text(t: Seq<char>) -> Option<i64> {
    match int_of_text(t) {
        Some(v) => if i64::MIN <= v <= i64::MAX {
            Some(v as i64)
        } else {
            None
        },
        None => None,
    }
}

proof fn lemma_digits_grow(s: Seq<char>, j: int)
    requires
        forall|i: int| 0 <= i < s.len() ==> is_digit(#[trigger] s[i]),
        0 <= j <= s.len(),
    ensures
        digits_value(s.subrange(0, j)) <= digits_value(s),
        digits_value(s) >= 0,
    decreases s.len() - j,
{
    if j < s.len() {
        lemma_digits_grow(s, j + 1);
        let p = s.subrange(0, j + 1);
        assert(p.drop_last() =~= s.subrange(0, j));
        lemma_digits_nonneg(s.subrange(0, j));
    } else {
        assert(s.subrange(0, j) =~= s);
        lemma_digits_nonneg(s);
    }
}

proof fn lemma_digits_nonneg(s: Seq<char>)
    requires
        forall|i: int| 0 <= i < s.len() ==> is_digit(#[trigger] s[i]),
    ensures
        digits_value(s) >= 0,
    decreases s.len(),
{
    if s.len() > 0 {
        lemma_digits_nonneg(s.drop_last());
        assert(is_digit(s[s.len() - 1]));
    }
}

/// Reads the `i64` a number text denotes.
pub fn parse_i64(t: &str) -> (r: Option<i64>)
    ensures
        r == i64_of_text(t@),
{
    let n = t.unicode_len();
    if n == 0 {
        return None;
    }
    let neg = t.get_char(0) == '-';
    let start: usize = if neg { 1 } else { 0 };
    if start == n {
        assert(!all_digits(t@.skip(1)));
        return None;
    }
    let limit: u64 = if neg { 9223372036854775808u64 } else { 9223372036854775807u64 };
    let ghost d = t@.skip(start as int);
    let mut acc: u64 = 0;
    let mut i: usize = start;
    while i < n
        invariant
            start <= i <= n,
            n == t@.len(),
            start == (if neg { 1usize } else { 0usize }),
            neg == (t@[0] == '-'),
            d == t@.skip(start as int),
            limit == (if neg { 9223372036854775808u64 } else { 9223372036854775807u64 }),
            acc <= limit,
            forall|k: int| 0 <= k < i - start ==> is_digit(#[trigger] d[k]),
            acc as int == digits_value(d.subrange(0, i - start)),
        decreases n - i,
    {
        let c = t.get_char(i);
        assert(c == d[i - start]);
        if !('0' <= c && c <= '9') {
            assert(!is_digit(d[i - start]));
            assert(!all_digits(d));
            assert(neg ==> !all_digits(t@));
            assert(!neg ==> d =~= t@);
            return None;
        }
        let digit = (c as u32 - '0' as u32) as u64;
        assert(d.subrange(0, i + 1 - start).drop_last() =~= d.subrange(0, i - start));
        if acc > (limit - digit) / 10 {
            proof {
                assert(acc * 10 + digit > limit) by (nonlinear_arith)
                    requires acc > (limit - digit) / 10, digit <= 9, limit >= 9;
                let full_ok = forall|k: int| 0 <= k < d.len() ==> is_digit(#[trigger] d[k]);
                if full_ok {
                    lemma_digits_grow(d, i + 1 - start);
                }
                assert(!neg ==> d =~= t@);
            }
            return None;
        }
        assert(acc * 10 + digit <= limit) by (nonlinear_arith)
            requires acc <= (limit - digit) / 10, digit <= 9, limit >= 9;
        acc = acc * 10 + digit;
        i += 1;
    }
    assert(d.subrange(0, n - start) =~= d);
    assert(all_digits(d));
    if neg {
        if acc == 9223372036854775808u64 {
            Some(i64::MIN)
        } else {
            Some(0i64 - (acc as i64))
        }
    } else {
        assert(d =~= t@);
        Some(acc as i64)
    }
}

/// A value with every number text that denotes an `i64` read as `Int`.
pub open spec fn norm_view(v: JsonV) -> JsonV
    decreases v,
{
    match v {
        JsonV::Number(t) => match i64_of_text(t) {
            Some(i) => JsonV::Int(i as int),
            None => v,
        },
        JsonV::Array(a) => JsonV::Array(
            Seq::new(a.len(), |i: int| if 0 <= i < a.len() { norm_view(a[i]) } else { JsonV::Null }),
        ),
        JsonV::Object(e) => JsonV::Object(
            Seq::new(
                e.len(),
                |i: int| if 0 <= i < e.len() { (e[i].0, norm_view(e[i].1)) } else { (Seq::empty(), JsonV::Null) },
            ),
        ),
        _ => v,
    }
}

/// Reads number texts that denote an `i64` as `Int`, throughout a value.
pub fn normalize_numbers(j: Json) -> (r: Json)
    ensures
        r@ == norm_view(j@),
    decreases j,
{
    let ghost jv = j@;
    let ghost jj = j;
    match j {
        Json::Number(t) => match parse_i64(t.as_str()) {
            Some(i) => Json::Int(i),
            None => Json::Number(t),
        },
        Json::Array(v) => {
            let ghost orig = v;
            let mut v = v;
            let mut out: Vec<Json> = Vec::new();
            let mut i: usize = 0;
            while i < v.len()
                invariant
                    jj == Json::Array(orig),
                    jj == j,
                    jv == json_view(jj),
                    v@.len() == orig@.len(),
                    i <= v@.len(),
                    out@.len() == i,
                    forall|k: int| i <= k < v@.len() ==> #[trigger] v@[k] == orig@[k],
                    forall|k: int| 0 <= k < i ==> #[trigger] out@[k]@ == norm_view(json_view(orig@[k])),
                decreases v.len() - i,
            {
                let mut x = Json::Null;
                std::mem::swap(&mut x, &mut v[i]);
                assert(x == orig@[i as int]);
                proof {
                    vstd::std_specs::vec::axiom_vec_index_decreases(orig, i as int);
                    assert(decreases_to!(jj => orig));
                    assert(decreases_to!(jj => x));
                }
                let y = normalize_numbers(x);
                out.push(y);
                i += 1;
            }
            let r = Json::Array(out);
            proof {
                let a = match jv {
                    JsonV::Array(a) => a,
                    _ => Seq::empty(),
                };
                assert(a.len() == orig@.len());
                let lhs = match json_view(Json::Array(out)) {
                    JsonV::Array(b) => b,
                    _ => Seq::empty(),
                };
                let rhs = match norm_view(jv) {
                    JsonV::Array(b) => b,
                    _ => Seq::empty(),
                };
                assert(lhs.len() == rhs.len());
                assert forall|k: int| 0 <= k < lhs.len() implies lhs[k] == rhs[k] by {
                    assert(a[k] == json_view(orig@[k]));
                    assert(k < i);
                    assert(out@[k]@ == norm_view(json_view(orig@[k])));
                    assert(lhs[k] == json_view(out@[k]));
                    assert(rhs[k] == norm_view(a[k]));
                }
                assert(lhs =~= rhs);
            }
            r
        },
        Json::Object(e) => {
            let ghost orig = e;
            let mut e = e;
            let mut out: Vec<(String, Json)> = Vec::new();
            let mut i: usize = 0;
            while i < e.len()
                invariant
                    jj == Json::Object(orig),
                    jj == j,
                    jv == json_view(jj),
                    e@.len() == orig@.len(),
                    i <= e@.len(),
                    out@.len() == i,
                    forall|k: int| i <= k < e@.len() ==> #[trigger] e@[k] == orig@[k],
                    forall|k: int| 0 <= k < i ==> #[trigger] out@[k].0@ == orig@[k].0@ && out@[k].1@ == norm_view(json_view(orig@[k].1)),
                decreases e.len() - i,
            {
                let mut x = Json::Null;
                std::mem::swap(&mut x, &mut e[i].1);
                assert(x == orig@[i as int].1);
                proof {
                    vstd::std_specs::vec::axiom_vec_index_decreases(orig, i as int);
                    assert(decreases_to!(jj => orig));
                    assert(decreases_to!(orig@[i as int] => x));
                    assert(decreases_to!(jj => x));
                }
                let k = e[i].0.clone();
                let y = normalize_numbers(x);
                out.push((k, y));
                i += 1;
            }
            let r = Json::Object(out);
            proof {
                lemma_object_view(out);
                assert(entries_view(out@) =~= match norm_view(jv) { JsonV::Object(b) => b, _ => Seq::empty() });
            }
            r
        },
        Json::Null => Json::Null,
        Json::Bool(b) => Json::Bool(b),
        Json::Int(i) => Json::Int(i),
        Json::Str(s) => Json::Str(s),
    }
}

/// Relies on serde_json::to_string of a `serde_json::Value`, which cannot
/// fail for a value with string keys: the text depends on the value alone.
#[verifier::external_body]
pub fn to_json_string(v: &Json) -> (r: String)
    ensures
        r@ == json_text(v@),
{
    serde_json::to_string(&to_value(v)).unwrap_or_default()
}

/// `i` is the first position of `key` among object entries.
pub open spec fn first_at(entries: Seq<(Seq<char>, JsonV)>, key: Seq<char>, i: int) -> bool {
    &&& 0 <= i < entries.len()
    &&& entries[i].0 == key
    &&& forall|k: int| 0 <= k < i ==> entries[k].0 != key
}

/// Whether some entry has `key`.
pub open spec fn has_entry(entries: Seq<(Seq<char>, JsonV)>, key: Seq<char>) -> bool {
    exists|i: int| 0 <= i < entries.len() && entries[i].0 == key
}

/// The first position of `key` among object entries (meaningful when present).
pub open spec fn key_index(entries: Seq<(Seq<char>, JsonV)>, key: Seq<char>) -> int {
    choose|i: int| first_at(entries, key, i)
}

/// The value under `key` among object entries, first match wins.
pub open spec fn entry_value(entries: Seq<(Seq<char>, JsonV)>, key: Seq<char>) -> Option<JsonV> {
    if has_entry(entries, key) {
        Some(entries[key_index(entries, key)].1)
    } else {
        None
    }
}

/// The entries with the first entry of `key` taken out.
pub open spec fn without_entry(entries: Seq<(Seq<char>, JsonV)>, key: Seq<char>) -> Seq<(Seq<char>, JsonV)> {
    if has_entry(entries, key) {
        entries.remove(key_index(entries, key))
    } else {
        entries
    }
}

/// A present key has exactly one first position.
pub proof fn lemma_first_at(entries: Seq<(Seq<char>, JsonV)>, key: Seq<char>, i: int)
    requires
        first_at(entries, key, i),
    ensures
        has_entry(entries, key),
        key_index(entries, key) == i,
{
    let j = key_index(entries, key);
    assert(first_at(entries, key, j));
    if j < i {
        assert(entries[j].0 != key);
    }
    if i < j {
        assert(entries[i].0 != key);
    }
}

/// Finds the first position of `key`, if any.
pub fn find_entry(entries: &Vec<(String, Json)>, key: &str) -> (r: Option<usize>)
    ensures
        match r {
            Some(i) => first_at(entries_view(entries@), key@, i as int),
            None => !has_entry(entries_view(entries@), key@),
        },
{
    let k = key.to_owned();
    let ghost ev = entries_view(entries@);
    let mut i: usize = 0;
    while i < entries.len()
        invariant
            i <= entries@.len(),
            k@ == key@,
            ev == entries_view(entries@),
            forall|j: int| 0 <= j < i ==> ev[j].0 != key@,
        decreases entries.len() - i,
    {
        if entries[i].0.eq(&k) {
            return Some(i);
        }
        i += 1;
    }
    None
}

/// Moves the value of the first entry of `key` out of the entries.
pub fn take_entry(entries: &mut Vec<(String, Json)>, key: &str) -> (r: Option<Json>)
    ensures
        match r {
            Some(v) => entry_value(entries_view(old(entries)@), key@) == Some(v@),
            None => entry_value(entries_view(old(entries)@), key@) is None,
        },
        entries_view(final(entries)@) == without_entry(entries_view(old(entries)@), key@),
{
    let ghost before = entries_view(entries@);
    match find_entry(entries, key) {
        Some(i) => {
            proof {
                lemma_first_at(before, key@, i as int);
            }
            let (_, v) = entries.remove(i);
            assert(entries_view(entries@) =~= before.remove(i as int));
            Some(v)
        },
        None => None,
    }
}

/// The member `key` of an object model; `None` for a missing key or a non-object.
pub open spec fn member(v: JsonV, key: Seq<char>) -> Option<JsonV> {
    match v {
        JsonV::Object(e) => entry_value(e, key),
        _ => None,
    }
}

/// The text of the string member `key`, if there is one.
pub open spec fn str_member(v: JsonV, key: Seq<char>) -> Option<Seq<char>> {
    match member(v, key) {
        Some(JsonV::Str(s)) => Some(s),
        _ => None,
    }
}

impl Json {
    /// Looks up the member `key` of an object.
    pub fn get(&self, key: &str) -> (r: Option<&Json>)
        ensures
            match r {
                Some(v) => member(self@, key@) == Some(v@),
                None => member(self@, key@) is None,
            },
    {
        match self {
            Json::Object(e) => {
                assert(entries_view(e@) =~= match self@ { JsonV::Object(m) => m, _ => Seq::empty() });
                match find_entry(e, key) {
                    Some(i) => {
                        proof {
                            lemma_first_at(entries_view(e@), key@, i as int);
                        }
                        Some(&e[i].1)
                    },
                    None => None,
                }
            },
            _ => None,
        }
    }

    /// Reads the string member `key`.
    pub fn get_str(&self, key: &str) -> (r: Option<String>)
        ensures
            match r {
                Some(s) => str_member(self@, key@) == Some(s@),
                None => str_member(self@, key@) is None,
            },
    {
        match self.get(key) {
            Some(Json::Str(s)) => Some(s.clone()),
            _ => None,
        }
    }
}

/// Builds an object entry.
pub fn entry(key: &str, v: Json) -> (r: (String, Json))
    ensures
        r.0@ == key@,
        r.1@ == v@,
{
    (key.to_owned(), v)
}

/// A JSON string value.
pub fn jstr(s: &str) -> (r: Json)
    ensures
        r@ == JsonV::Str(s@),
{
    Json::Str(s.to_owned())
}

} // verus!
