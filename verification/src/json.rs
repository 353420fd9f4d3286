//! A plain JSON document model: what the bus reads out of, and writes into, the
//! JSON packets it exchanges. Numbers are kept as the decimal text that names them,
//! so no floating-point value ever has to pass through this crate.
use vstd::prelude::*;
use vstd::string::*;

verus! {

/// A JSON number, held as its decimal text (for example `12`, `-3` or `0.73`).
#[derive(Debug, PartialEq)]
pub struct JsonNumber {
    pub text: String,
}

/// A JSON value. Objects keep their members in order; lookups find the first
/// member with the key asked for.
#[derive(Debug, PartialEq)]
pub enum JsonValue {
    Null,
    Bool(bool),
    Number(JsonNumber),
    String(String),
    Array(Vec<JsonValue>),
    Object(Vec<(String, JsonValue)>),
}

/// The mathematical model of a JSON value.
pub enum Json {
    Null,
    Bool(bool),
    Number(Seq<char>),
    Str(Seq<char>),
    Array(Seq<Json>),
    Object(Seq<(Seq<char>, Json)>),
}

pub open spec fn json_view(v: JsonValue) -> Json
    decreases v,
{
    match v {
        JsonValue::Null => Json::Null,
        JsonValue::Bool(b) => Json::Bool(b),
        JsonValue::Number(n) => Json::Number(n.text@),
        JsonValue::String(s) => Json::Str(s@),
        JsonValue::Array(a) => Json::Array(
            Seq::new(
                a@.len(),
                |i: int|
                    if 0 <= i < a@.len() {
                        json_view(a@[i])
                    } else {
                        Json::Null
                    },
            ),
        ),
        JsonValue::Object(o) => Json::Object(
            Seq::new(
                o@.len(),
                |i: int|
                    if 0 <= i < o@.len() {
                        (o@[i].0@, json_view(o@[i].1))
                    } else {
                        (Seq::empty(), Json::Null)
                    },
            ),
        ),
    }
}

impl View for JsonValue {
    type V = Json;

    open spec fn view(&self) -> Json {
        json_view(*self)
    }
}

/// The model of a list of object members.
pub open spec fn members_view(o: Seq<(String, JsonValue)>) -> Seq<(Seq<char>, Json)> {
    Seq::new(o.len(), |i: int| (o[i].0@, json_view(o[i].1)))
}

/// The value of the first member named `key`, if there is one.
pub open spec fn members_get(m: Seq<(Seq<char>, Json)>, key: Seq<char>) -> Option<Json>
    decreases m.len(),
{
    if m.len() == 0 {
        None
    } else if m[0].0 == key {
        Some(m[0].1)
    } else {
        members_get(m.drop_first(), key)
    }
}

/// The members after `key` is set to `value`: the first member of that name gets the
/// new value in place, or a new member is appended at the end.
pub open spec fn members_insert(m: Seq<(Seq<char>, Json)>, key: Seq<char>, value: Json) -> Seq<
    (Seq<char>, Json),
>
    decreases m.len(),
{
    if m.len() == 0 {
        seq![(key, value)]
    } else if m[0].0 == key {
        m.update(0, (key, value))
    } else {
        seq![m[0]] + members_insert(m.drop_first(), key, value)
    }
}

/// Every member of `more`, set in turn on `m`, first to last.
pub open spec fn members_insert_all(m: Seq<(Seq<char>, Json)>, more: Seq<(Seq<char>, Json)>) -> Seq<
    (Seq<char>, Json),
>
    decreases more.len(),
{
    if more.len() == 0 {
        m
    } else {
        members_insert(members_insert_all(m, more.drop_last()), more.last().0, more.last().1)
    }
}

/// The members of an object; none for any other kind of value.
pub open spec fn object_members(v: Json) -> Seq<(Seq<char>, Json)> {
    match v {
        Json::Object(m) => m,
        _ => Seq::empty(),
    }
}

/// The lookup finds the first member named `key`.
pub proof fn lemma_members_get_at(m: Seq<(Seq<char>, Json)>, key: Seq<char>, i: int)
    requires
        0 <= i < m.len(),
        m[i].0 == key,
        forall|j: int| 0 <= j < i ==> (#[trigger] m[j]).0 != key,
    ensures
        members_get(m, key) == Some(m[i].1),
    decreases i,
{
    if i > 0 {
        let t = m.drop_first();
        assert forall|j: int| 0 <= j < i - 1 implies (#[trigger] t[j]).0 != key by {
            assert(t[j] == m[j + 1]);
        }
        lemma_members_get_at(t, key, i - 1);
    }
}

/// Setting a member changes the lookup of that name only: it then finds the new
/// value, and every other name finds what it found before.
pub proof fn lemma_members_insert_get(m: Seq<(Seq<char>, Json)>, k: Seq<char>, v: Json, key: Seq<char>)
    ensures
        members_get(members_insert(m, k, v), key) == if key == k {
            Some(v)
        } else {
            members_get(m, key)
        },
    decreases m.len(),
{
    if m.len() == 0 {
        assert(seq![(k, v)].drop_first() =~= Seq::<(Seq<char>, Json)>::empty());
        assert(members_get(Seq::<(Seq<char>, Json)>::empty(), key) is None);
    } else if m[0].0 == k {
        assert(m.update(0, (k, v)).drop_first() =~= m.drop_first());
    } else {
        lemma_members_insert_get(m.drop_first(), k, v, key);
        let r = seq![m[0]] + members_insert(m.drop_first(), k, v);
        assert(r[0] == m[0]);
        assert(r.drop_first() =~= members_insert(m.drop_first(), k, v));
    }
}

/// Appending a member changes the lookup only of a name not found before.
pub proof fn lemma_members_push_get(m: Seq<(Seq<char>, Json)>, x: (Seq<char>, Json), key: Seq<char>)
    ensures
        members_get(m.push(x), key) == match members_get(m, key) {
            Some(v) => Some(v),
            None => if x.0 == key {
                Some(x.1)
            } else {
                None
            },
        },
    decreases m.len(),
{
    if m.len() > 0 {
        assert(m.push(x)[0] == m[0]);
        assert(m.push(x).drop_first() =~= m.drop_first().push(x));
        lemma_members_push_get(m.drop_first(), x, key);
    } else {
        assert(m.push(x)[0] == x);
        assert(m.push(x).drop_first() =~= Seq::<(Seq<char>, Json)>::empty());
        assert(members_get(Seq::<(Seq<char>, Json)>::empty(), key) is None);
    }
}

/// Whether no two members share a name (as in any object serde_json reads).
pub open spec fn distinct_names(m: Seq<(Seq<char>, Json)>) -> bool {
    forall|i: int, j: int| 0 <= i < j < m.len() ==> (#[trigger] m[i]).0 != (#[trigger] m[j]).0
}

/// Setting every member of `more` (whose names are distinct) on `base`: a name of
/// `more` finds its value there, any other name what it found in `base`.
pub proof fn lemma_members_insert_all_get(
    base: Seq<(Seq<char>, Json)>,
    more: Seq<(Seq<char>, Json)>,
    key: Seq<char>,
)
    requires
        distinct_names(more),
    ensures
        members_get(members_insert_all(base, more), key) == match members_get(more, key) {
            Some(v) => Some(v),
            None => members_get(base, key),
        },
    decreases more.len(),
{
    if more.len() > 0 {
        let front = more.drop_last();
        let x = more.last();
        assert(distinct_names(front));
        lemma_members_insert_all_get(base, front, key);
        lemma_members_insert_get(members_insert_all(base, front), x.0, x.1, key);
        assert(front.push(x) =~= more);
        lemma_members_push_get(front, x, key);
        if key == x.0 {
            if members_get(front, key) is Some {
                let i = choose|i: int| 0 <= i < front.len() && front[i].0 == key;
                lemma_found_somewhere(front, key);
                assert(more[i].0 == more[more.len() - 1].0);
            }
        }
    }
}

/// A name the lookup finds is the name of some member.
pub proof fn lemma_found_somewhere(m: Seq<(Seq<char>, Json)>, key: Seq<char>)
    requires
        members_get(m, key) is Some,
    ensures
        exists|i: int| 0 <= i < m.len() && m[i].0 == key,
    decreases m.len(),
{
    if m[0].0 != key {
        lemma_found_somewhere(m.drop_first(), key);
        let i = choose|i: int| 0 <= i < m.drop_first().len() && m.drop_first()[i].0 == key;
        assert(m[i + 1].0 == key);
    }
}

impl Json {
    /// The member `key` of an object; nothing for any other kind of value.
    pub open spec fn get(self, key: Seq<char>) -> Option<Json> {
        match self {
            Json::Object(m) => members_get(m, key),
            _ => None,
        }
    }

    pub open spec fn as_str(self) -> Option<Seq<char>> {
        match self {
            Json::Str(s) => Some(s),
            _ => None,
        }
    }

    pub open spec fn as_number(self) -> Option<Seq<char>> {
        match self {
            Json::Number(n) => Some(n),
            _ => None,
        }
    }

    /// The member `key`, when it is a string.
    pub open spec fn get_str(self, key: Seq<char>) -> Option<Seq<char>> {
        match self.get(key) {
            Some(v) => v.as_str(),
            None => None,
        }
    }

    /// The member `key`, when it is a number.
    pub open spec fn get_number(self, key: Seq<char>) -> Option<Seq<char>> {
        match self.get(key) {
            Some(v) => v.as_number(),
            None => None,
        }
    }
}

/// The optional string as a JSON value: the string itself, or `null`.
pub open spec fn opt_str_json(s: Option<Seq<char>>) -> Json {
    match s {
        Some(t) => Json::Str(t),
        None => Json::Null,
    }
}

/// The decimal digits of `n`, most significant first.
pub open spec fn decimal(n: nat) -> Seq<char>
    decreases n,
{
    if n < 10 {
        seq![digit_char(n)]
    } else {
        decimal(n / 10) + seq![digit_char(n % 10)]
    }
}

pub open spec fn digit_char(d: nat) -> char {
    if d == 0 {
        '0'
    } else if d == 1 {
        '1'
    } else if d == 2 {
        '2'
    } else if d == 3 {
        '3'
    } else if d == 4 {
        '4'
    } else if d == 5 {
        '5'
    } else if d == 6 {
        '6'
    } else if d == 7 {
        '7'
    } else if d == 8 {
        '8'
    } else {
        '9'
    }
}

/// Whether the character is a decimal digit.
pub open spec fn is_digit(c: char) -> bool {
    '0' <= c && c <= '9'
}

/// Where the digits of a number's text start: after a leading `-`, if any.
pub open spec fn digits_start(t: Seq<char>) -> int {
    if t.len() > 0 && t[0] == '-' {
        1
    } else {
        0
    }
}

/// Whether the text is a plain integer of at most 15 digits (with an optional `-`):
/// one that a 64-bit float holds exactly and serde_json writes in plain notation.
pub open spec fn short_integer(t: Seq<char>) -> bool {
    let s = digits_start(t);
    &&& 1 <= t.len() - s <= 15
    &&& forall|k: int| s <= k < t.len() ==> is_digit(#[trigger] t[k])
}

/// The text of a number as serde_json writes it after reading it as a 64-bit float
/// (`as_f64`), for the number texts serde_json itself writes: a short integer gains
/// `.0`; text in float notation (which serde_json writes already in shortest form)
/// stays as it is.
pub open spec fn float_text(t: Seq<char>) -> Seq<char> {
    if short_integer(t) {
        t + ".0"@
    } else {
        t
    }
}

/// The text that serde_json writes for a value (compact, without spaces).
pub uninterp spec fn spec_json_text(v: Json) -> Seq<char>;

/// The text that serde_json writes for a value with `to_string_pretty` (indented by
/// two spaces, one member per line).
pub uninterp spec fn spec_json_pretty_text(v: Json) -> Seq<char>;

/// The value serde_json reads from the text; none when the text is not JSON.
pub uninterp spec fn spec_parse_json(text: Seq<char>) -> Option<Json>;

fn digit_str(d: u64) -> (s: &'static str)
    requires
        d < 10,
    ensures
        s@ == seq![digit_char(d as nat)],
{
    proof {
        reveal_strlit("0");
        reveal_strlit("1");
        reveal_strlit("2");
        reveal_strlit("3");
        reveal_strlit("4");
        reveal_strlit("5");
        reveal_strlit("6");
        reveal_strlit("7");
        reveal_strlit("8");
        reveal_strlit("9");
    }
    if d == 0 {
        "0"
    } else if d == 1 {
        "1"
    } else if d == 2 {
        "2"
    } else if d == 3 {
        "3"
    } else if d == 4 {
        "4"
    } else if d == 5 {
        "5"
    } else if d == 6 {
        "6"
    } else if d == 7 {
        "7"
    } else if d == 8 {
        "8"
    } else {
        "9"
    }
}

/// The decimal text of `n`.
pub fn decimal_text(n: u64) -> (s: String)
    ensures
        s@ == decimal(n as nat),
    decreases n,
{
    if n < 10 {
        String::from_str(digit_str(n))
    } else {
        let mut s = decimal_text(n / 10);
        s.append(digit_str(n % 10));
        s
    }
}

impl JsonNumber {
    /// The number `n`.
    pub fn from_u64(n: u64) -> (r: JsonNumber)
        ensures
            r.text@ == decimal(n as nat),
    {
        JsonNumber { text: decimal_text(n) }
    }

    pub fn copy(&self) -> (r: JsonNumber)
        ensures
            r.text@ == self.text@,
    {
        JsonNumber { text: self.text.clone() }
    }
}

impl JsonNumber {
    /// The number as serde_json writes it after reading it as a 64-bit float (see
    /// `float_text`).
    pub fn as_float(self) -> (r: JsonNumber)
        ensures
            r.text@ == float_text(self.text@),
    {
        let mut text = self.text;
        let len = text.as_str().unicode_len();
        let start: usize = if len > 0 && text.as_str().get_char(0) == '-' {
            1
        } else {
            0
        };
        assert(start == digits_start(text@));
        if len - start < 1 || len - start > 15 {
            return JsonNumber { text };
        }
        let mut k = start;
        while k < len
            invariant
                start <= k <= len,
                len == text@.len(),
                start == digits_start(text@),
                text@ == self.text@,
                forall|j: int| start <= j < k ==> is_digit(#[trigger] text@[j]),
            decreases len - k,
        {
            let c = text.as_str().get_char(k);
            if !('0' <= c && c <= '9') {
                assert(!is_digit(text@[k as int]));
                return JsonNumber { text };
            }
            k = k + 1;
        }
        text.append(".0");
        JsonNumber { text }
    }
}

impl JsonValue {
    /// A JSON string holding the characters of `s`.
    pub fn from_str(s: &str) -> (r: JsonValue)
        ensures
            r@ == Json::Str(s@),
    {
        JsonValue::String(String::from_str(s))
    }

    /// A JSON string, or `null` when there is none.
    pub fn from_opt_string(s: &Option<String>) -> (r: JsonValue)
        ensures
            r@ == opt_str_json(
                match s {
                    Some(t) => Some(t@),
                    None => None,
                },
            ),
    {
        match s {
            Some(t) => JsonValue::String(t.clone()),
            None => JsonValue::Null,
        }
    }

    /// The string this value holds, if it is a string.
    pub fn as_str(&self) -> (r: Option<&String>)
        ensures
            match r {
                Some(s) => self@.as_str() == Some(s@),
                None => self@.as_str() is None,
            },
    {
        match self {
            JsonValue::String(s) => Some(s),
            _ => None,
        }
    }

    /// The member `key` of an object: the first member of that name. Nothing when
    /// this value is not an object or has no such member.
    pub fn get(&self, key: &str) -> (r: Option<&JsonValue>)
        ensures
            match r {
                Some(v) => self@.get(key@) == Some(v@),
                None => self@.get(key@) is None,
            },
    {
        match self {
            JsonValue::Object(members) => {
                let k = String::from_str(key);
                let ghost m = members_view(members@);
                assert(self@->Object_0 =~= m);
                assert(m.skip(0) =~= m);
                let mut i: usize = 0;
                while i < members.len()
                    invariant
                        0 <= i <= members@.len(),
                        m == members_view(members@),
                        self@ == Json::Object(m),
                        k@ == key@,
                        members_get(m, key@) == members_get(m.skip(i as int), key@),
                    decreases members@.len() - i,
                {
                    assert(m.skip(i as int)[0] == m[i as int]);
                    assert(m.skip(i as int).drop_first() =~= m.skip(i + 1));
                    if members[i].0 == k {
                        return Some(&members[i].1);
                    }
                    i = i + 1;
                }
                assert(m.skip(i as int).len() == 0);
                None
            },
            _ => None,
        }
    }

    /// The member `key` of an object, when it is a string.
    pub fn get_str(&self, key: &str) -> (r: Option<String>)
        ensures
            match r {
                Some(s) => self@.get_str(key@) == Some(s@),
                None => self@.get_str(key@) is None,
            },
    {
        match self.get(key) {
            Some(v) => match v.as_str() {
                Some(s) => Some(s.clone()),
                None => None,
            },
            None => None,
        }
    }

    /// The member `key` of an object, when it is a number.
    pub fn get_number(&self, key: &str) -> (r: Option<JsonNumber>)
        ensures
            match r {
                Some(n) => self@.get_number(key@) == Some(n.text@),
                None => self@.get_number(key@) is None,
            },
    {
        match self.get(key) {
            Some(JsonValue::Number(n)) => Some(n.copy()),
            _ => None,
        }
    }

    /// A copy of the member `key`, if there is one.
    pub fn get_cloned(&self, key: &str) -> (r: Option<JsonValue>)
        ensures
            match r {
                Some(v) => self@.get(key@) == Some(v@),
                None => self@.get(key@) is None,
            },
    {
        match self.get(key) {
            Some(v) => Some(v.deep_clone()),
            None => None,
        }
    }

    /// A copy of this value, member for member.
    pub fn deep_clone(&self) -> (r: JsonValue)
        ensures
            r@ == self@,
    {
        clone_value(self)
    }

    /// The compact JSON text of this value, as serde_json writes it.
    pub fn to_text(&self) -> (s: String)
        ensures
            s@ == spec_json_text(self@),
    {
        json_text(self)
    }

    /// The indented JSON text of this value, as serde_json's `to_string_pretty`
    /// writes it.
    pub fn to_pretty_text(&self) -> (s: String)
        ensures
            s@ == spec_json_pretty_text(self@),
    {
        json_pretty_text(self)
    }

    /// The value that JSON text holds, as serde_json reads it; none when the text is
    /// not JSON.
    pub fn parse(text: &str) -> (r: Option<JsonValue>)
        ensures
            match r {
                Some(v) => spec_parse_json(text@) == Some(v@),
                None => spec_parse_json(text@) is None,
            },
    {
        parse_json(text)
    }
}

/// A copy of this value, member for member.
fn clone_value(v: &JsonValue) -> (r: JsonValue)
    ensures
        r@ == v@,
    decreases v,
{
    match v {
        JsonValue::Null => JsonValue::Null,
        JsonValue::Bool(b) => JsonValue::Bool(*b),
        JsonValue::Number(n) => JsonValue::Number(n.copy()),
        JsonValue::String(s) => JsonValue::String(s.clone()),
        JsonValue::Array(a) => {
            assert(decreases_to!(v => a));
            let mut out: Vec<JsonValue> = Vec::new();
            let mut i: usize = 0;
            while i < a.len()
                invariant
                    0 <= i <= a@.len(),
                    out@.len() == i,
                    decreases_to!(v => a),
                    forall|j: int| 0 <= j < i ==> json_view(#[trigger] out@[j]) == json_view(a@[j]),
                decreases a@.len() - i,
            {
                assert(decreases_to!(a => a@[i as int]));
                let c = clone_value(&a[i]);
                out.push(c);
                i = i + 1;
            }
            let r = JsonValue::Array(out);
            assert(json_view(r)->Array_0 =~= json_view(*v)->Array_0);
            r
        },
        JsonValue::Object(o) => {
            assert(decreases_to!(v => o));
            let mut out: Vec<(String, JsonValue)> = Vec::new();
            let mut i: usize = 0;
            while i < o.len()
                invariant
                    0 <= i <= o@.len(),
                    out@.len() == i,
                    decreases_to!(v => o),
                    forall|j: int|
                        0 <= j < i ==> (#[trigger] out@[j]).0@ == o@[j].0@ && json_view(out@[j].1)
                            == json_view(o@[j].1),
                decreases o@.len() - i,
            {
                assert(decreases_to!(o => o@[i as int]));
                assert(decreases_to!(o@[i as int] => o@[i as int].1));
                let k = o[i].0.clone();
                let c = clone_value(&o[i].1);
                out.push((k, c));
                i = i + 1;
            }
            let r = JsonValue::Object(out);
            assert(json_view(r)->Object_0 =~= json_view(*v)->Object_0);
            r
        },
    }
}

/// Sets the member `key` of an object's members to `value`, in place when a member
/// of that name exists, at the end otherwise.
pub fn members_set(members: &mut Vec<(String, JsonValue)>, key: String, value: JsonValue)
    ensures
        members_view(final(members)@) =~= members_insert(members_view(old(members)@), key@, value@),
{
    let ghost m0 = members_view(members@);
    let mut i: usize = 0;
    while i < members.len()
        invariant
            0 <= i <= members@.len(),
            members@ == old(members)@,
            m0 == members_view(members@),
            forall|j: int| 0 <= j < i ==> (#[trigger] m0[j]).0 != key@,
        decreases members@.len() - i,
    {
        if members[i].0 == key {
            proof {
                lemma_insert_at(m0, key@, value@, i as int);
            }
            members.set(i, (key, value));
            assert(members_view(members@) =~= m0.update(i as int, (key@, value@)));
            return ;
        }
        i = i + 1;
    }
    proof {
        lemma_insert_absent(m0, key@, value@);
    }
    members.push((key, value));
    assert(members_view(members@) =~= m0.push((key@, value@)));
}

proof fn lemma_insert_at(m: Seq<(Seq<char>, Json)>, key: Seq<char>, value: Json, i: int)
    requires
        0 <= i < m.len(),
        m[i].0 == key,
        forall|j: int| 0 <= j < i ==> (#[trigger] m[j]).0 != key,
    ensures
        members_insert(m, key, value) =~= m.update(i, (key, value)),
    decreases i,
{
    if i > 0 {
        let t = m.drop_first();
        assert forall|j: int| 0 <= j < i - 1 implies (#[trigger] t[j]).0 != key by {
            assert(t[j] == m[j + 1]);
        }
        lemma_insert_at(t, key, value, i - 1);
        assert(m.update(i, (key, value)) =~= seq![m[0]] + t.update(i - 1, (key, value)));
    }
}

proof fn lemma_insert_absent(m: Seq<(Seq<char>, Json)>, key: Seq<char>, value: Json)
    requires
        forall|j: int| 0 <= j < m.len() ==> (#[trigger] m[j]).0 != key,
    ensures
        members_insert(m, key, value) =~= m.push((key, value)),
    decreases m.len(),
{
    if m.len() > 0 {
        let t = m.drop_first();
        assert forall|j: int| 0 <= j < t.len() implies (#[trigger] t[j]).0 != key by {
            assert(t[j] == m[j + 1]);
        }
        lemma_insert_absent(t, key, value);
        assert(m.push((key, value)) =~= seq![m[0]] + t.push((key, value)));
    }
}

impl Clone for JsonValue {
    fn clone(&self) -> (r: JsonValue)
        ensures
            r@ == self@,
    {
        self.deep_clone()
    }
}

impl Clone for JsonNumber {
    fn clone(&self) -> (r: JsonNumber)
        ensures
            r.text@ == self.text@,
    {
        self.copy()
    }
}

/// The compact text of `v`, written by serde_json.
#[verifier::external_body]
fn json_text(v: &JsonValue) -> (s: String)
    ensures
        s@ == spec_json_text(v@),
{
    to_serde_value(v).to_string()
}

/// The indented text of `v`, written by serde_json's `to_string_pretty`, which
/// cannot fail on a `serde_json::Value` (its object keys are strings).
#[verifier::external_body]
fn json_pretty_text(v: &JsonValue) -> (s: String)
    ensures
        s@ == spec_json_pretty_text(v@),
{
    match serde_json::to_string_pretty(&to_serde_value(v)) {
        Ok(text) => text,
        Err(_) => String::new(),
    }
}

/// The value serde_json's `from_str` reads from the text, as a value of this crate.
#[verifier::external_body]
fn parse_json(text: &str) -> (r: Option<JsonValue>)
    ensures
        match r {
            Some(v) => spec_parse_json(text@) == Some(v@),
            None => spec_parse_json(text@) is None,
        },
{
    match serde_json::from_str::<serde_json::Value>(text) {
        Ok(v) => Some(from_serde_value(&v)),
        Err(_) => None,
    }
}

/// Converts serde_json's own value into a value of this crate, member for member;
/// a number keeps the text serde_json writes for it.
#[verifier::external_body]
fn from_serde_value(v: &serde_json::Value) -> JsonValue {
    match v {
        serde_json::Value::Null => JsonValue::Null,
        serde_json::Value::Bool(b) => JsonValue::Bool(*b),
        serde_json::Value::Number(n) => JsonValue::Number(JsonNumber { text: n.to_string() }),
        serde_json::Value::String(s) => JsonValue::String(s.clone()),
        serde_json::Value::Array(a) => JsonValue::Array(a.iter().map(from_serde_value).collect()),
        serde_json::Value::Object(o) => JsonValue::Object(
            o.iter().map(|(k, x)| (k.clone(), from_serde_value(x))).collect(),
        ),
    }
}

/// Converts a value of this crate into serde_json's own value, member for member. A
/// number whose text serde_json does not read as a number becomes `null`, as
/// serde_json writes a non-finite float.
#[verifier::external_body]
fn to_serde_value(v: &JsonValue) -> serde_json::Value {
    match v {
        JsonValue::Null => serde_json::Value::Null,
        JsonValue::Bool(b) => serde_json::Value::Bool(*b),
        JsonValue::Number(n) => match n.text.parse::<serde_json::Number>() {
            Ok(x) => serde_json::Value::Number(x),
            Err(_) => serde_json::Value::Null,
        },
        JsonValue::String(s) => serde_json::Value::String(s.clone()),
        JsonValue::Array(a) => serde_json::Value::Array(a.iter().map(to_serde_value).collect()),
        JsonValue::Object(o) => serde_json::Value::Object(
            o.iter().map(|(k, x)| (k.clone(), to_serde_value(x))).collect(),
        ),
    }
}

#[verifier::external_type_specification]
#[verifier::external_body]
pub struct ExJsonValue(serde_json::Value);

} // verus!
