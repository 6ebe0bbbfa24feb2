use vstd::prelude::*;

verus! {

broadcast use vstd::std_specs::vec::group_vec_axioms;

/// A JSON document as this library reads and writes it.
///
/// A number is held as decimal text, so that no float enters the library:
/// the text serde_json gives for it when a document is read (which may
/// differ from the document's own spelling, `1.50` becoming `1.5`), and the
/// text to write when one is written.
#[derive(Debug)]
pub enum JsonValue {
    Null,
    Bool(bool),
    Number(String),
    Str(String),
    Array(Vec<JsonValue>),
    Object(Vec<(String, JsonValue)>),
}

/// The mathematical form of a `JsonValue`: text as sequences of characters.
pub enum JsonView {
    Null,
    Bool(bool),
    Number(Seq<char>),
    Str(Seq<char>),
    Array(Seq<JsonView>),
    Object(Seq<(Seq<char>, JsonView)>),
}

pub open spec fn json_view(j: JsonValue) -> JsonView
    decreases j,
{
    match j {
        JsonValue::Null => JsonView::Null,
        JsonValue::Bool(b) => JsonView::Bool(b),
        JsonValue::Number(t) => JsonView::Number(t@),
        JsonValue::Str(s) => JsonView::Str(s@),
        JsonValue::Array(items) => JsonView::Array(
            Seq::new(
                items@.len(),
                |i: int|
                    if 0 <= i < items@.len() {
                        json_view(items[i])
                    } else {
                        JsonView::Null
                    },
            ),
        ),
        JsonValue::Object(entries) => JsonView::Object(
            Seq::new(
                entries@.len(),
                |i: int|
                    if 0 <= i < entries@.len() {
                        (entries[i].0@, json_view(entries[i].1))
                    } else {
                        (Seq::empty(), JsonView::Null)
                    },
            ),
        ),
    }
}

impl View for JsonValue {
    type V = JsonView;

    open spec fn view(&self) -> JsonView {
        json_view(*self)
    }
}


/// The view of a list of object entries.
pub open spec fn entries_view(es: Seq<(String, JsonValue)>) -> Seq<(Seq<char>, JsonView)> {
    Seq::new(es.len(), |i: int| (es[i].0@, es[i].1@))
}

/// The view of a list of array items.
pub open spec fn items_view(items: Seq<JsonValue>) -> Seq<JsonView> {
    Seq::new(items.len(), |i: int| items[i]@)
}

/// An object with the given entries, in order.
pub fn object(es: Vec<(String, JsonValue)>) -> (r: JsonValue)
    ensures
        r@ == JsonView::Object(entries_view(es@)),
{
    let r = JsonValue::Object(es);
    assert(r@->Object_0 =~= entries_view(es@));
    r
}

/// An array with the given items, in order.
pub fn array(items: Vec<JsonValue>) -> (r: JsonValue)
    ensures
        r@ == JsonView::Array(items_view(items@)),
{
    let r = JsonValue::Array(items);
    assert(r@->Array_0 =~= items_view(items@));
    r
}

/// A string value holding `s`.
pub fn text(s: &str) -> (r: JsonValue)
    ensures
        r@ == JsonView::Str(s@),
{
    JsonValue::Str(String::from_str(s))
}

/// Entries with one more member when there is a value for it.
pub open spec fn with_opt(es: Seq<(Seq<char>, JsonView)>, key: Seq<char>, v: Option<JsonView>) -> Seq<(Seq<char>, JsonView)> {
    match v {
        Some(x) => es.push((key, x)),
        None => es,
    }
}

pub open spec fn opt_json_view(o: Option<JsonValue>) -> Option<JsonView> {
    match o {
        Some(v) => Some(v@),
        None => None,
    }
}

/// Adds the member `key` at the end of `es`.
pub fn push_entry(es: &mut Vec<(String, JsonValue)>, key: &str, v: JsonValue)
    ensures
        entries_view(final(es)@) == entries_view(old(es)@).push((key@, v@)),
{
    let ghost v_view = v@;
    es.push((String::from_str(key), v));
    assert(entries_view(es@) =~= entries_view(old(es)@).push((key@, v_view)));
}

/// Adds the member `key` at the end of `es` when there is a value for it:
/// an absent value is left out rather than written as null.
pub fn push_opt(es: &mut Vec<(String, JsonValue)>, key: &str, v: Option<JsonValue>)
    ensures
        entries_view(final(es)@) == with_opt(entries_view(old(es)@), key@, opt_json_view(v)),
{
    match v {
        Some(x) => push_entry(es, key, x),
        None => {},
    }
}

/// A copy of `v`: the same document.
pub fn copy_json(v: &JsonValue) -> (r: JsonValue)
    ensures
        r@ == v@,
    decreases v,
{
    match v {
        JsonValue::Null => JsonValue::Null,
        JsonValue::Bool(b) => JsonValue::Bool(*b),
        JsonValue::Number(t) => JsonValue::Number(t.clone()),
        JsonValue::Str(s) => JsonValue::Str(s.clone()),
        JsonValue::Array(items) => {
            let mut out: Vec<JsonValue> = Vec::new();
            let mut i: usize = 0;
            while i < items.len()
                invariant
                    i <= items@.len(),
                    *v == JsonValue::Array(*items),
                    out@.len() == i,
                    forall|k: int| 0 <= k < i ==> (#[trigger] out@[k])@ == items@[k]@,
                decreases items@.len() - i,
            {
                proof {
                    let it = (*v)->Array_0;
                    assert(decreases_to!(*v => it));
                    assert(decreases_to!(it => it[i as int]));
                }
                out.push(copy_json(&items[i]));
                i = i + 1;
            }
            let r = JsonValue::Array(out);
            assert(r@->Array_0 =~= v@->Array_0);
            r
        },
        JsonValue::Object(entries) => {
            let mut out: Vec<(String, JsonValue)> = Vec::new();
            let mut i: usize = 0;
            while i < entries.len()
                invariant
                    i <= entries@.len(),
                    *v == JsonValue::Object(*entries),
                    out@.len() == i,
                    forall|k: int|
                        0 <= k < i ==> (#[trigger] out@[k]).0@ == entries@[k].0@ && out@[k].1@
                            == entries@[k].1@,
                decreases entries@.len() - i,
            {
                proof {
                    let es = (*v)->Object_0;
                    assert(decreases_to!(*v => es));
                    assert(decreases_to!(es => es[i as int]));
                    assert(decreases_to!(es[i as int] => es[i as int].1));
                }
                out.push((entries[i].0.clone(), copy_json(&entries[i].1)));
                i = i + 1;
            }
            let r = JsonValue::Object(out);
            assert(r@->Object_0 =~= v@->Object_0);
            r
        },
    }
}

impl Clone for JsonValue {
    fn clone(&self) -> (r: Self)
        ensures
            r@ == self@,
    {
        copy_json(self)
    }
}

/// The value under `key` in a list of object entries: the first entry with
/// that key wins.
pub open spec fn lookup(entries: Seq<(Seq<char>, JsonView)>, key: Seq<char>) -> Option<JsonView>
    decreases entries.len(),
{
    if entries.len() == 0 {
        None
    } else if entries[0].0 == key {
        Some(entries[0].1)
    } else {
        lookup(entries.drop_first(), key)
    }
}

/// Looking a key up after one more entry: an earlier entry with that key
/// still wins.
pub proof fn lemma_lookup_push(es: Seq<(Seq<char>, JsonView)>, e: (Seq<char>, JsonView))
    ensures
        forall|q: Seq<char>|
            #[trigger] lookup(es.push(e), q) == (match lookup(es, q) {
                Some(x) => Some(x),
                None => if e.0 == q {
                    Some(e.1)
                } else {
                    None
                },
            }),
    decreases es.len(),
{
    assert forall|q: Seq<char>|
        #[trigger] lookup(es.push(e), q) == (match lookup(es, q) {
            Some(x) => Some(x),
            None => if e.0 == q {
                Some(e.1)
            } else {
                None
            },
        }) by {
        if es.len() == 0 {
            assert(es.push(e).drop_first() =~= Seq::<(Seq<char>, JsonView)>::empty());
            assert(es.push(e)[0] == e);
            assert(lookup(Seq::<(Seq<char>, JsonView)>::empty(), q) is None);
            assert(lookup(es, q) is None);
        } else {
            assert(es.push(e).drop_first() =~= es.drop_first().push(e));
            assert(es.push(e)[0] == es[0]);
            lemma_lookup_push(es.drop_first(), e);
            assert(lookup(es.drop_first().push(e), q) == (match lookup(es.drop_first(), q) {
                Some(x) => Some(x),
                None => if e.0 == q {
                    Some(e.1)
                } else {
                    None
                },
            }));
        }
    }
}

/// Looking a key up after an optional member.
pub proof fn lemma_lookup_with_opt(es: Seq<(Seq<char>, JsonView)>, k: Seq<char>, v: Option<JsonView>)
    ensures
        forall|q: Seq<char>|
            #[trigger] lookup(with_opt(es, k, v), q) == (match lookup(es, q) {
                Some(x) => Some(x),
                None => if k == q {
                    v
                } else {
                    None
                },
            }),
{
    if let Some(x) = v {
        lemma_lookup_push(es, (k, x));
    }
}

/// The member `key` of an object; nothing for any other kind of value.
pub open spec fn field(j: JsonView, key: Seq<char>) -> Option<JsonView> {
    match j {
        JsonView::Object(entries) => lookup(entries, key),
        _ => None,
    }
}

/// The member `key` of an object when it is a string.
pub open spec fn str_field(j: JsonView, key: Seq<char>) -> Option<Seq<char>> {
    match field(j, key) {
        Some(JsonView::Str(s)) => Some(s),
        _ => None,
    }
}

pub open spec fn is_digit(c: char) -> bool {
    '0' <= c <= '9'
}

pub open spec fn digit_value(c: char) -> int {
    c as int - '0' as int
}

pub open spec fn digit_char(d: int) -> char
    recommends
        0 <= d < 10,
{
    if d == 0 {
        '0'
    } else if d == 1 {
        '1'
    } else if d == 2 {
        '2'
    } else if d == 3 {
        '3'
    } else if d == 4 {
        '4'
    } else if d == 5 {
        '5'
    } else if d == 6 {
        '6'
    } else if d == 7 {
        '7'
    } else if d == 8 {
        '8'
    } else {
        '9'
    }
}

/// Text made only of decimal digits, at least one.
pub open spec fn is_digits(s: Seq<char>) -> bool {
    s.len() > 0 && forall|i: int| 0 <= i < s.len() ==> is_digit(#[trigger] s[i])
}

/// The number that a run of decimal digits denotes.
pub open spec fn digits_value(s: Seq<char>) -> int
    decreases s.len(),
{
    if s.len() == 0 {
        0
    } else {
        digits_value(s.drop_last()) * 10 + digit_value(s.last())
    }
}

/// The decimal text of a natural number, without leading zeros.
pub open spec fn decimal(n: nat) -> Seq<char>
    decreases n,
{
    if n < 10 {
        seq![digit_char(n as int)]
    } else {
        decimal(n / 10).push(digit_char((n % 10) as int))
    }
}

pub proof fn lemma_decimal_digits(n: nat)
    ensures
        is_digits(decimal(n)),
        digits_value(decimal(n)) == n,
    decreases n,
{
    if n >= 10 {
        lemma_decimal_digits(n / 10);
        let s = decimal(n);
        assert(s.drop_last() == decimal(n / 10));
        let d = (n % 10) as int;
        assert(digit_value(digit_char(d)) == d);
        assert(s.last() == digit_char(d));
        assert(n == (n / 10) * 10 + d);
        assert forall|i: int| 0 <= i < s.len() implies is_digit(#[trigger] s[i]) by {
            if i < s.len() - 1 {
                assert(s[i] == decimal(n / 10)[i]);
            }
        }
    } else {
        let s = decimal(n);
        assert(s.drop_last().len() == 0);
        assert(digits_value(s.drop_last()) == 0);
        assert(digit_value(digit_char(n as int)) == n);
    }
}

/// The member `key` of `v`, when `v` is an object that has one.
pub fn get<'a>(v: &'a JsonValue, key: &str) -> (r: Option<&'a JsonValue>)
    ensures
        match r {
            Some(x) => field(v@, key@) == Some(x@),
            None => field(v@, key@) is None,
        },
{
    match v {
        JsonValue::Object(entries) => {
            let k = String::from_str(key);
            let ghost es = v@->Object_0;
            let mut i: usize = 0;
            assert(es.subrange(0, es.len() as int) =~= es);
            while i < entries.len()
                invariant
                    0 <= i <= entries@.len(),
                    es.len() == entries@.len(),
                    k@ == key@,
                    v@ == JsonView::Object(es),
                    forall|j: int|
                        0 <= j < es.len() ==> #[trigger] es[j] == (
                        entries@[j].0@,
                        entries@[j].1@,
                    ),
                    lookup(es, key@) == lookup(es.subrange(i as int, es.len() as int), key@),
                decreases entries@.len() - i,
            {
                let ghost rest = es.subrange(i as int, es.len() as int);
                assert(rest[0] == es[i as int]);
                assert(rest.drop_first() =~= es.subrange(i + 1, es.len() as int));
                if entries[i].0 == k {
                    return Some(&entries[i].1);
                }
                i = i + 1;
            }
            None
        },
        _ => None,
    }
}

/// The member `key` of `v` when it is a string.
pub fn get_str<'a>(v: &'a JsonValue, key: &str) -> (r: Option<&'a String>)
    ensures
        match r {
            Some(s) => str_field(v@, key@) == Some(s@),
            None => str_field(v@, key@) is None,
        },
{
    match get(v, key) {
        Some(JsonValue::Str(s)) => Some(s),
        _ => None,
    }
}

/// Whether `s` holds exactly the text `lit`.
pub fn text_is(s: &String, lit: &str) -> (r: bool)
    ensures
        r == (s@ == lit@),
{
    *s == String::from_str(lit)
}

/// The number that decimal text denotes, when it is a run of digits whose
/// value fits in a `u64`.
pub fn parse_u64(t: &String) -> (r: Option<u64>)
    ensures
        r == (if is_digits(t@) && digits_value(t@) <= u64::MAX {
            Some(digits_value(t@) as u64)
        } else {
            None
        }),
        r matches Some(n) ==> n as int == digits_value(t@),
{
    let s = t.as_str();
    let n = s.unicode_len();
    if n == 0 {
        return None;
    }
    let mut acc: u64 = 0;
    let mut i: usize = 0;
    while i < n
        invariant
            n == t@.len(),
            s@ == t@,
            i <= n,
            is_digits(t@.subrange(0, i as int)) || i == 0,
            acc == digits_value(t@.subrange(0, i as int)),
        decreases n - i,
    {
        let c = s.get_char(i);
        let ghost pre = t@.subrange(0, i as int);
        let ghost next = t@.subrange(0, i + 1);
        assert(next.drop_last() =~= pre);
        if !('0' <= c && c <= '9') {
            assert(!is_digit(t@[i as int]));
            return None;
        }
        let d = (c as u32 - '0' as u32) as u64;
        if acc > (u64::MAX - d) / 10 {
            proof {
                lemma_digits_grow(t@, i as int + 1);
            }
            return None;
        }
        acc = acc * 10 + d;
        i = i + 1;
        assert(is_digits(next)) by {
            assert forall|j: int| 0 <= j < next.len() implies is_digit(#[trigger] next[j]) by {
                if j < i - 1 {
                    assert(next[j] == pre[j]);
                }
            }
        }
    }
    assert(t@.subrange(0, n as int) =~= t@);
    Some(acc)
}

/// Digits only add up: the value of a prefix never exceeds that of the whole.
proof fn lemma_digits_grow(s: Seq<char>, k: int)
    requires
        0 <= k <= s.len(),
    ensures
        is_digits(s) ==> digits_value(s.subrange(0, k)) <= digits_value(s),
    decreases s.len() - k,
{
    if k < s.len() && is_digits(s) {
        lemma_digits_grow(s, k + 1);
        let a = s.subrange(0, k);
        let b = s.subrange(0, k + 1);
        assert(b.drop_last() =~= a);
        assert(is_digit(s[k]));
        assert(b.last() == s[k]);
        lemma_digits_nonneg(a);
    } else if k == s.len() {
        assert(s.subrange(0, k) =~= s);
    }
}

proof fn lemma_digits_nonneg(s: Seq<char>)
    requires
        forall|i: int| 0 <= i < s.len() ==> is_digit(#[trigger] s[i]),
    ensures
        digits_value(s) >= 0,
    decreases s.len(),
{
    if s.len() > 0 {
        assert(is_digit(s[s.len() - 1]));
        let p = s.drop_last();
        assert forall|i: int| 0 <= i < p.len() implies is_digit(#[trigger] p[i]) by {
            assert(p[i] == s[i]);
        }
        lemma_digits_nonneg(p);
    }
}

/// One decimal digit as text.
fn digit_text(d: u64) -> (r: &'static str)
    requires
        d < 10,
    ensures
        r@ == seq![digit_char(d as int)],
{
    proof {
        reveal_strlit("0");
        reveal_strlit("1");
        reveal_strlit("2");
        reveal_strlit("3");
        reveal_strlit("4");
        reveal_strlit("5");
        reveal_strlit("6");
        reveal_strlit("7");
        reveal_strlit("8");
        reveal_strlit("9");
    }
    let r = if d == 0 {
        "0"
    } else if d == 1 {
        "1"
    } else if d == 2 {
        "2"
    } else if d == 3 {
        "3"
    } else if d == 4 {
        "4"
    } else if d == 5 {
        "5"
    } else if d == 6 {
        "6"
    } else if d == 7 {
        "7"
    } else if d == 8 {
        "8"
    } else {
        "9"
    };
    assert(r@ =~= seq![digit_char(d as int)]);
    r
}

/// The decimal text of `n`.
pub fn decimal_text(n: u64) -> (r: String)
    ensures
        r@ == decimal(n as nat),
    decreases n,
{
    if n < 10 {
        String::from_str(digit_text(n))
    } else {
        let mut s = decimal_text(n / 10);
        s.append(digit_text(n % 10));
        assert(s@ =~= decimal(n as nat));
        s
    }
}


#[verifier::external_type_specification]
#[verifier::external_body]
pub struct ExSerdeValue(serde_json::Value);

#[verifier::external_type_specification]
#[verifier::external_body]
pub struct ExSerdeError(serde_json::Error);

/// The document that serde_json reads from a text, if the text is JSON.
pub uninterp spec fn parsed_json(text: Seq<char>) -> Option<JsonView>;

/// The text that serde_json writes for a document, if it can write it.
pub uninterp spec fn printed_json(doc: JsonView) -> Option<Seq<char>>;

/// Relies on the variants of serde_json::Value and on the decimal form that
/// serde_json::Number displays; a conversion only.
#[verifier::external_body]
fn from_serde(v: serde_json::Value) -> JsonValue {
    match v {
        serde_json::Value::Null => JsonValue::Null,
        serde_json::Value::Bool(b) => JsonValue::Bool(b),
        serde_json::Value::Number(n) => JsonValue::Number(n.to_string()),
        serde_json::Value::String(s) => JsonValue::Str(s),
        serde_json::Value::Array(a) => JsonValue::Array(a.into_iter().map(from_serde).collect()),
        serde_json::Value::Object(m) => JsonValue::Object(
            m.into_iter().map(|(k, x)| (k, from_serde(x))).collect(),
        ),
    }
}

/// Relies on serde_json::Number's FromStr to read a number's decimal text
/// back; a conversion only, failing where that text is no JSON number.
#[verifier::external_body]
fn to_serde(v: &JsonValue) -> Result<serde_json::Value, serde_json::Error> {
    Ok(match v {
        JsonValue::Null => serde_json::Value::Null,
        JsonValue::Bool(b) => serde_json::Value::Bool(*b),
        JsonValue::Number(t) => serde_json::Value::Number(t.parse()?),
        JsonValue::Str(s) => serde_json::Value::String(s.clone()),
        JsonValue::Array(a) => serde_json::Value::Array(a.iter().map(to_serde).collect::<Result<_, _>>()?),
        JsonValue::Object(es) => serde_json::Value::Object(
            es.iter().map(|(k, x)| to_serde(x).map(|y| (k.clone(), y))).collect::<Result<_, _>>()?,
        ),
    })
}

/// Relies on serde_json::from_str::<serde_json::Value>: reads a JSON text.
#[verifier::external_body]
pub(crate) fn parse_json(text: &str) -> (r: Option<JsonValue>)
    ensures
        match r {
            Some(v) => parsed_json(text@) == Some(v@),
            None => parsed_json(text@) is None,
        },
{
    serde_json::from_str::<serde_json::Value>(text).ok().map(from_serde)
}

/// Relies on serde_json::to_string: writes a document as compact JSON text.
#[verifier::external_body]
pub(crate) fn print_json(v: &JsonValue) -> (r: Option<String>)
    ensures
        match r {
            Some(s) => printed_json(v@) == Some(s@),
            None => printed_json(v@) is None,
        },
{
    to_serde(v).and_then(|x| serde_json::to_string(&x)).ok()
}

impl JsonValue {
    /// The document a JSON text holds, if it is JSON.
    pub fn from_text(text: &str) -> (r: Option<JsonValue>)
        ensures
            match r {
                Some(v) => parsed_json(text@) == Some(v@),
                None => parsed_json(text@) is None,
            },
    {
        parse_json(text)
    }

    /// This document as compact JSON text, unless a number in it is no JSON
    /// number.
    pub fn to_text(&self) -> (r: Option<String>)
        ensures
            match r {
                Some(s) => printed_json(self@) == Some(s@),
                None => printed_json(self@) is None,
            },
    {
        print_json(self)
    }
}

} // verus!
