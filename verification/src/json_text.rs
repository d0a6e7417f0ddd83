//! Reading integers out of JSON numbers, and the compact text of a JSON
//! value as `serde_json` writes it.
use vstd::prelude::*;

use crate::json::{Json, JsonValue};
use crate::text::{chars_of, join, push_char};

verus! {

/// Every character of `s` is a decimal digit, and there is at least one.
pub open spec fn all_digits(s: Seq<char>) -> bool {
    s.len() > 0 && forall|i: int| 0 <= i < s.len() ==> '0' <= #[trigger] s[i] <= '9'
}

/// The value of a string of decimal digits.
pub open spec fn digits_value(s: Seq<char>) -> int
    decreases s.len(),
{
    if s.len() == 0 {
        0
    } else {
        digits_value(s.drop_last()) * 10 + (s.last() as int - '0' as int)
    }
}

/// The integer an integer literal denotes (an optional minus sign, then
/// decimal digits), or `None` for any other text.
pub open spec fn integer_literal(s: Seq<char>) -> Option<int> {
    if s.len() > 0 && s[0] == '-' && all_digits(s.drop_first()) {
        Some(-digits_value(s.drop_first()))
    } else if all_digits(s) {
        Some(digits_value(s))
    } else {
        None
    }
}

/// What `Value::as_i64` gives: the number, where it is an integer that fits
/// an `i64`.
pub open spec fn json_i64(j: Json) -> Option<int> {
    match j {
        Json::Number(t) => match integer_literal(t) {
            Some(n) => if i64::MIN <= n <= i64::MAX {
                Some(n)
            } else {
                None
            },
            None => None,
        },
        _ => None,
    }
}

/// What `Value::as_u64` gives: the number, where it is a non-negative
/// integer that fits a `u64`.
pub open spec fn json_u64(j: Json) -> Option<int> {
    match j {
        Json::Number(t) => if all_digits(t) && digits_value(t) <= u64::MAX {
            Some(digits_value(t))
        } else {
            None
        },
        _ => None,
    }
}

proof fn lemma_digits_nonneg_monotone(s: Seq<char>, k: int)
    requires
        forall|i: int| 0 <= i < s.len() ==> '0' <= #[trigger] s[i] <= '9',
        0 <= k <= s.len(),
    ensures
        0 <= digits_value(s.take(k)) <= digits_value(s),
    decreases s.len(),
{
    if s.len() > 0 {
        if k == s.len() {
            assert(s.take(k) == s);
            lemma_digits_nonneg_monotone(s.drop_last(), k - 1);
        } else {
            lemma_digits_nonneg_monotone(s.drop_last(), k);
            assert(s.drop_last().take(k) == s.take(k));
            lemma_digits_nonneg_monotone(s.drop_last(), s.len() - 1);
            assert(s.drop_last().take(s.len() - 1) == s.drop_last());
        }
    } else {
        assert(s.take(k).len() == 0);
    }
}

/// The value of the digits `cs[from..]`, where all of them are digits and
/// the value is at most `limit`.
fn digits_upto(cs: &Vec<char>, from: usize, limit: u64) -> (r: Option<u64>)
    requires
        from <= cs@.len(),
        limit >= 9,
    ensures
        match r {
            Some(v) => all_digits(cs@.skip(from as int)) && v == digits_value(cs@.skip(from as int))
                && v <= limit,
            None => !(all_digits(cs@.skip(from as int)) && digits_value(cs@.skip(from as int)) <= limit),
        },
{
    let ghost s = cs@.skip(from as int);
    if from == cs.len() {
        return None;
    }
    let mut v: u64 = 0;
    let mut i: usize = from;
    while i < cs.len()
        invariant
            from <= i <= cs@.len(),
            s == cs@.skip(from as int),
            forall|k: int| 0 <= k < i - from ==> '0' <= #[trigger] s[k] <= '9',
            v == digits_value(s.take(i - from)),
            v <= limit,
            limit >= 9,
        decreases cs.len() - i,
    {
        let c = cs[i];
        if !('0' <= c && c <= '9') {
            assert(s[i - from] == c);
            return None;
        }
        let d: u64 = ((c as u32) - ('0' as u32)) as u64;
        assert(s.take(i - from + 1).drop_last() == s.take(i - from));
        assert(s.take(i - from + 1).last() == c);
        if v > (limit - d) / 10 {
            proof {
                assert(v * 10 + d > limit) by (nonlinear_arith)
                    requires
                        v > (limit - d) / 10,
                        d <= 9,
                        d <= limit,
                ;
                assert forall|k: int| 0 <= k < i - from + 1 implies '0' <= #[trigger] s[k] <= '9' by {
                    if k == i - from {
                        assert(s[k] == c);
                    }
                }
                if all_digits(s) {
                    lemma_digits_nonneg_monotone(s, i - from + 1);
                }
            }
            return None;
        }
        proof {
            assert(v * 10 + d <= limit) by (nonlinear_arith)
                requires
                    v <= (limit - d) / 10,
                    d <= limit,
            ;
        }
        v = v * 10 + d;
        i = i + 1;
    }
    assert(s.take(i - from) == s);
    Some(v)
}

/// `Value::as_i64` on the model: the number as an `i64`, where it is an
/// integer in range.
pub fn as_i64(v: &JsonValue) -> (r: Option<i64>)
    ensures
        match r {
            Some(n) => json_i64(v@) == Some(n as int),
            None => json_i64(v@) is None,
        },
{
    match v {
        JsonValue::Number(t) => {
            let cs = chars_of(t.as_str());
            if cs.len() > 0 && cs[0] == '-' {
                assert(cs@.skip(1) == cs@.drop_first());
                assert(!all_digits(cs@)) by {
                    assert(cs@[0] == '-');
                }
                match digits_upto(&cs, 1, 9223372036854775808u64) {
                    Some(m) => {
                        if m == 9223372036854775808u64 {
                            Some(i64::MIN)
                        } else {
                            Some(-(m as i64))
                        }
                    },
                    None => None,
                }
            } else {
                assert(cs@.skip(0) == cs@);
                proof {
                    if all_digits(cs@) {
                        lemma_digits_nonneg_monotone(cs@, 0);
                    }
                }
                match digits_upto(&cs, 0, 9223372036854775807u64) {
                    Some(m) => Some(m as i64),
                    None => None,
                }
            }
        },
        _ => None,
    }
}

/// `Value::as_u64` on the model: the number as a `u64`, where it is a
/// non-negative integer in range.
pub fn as_u64(v: &JsonValue) -> (r: Option<u64>)
    ensures
        match r {
            Some(n) => json_u64(v@) == Some(n as int),
            None => json_u64(v@) is None,
        },
{
    match v {
        JsonValue::Number(t) => {
            let cs = chars_of(t.as_str());
            assert(cs@.skip(0) == cs@);
            digits_upto(&cs, 0, u64::MAX)
        },
        _ => None,
    }
}

/// The lower-case hexadecimal digit of `n`, for `n` below 16.
pub open spec fn hex_digit(n: int) -> char {
    if n < 10 {
        (('0' as int) + n) as char
    } else {
        (('a' as int) + n - 10) as char
    }
}

/// How a JSON string writes one character: quote and backslash behind a
/// backslash, the control characters by their short escape or as `\u00XX`,
/// every other character as it is.
pub open spec fn escape_char(c: char) -> Seq<char> {
    if c == '"' {
        seq!['\\', '"']
    } else if c == '\\' {
        seq!['\\', '\\']
    } else if c == '\u{8}' {
        seq!['\\', 'b']
    } else if c == '\t' {
        seq!['\\', 't']
    } else if c == '\n' {
        seq!['\\', 'n']
    } else if c == '\u{c}' {
        seq!['\\', 'f']
    } else if c == '\r' {
        seq!['\\', 'r']
    } else if (c as int) < 0x20 {
        seq!['\\', 'u', '0', '0', hex_digit((c as int) / 16), hex_digit((c as int) % 16)]
    } else {
        seq![c]
    }
}

/// The characters of `s`, each written as a JSON string writes it.
pub open spec fn escaped(s: Seq<char>) -> Seq<char>
    decreases s.len(),
{
    if s.len() == 0 {
        Seq::empty()
    } else {
        escaped(s.drop_last()) + escape_char(s.last())
    }
}

/// A JSON string literal.
pub open spec fn quoted(s: Seq<char>) -> Seq<char> {
    seq!['"'] + escaped(s) + seq!['"']
}

/// The compact JSON text of a value, as `Value::to_string` writes it: no
/// white space, entries in their order, numbers as their literal text.
pub open spec fn json_text(j: Json) -> Seq<char>
    decreases j, 1nat,
{
    match j {
        Json::Null => "null"@,
        Json::Bool(b) => if b {
            "true"@
        } else {
            "false"@
        },
        Json::Number(t) => t,
        Json::Str(s) => quoted(s),
        Json::Array(items) => seq!['['] + join(item_texts(items), seq![',']) + seq![']'],
        Json::Object(ks, vs) => seq!['{'] + join(entry_texts(ks, vs), seq![',']) + seq!['}'],
    }
}

/// The texts of the items of an array.
pub open spec fn item_texts(items: Seq<Json>) -> Seq<Seq<char>>
    decreases items, 0nat,
{
    Seq::new(items.len(), |i: int| if 0 <= i < items.len() {
        json_text(items[i])
    } else {
        Seq::empty()
    })
}

/// The texts of the entries of an object: the quoted key, a colon, the
/// value.
pub open spec fn entry_texts(ks: Seq<Seq<char>>, vs: Seq<Json>) -> Seq<Seq<char>>
    decreases vs, 0nat,
{
    Seq::new(vs.len(), |i: int| if 0 <= i < vs.len() {
        quoted(ks[i]) + seq![':'] + json_text(vs[i])
    } else {
        Seq::empty()
    })
}

fn hex_char(n: u32) -> (c: char)
    requires
        n < 16,
    ensures
        c == hex_digit(n as int),
{
    if n < 10 {
        ((('0' as u32) + n) as u8) as char
    } else {
        ((('a' as u32) + n - 10) as u8) as char
    }
}

fn push_escaped_char(out: &mut String, c: char)
    ensures
        final(out)@ == old(out)@ + escape_char(c),
{
    let ghost o = out@;
    if c == '"' {
        push_char(out, '\\');
        push_char(out, '"');
    } else if c == '\\' {
        push_char(out, '\\');
        push_char(out, '\\');
    } else if c == '\u{8}' {
        push_char(out, '\\');
        push_char(out, 'b');
    } else if c == '\t' {
        push_char(out, '\\');
        push_char(out, 't');
    } else if c == '\n' {
        push_char(out, '\\');
        push_char(out, 'n');
    } else if c == '\u{c}' {
        push_char(out, '\\');
        push_char(out, 'f');
    } else if c == '\r' {
        push_char(out, '\\');
        push_char(out, 'r');
    } else if (c as u32) < 0x20 {
        let n = c as u32;
        push_char(out, '\\');
        push_char(out, 'u');
        push_char(out, '0');
        push_char(out, '0');
        push_char(out, hex_char(n / 16));
        push_char(out, hex_char(n % 16));
    } else {
        push_char(out, c);
    }
    assert(out@ =~= o + escape_char(c));
}

/// Appends the JSON string literal of `s`.
pub fn push_quoted(out: &mut String, s: &str)
    ensures
        final(out)@ == old(out)@ + quoted(s@),
{
    let ghost o = out@;
    push_char(out, '"');
    let cs = chars_of(s);
    let mut i: usize = 0;
    while i < cs.len()
        invariant
            i <= cs@.len(),
            cs@ == s@,
            out@ == o + seq!['"'] + escaped(cs@.take(i as int)),
        decreases cs.len() - i,
    {
        proof {
            assert(cs@.take(i + 1).drop_last() == cs@.take(i as int));
            assert(cs@.take(i + 1).last() == cs@[i as int]);
        }
        push_escaped_char(out, cs[i]);
        i = i + 1;
        assert(out@ =~= o + seq!['"'] + escaped(cs@.take(i as int)));
    }
    assert(cs@.take(cs@.len() as int) == cs@);
    push_char(out, '"');
    assert(out@ =~= o + quoted(s@));
}

/// Writes the compact JSON text of a value.
#[verifier::loop_isolation(false)]
pub fn json_to_text(v: &JsonValue) -> (t: String)
    ensures
        t@ == json_text(v@),
    decreases v,
{
    match v {
        JsonValue::Null => {
            String::from_str("null")
        },
        JsonValue::Bool(b) => if *b {
            String::from_str("true")
        } else {
            String::from_str("false")
        },
        JsonValue::Number(n) => n.clone(),
        JsonValue::Str(s) => {
            let mut out = String::new();
            push_quoted(&mut out, s.as_str());
            assert(out@ =~= quoted(s@));
            out
        },
        JsonValue::Array(items) => {
            let ghost j = v@;
            let ghost parts = item_texts(j->Array_0);
            let mut out = String::new();
            push_char(&mut out, '[');
            let mut i: usize = 0;
            while i < items.len()
                invariant
                    i <= items@.len(),
                    out@ == seq!['['] + join(parts.take(i as int), seq![',']),
                decreases items.len() - i,
            {
                proof {
                    assert(decreases_to!(*v => (*v)->Array_0));
                    assert(decreases_to!(*items => items@));
                    assert(decreases_to!(items@ => items@[i as int]));
                }
                let t = json_to_text(&items[i]);
                if i > 0 {
                    push_char(&mut out, ',');
                }
                out.append(t.as_str());
                proof {
                    assert(j->Array_0[i as int] == items@[i as int]@);
                    assert(parts.take(i + 1).drop_last() =~= parts.take(i as int));
                    assert(parts.take(i + 1).last() == parts[i as int]);
                    if i == 0 {
                        assert(parts.take(1).len() == 1);
                    }
                }
                i = i + 1;
                assert(out@ =~= seq!['['] + join(parts.take(i as int), seq![',']));
            }
            assert(parts.take(items@.len() as int) =~= parts);
            push_char(&mut out, ']');
            out
        },
        JsonValue::Object { keys, values } => {
            let ghost j = v@;
            let n = if keys.len() <= values.len() {
                keys.len()
            } else {
                values.len()
            };
            let ghost parts = entry_texts(j->Object_0, j->Object_1);
            let mut out = String::new();
            push_char(&mut out, '{');
            let mut i: usize = 0;
            while i < n
                invariant
                    i <= n,
                    n == j->Object_1.len(),
                    n <= keys@.len(),
                    n <= values@.len(),
                    out@ == seq!['{'] + join(parts.take(i as int), seq![',']),
                decreases n - i,
            {
                proof {
                    assert(decreases_to!(*v => (*v)->values));
                    assert(decreases_to!(*values => values@));
                    assert(decreases_to!(values@ => values@[i as int]));
                }
                let t = json_to_text(&values[i]);
                if i > 0 {
                    push_char(&mut out, ',');
                }
                let mut entry = String::new();
                push_quoted(&mut entry, keys[i].as_str());
                push_char(&mut entry, ':');
                entry.append(t.as_str());
                out.append(entry.as_str());
                proof {
                    assert(j->Object_1[i as int] == values@[i as int]@);
                    assert(j->Object_0[i as int] == keys@[i as int]@);
                    assert(entry@ =~= parts[i as int]);
                    assert(parts.take(i + 1).drop_last() =~= parts.take(i as int));
                    assert(parts.take(i + 1).last() == parts[i as int]);
                    if i == 0 {
                        assert(parts.take(1).len() == 1);
                    }
                }
                i = i + 1;
                assert(out@ =~= seq!['{'] + join(parts.take(i as int), seq![',']));
            }
            assert(parts.take(n as int) =~= parts);
            push_char(&mut out, '}');
            out
        },
    }
}

} // verus!
