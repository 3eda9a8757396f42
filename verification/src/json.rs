//! A small JSON document model with a verified compact serializer.
//!
//! Values are built from null, booleans, numbers, strings, arrays and
//! objects. `render` gives the exact character sequence the serializer
//! produces: keys and strings are quoted and escaped, integers are
//! written in decimal, carried number text is written verbatim, and
//! elements are separated by single commas with no added whitespace.

use vstd::prelude::*;
use vstd::string::*;

verus! {

/// An owned JSON value. A number is either a 64-bit integer, written
/// in decimal by the serializer, or `Num`: a number's decimal text as
/// another producer wrote it (a fraction, an exponent, an integer
/// beyond 64 bits), carried along and rendered verbatim. A `Num` text
/// must be a well-formed JSON number literal; the serializer writes
/// it into the output as it stands.
#[derive(Debug, PartialEq, Eq)]
pub enum JsonValue {
    Null,
    Bool(bool),
    Int(i64),
    Num(String),
    Str(String),
    Arr(Vec<JsonValue>),
    Obj(Vec<(String, JsonValue)>),
}

/// The mathematical shape of a JSON value: strings become `Seq<char>`,
/// integers become `int`, arrays and objects become sequences.
#[verifier::ext_equal]
pub enum JsonVal {
    Null,
    Bool(bool),
    Int(int),
    Num(Seq<char>),
    Str(Seq<char>),
    Arr(Seq<JsonVal>),
    Obj(Seq<(Seq<char>, JsonVal)>),
}

/// The view of an owned JSON value as its mathematical shape.
pub open spec fn jview(v: JsonValue) -> JsonVal
    decreases v, 2int,
{
    match v {
        JsonValue::Null => JsonVal::Null,
        JsonValue::Bool(b) => JsonVal::Bool(b),
        JsonValue::Int(i) => JsonVal::Int(i as int),
        JsonValue::Num(t) => JsonVal::Num(t@),
        JsonValue::Str(s) => JsonVal::Str(s@),
        JsonValue::Arr(items) => JsonVal::Arr(jview_items(items@, items@.len() as int)),
        JsonValue::Obj(pairs) => JsonVal::Obj(jview_pairs(pairs@, pairs@.len() as int)),
    }
}

pub open spec fn jview_items(items: Seq<JsonValue>, n: int) -> Seq<JsonVal>
    decreases items, 1int, n,
{
    if n <= 0 || n > items.len() {
        Seq::empty()
    } else {
        jview_items(items, n - 1).push(jview(items[n - 1]))
    }
}

pub open spec fn jview_pairs(pairs: Seq<(String, JsonValue)>, n: int) -> Seq<(Seq<char>, JsonVal)>
    decreases pairs, 1int, n,
{
    if n <= 0 || n > pairs.len() {
        Seq::empty()
    } else {
        jview_pairs(pairs, n - 1).push((pairs[n - 1].0@, jview(pairs[n - 1].1)))
    }
}

impl View for JsonValue {
    type V = JsonVal;

    open spec fn view(&self) -> JsonVal {
        jview(*self)
    }
}

/// The decimal digit character for `n` in `0 ..= 9`.
pub open spec fn digit_char(n: int) -> char {
    if n == 0 { '0' }
    else if n == 1 { '1' }
    else if n == 2 { '2' }
    else if n == 3 { '3' }
    else if n == 4 { '4' }
    else if n == 5 { '5' }
    else if n == 6 { '6' }
    else if n == 7 { '7' }
    else if n == 8 { '8' }
    else { '9' }
}

/// The lower-case hexadecimal digit character for `n` in `0 ..= 15`.
pub open spec fn hex_char(n: int) -> char {
    if n < 10 { digit_char(n) }
    else if n == 10 { 'a' }
    else if n == 11 { 'b' }
    else if n == 12 { 'c' }
    else if n == 13 { 'd' }
    else if n == 14 { 'e' }
    else { 'f' }
}

/// The decimal digits of `n`, most significant first.
pub open spec fn dec_digits(n: nat) -> Seq<char>
    decreases n,
{
    if n < 10 {
        seq![digit_char(n as int)]
    } else {
        dec_digits(n / 10) + seq![digit_char((n % 10) as int)]
    }
}

/// The decimal text of `i`, with a leading minus sign when negative.
pub open spec fn int_text(i: int) -> Seq<char> {
    if i < 0 {
        seq!['-'] + dec_digits((-i) as nat)
    } else {
        dec_digits(i as nat)
    }
}

/// How one character appears inside a JSON string literal: quotes and
/// backslashes get a backslash escape, the usual control characters get
/// their short escapes, any other control character is written as
/// `\u00` plus two lower-case hex digits, and everything else stands
/// for itself.
pub open spec fn escape_char(c: char) -> Seq<char> {
    if c == '"' { seq!['\\', '"'] }
    else if c == '\\' { seq!['\\', '\\'] }
    else if c == '\u{8}' { seq!['\\', 'b'] }
    else if c == '\u{9}' { seq!['\\', 't'] }
    else if c == '\u{a}' { seq!['\\', 'n'] }
    else if c == '\u{c}' { seq!['\\', 'f'] }
    else if c == '\u{d}' { seq!['\\', 'r'] }
    else if (c as u32) < 0x20 {
        seq!['\\', 'u', '0', '0', hex_char((c as u32) as int / 16), hex_char((c as u32) as int % 16)]
    } else {
        seq![c]
    }
}

/// The body of a JSON string literal for `s` (without the quotes).
pub open spec fn escape_string(s: Seq<char>) -> Seq<char>
    decreases s.len(),
{
    if s.len() == 0 {
        Seq::empty()
    } else {
        escape_string(s.drop_last()) + escape_char(s.last())
    }
}

/// The serialized text of a JSON value, in compact form.
pub open spec fn render(v: JsonVal) -> Seq<char>
    decreases v, 2int, 0int,
{
    match v {
        JsonVal::Null => "null"@,
        JsonVal::Bool(b) => if b { "true"@ } else { "false"@ },
        JsonVal::Int(i) => int_text(i),
        JsonVal::Num(t) => t,
        JsonVal::Str(s) => seq!['"'] + escape_string(s) + seq!['"'],
        JsonVal::Arr(items) => seq!['['] + render_items(items, items.len() as int) + seq![']'],
        JsonVal::Obj(pairs) => seq!['{'] + render_pairs(pairs, pairs.len() as int) + seq!['}'],
    }
}

/// The first `n` elements of an array body, comma separated.
pub open spec fn render_items(items: Seq<JsonVal>, n: int) -> Seq<char>
    decreases items, 1int, n,
{
    if n <= 0 || n > items.len() {
        Seq::empty()
    } else {
        render_items(items, n - 1)
            + (if n > 1 { seq![','] } else { Seq::empty() })
            + render(items[n - 1])
    }
}

/// The first `n` members of an object body, comma separated, each as
/// a quoted escaped key, a colon, and the member's value.
pub open spec fn render_pairs(pairs: Seq<(Seq<char>, JsonVal)>, n: int) -> Seq<char>
    decreases pairs, 1int, n,
{
    if n <= 0 || n > pairs.len() {
        Seq::empty()
    } else {
        render_pairs(pairs, n - 1)
            + (if n > 1 { seq![','] } else { Seq::empty() })
            + seq!['"'] + escape_string(pairs[n - 1].0) + seq!['"', ':']
            + render(pairs[n - 1].1)
    }
}

/// Whether the object `v` has a member named `key`.
pub open spec fn obj_has_key(v: JsonVal, key: Seq<char>) -> bool {
    v is Obj && exists|i: int|
        0 <= i < v->Obj_0.len() && (#[trigger] v->Obj_0[i]).0 == key
}

/// Whether the object `v` has a member named `key` whose value is
/// exactly `value`.
pub open spec fn obj_pair(v: JsonVal, key: Seq<char>, value: JsonVal) -> bool {
    v is Obj && exists|i: int|
        0 <= i < v->Obj_0.len() && #[trigger] v->Obj_0[i] == (key, value)
}

/// Relies on std's `String::push`: appends the character to the end of
/// the string.
pub assume_specification[ String::push ](s: &mut String, c: char)
    ensures
        final(s)@ == old(s)@.push(c),
;

/// `jview_items(items, n)` lists the views of the first `n` elements.
pub proof fn lemma_jview_items(items: Seq<JsonValue>, n: int)
    requires
        0 <= n <= items.len(),
    ensures
        jview_items(items, n).len() == n,
        forall|k: int| 0 <= k < n ==> jview_items(items, n)[k] == jview(items[k]),
    decreases n,
{
    if n > 0 {
        lemma_jview_items(items, n - 1);
    }
}

/// `jview_pairs(pairs, n)` lists the viewed keys and values of the first
/// `n` members.
pub proof fn lemma_jview_pairs(pairs: Seq<(String, JsonValue)>, n: int)
    requires
        0 <= n <= pairs.len(),
    ensures
        jview_pairs(pairs, n).len() == n,
        forall|k: int| 0 <= k < n ==> jview_pairs(pairs, n)[k]
            == (pairs[k].0@, jview(pairs[k].1)),
    decreases n,
{
    if n > 0 {
        lemma_jview_pairs(pairs, n - 1);
    }
}

fn digit_of(d: u64) -> (c: char)
    requires
        d < 10,
    ensures
        c == digit_char(d as int),
{
    if d == 0 { '0' }
    else if d == 1 { '1' }
    else if d == 2 { '2' }
    else if d == 3 { '3' }
    else if d == 4 { '4' }
    else if d == 5 { '5' }
    else if d == 6 { '6' }
    else if d == 7 { '7' }
    else if d == 8 { '8' }
    else { '9' }
}

fn hex_of(d: u32) -> (c: char)
    requires
        d < 16,
    ensures
        c == hex_char(d as int),
{
    if d < 10 { digit_of(d as u64) }
    else if d == 10 { 'a' }
    else if d == 11 { 'b' }
    else if d == 12 { 'c' }
    else if d == 13 { 'd' }
    else if d == 14 { 'e' }
    else { 'f' }
}

fn push_u64_dec(n: u64, out: &mut String)
    ensures
        final(out)@ == old(out)@ + dec_digits(n as nat),
    decreases n,
{
    if n >= 10 {
        push_u64_dec(n / 10, out);
    }
    out.push(digit_of(n % 10));
    proof {
        assert(out@ =~= old(out)@ + dec_digits(n as nat));
    }
}

fn push_int_dec(i: i64, out: &mut String)
    ensures
        final(out)@ == old(out)@ + int_text(i as int),
{
    if i < 0 {
        out.push('-');
        let wide: i128 = -(i as i128);
        let m: u64 = wide as u64;
        assert(m as nat == (-(i as int)) as nat);
        push_u64_dec(m, out);
        assert(out@ =~= old(out)@ + int_text(i as int));
    } else {
        push_u64_dec(i as u64, out);
    }
}

fn push_escaped_char(c: char, out: &mut String)
    ensures
        final(out)@ == old(out)@ + escape_char(c),
{
    if c == '"' {
        out.push('\\');
        out.push('"');
        assert(out@ =~= old(out)@ + escape_char(c));
    } else if c == '\\' {
        out.push('\\');
        out.push('\\');
        assert(out@ =~= old(out)@ + escape_char(c));
    } else if c == '\u{8}' {
        out.push('\\');
        out.push('b');
        assert(out@ =~= old(out)@ + escape_char(c));
    } else if c == '\u{9}' {
        out.push('\\');
        out.push('t');
        assert(out@ =~= old(out)@ + escape_char(c));
    } else if c == '\u{a}' {
        out.push('\\');
        out.push('n');
        assert(out@ =~= old(out)@ + escape_char(c));
    } else if c == '\u{c}' {
        out.push('\\');
        out.push('f');
        assert(out@ =~= old(out)@ + escape_char(c));
    } else if c == '\u{d}' {
        out.push('\\');
        out.push('r');
        assert(out@ =~= old(out)@ + escape_char(c));
    } else if (c as u32) < 0x20 {
        let x: u32 = c as u32;
        out.push('\\');
        out.push('u');
        out.push('0');
        out.push('0');
        out.push(hex_of(x / 16));
        out.push(hex_of(x % 16));
        assert(out@ =~= old(out)@ + escape_char(c));
    } else {
        out.push(c);
        assert(out@ =~= old(out)@ + escape_char(c));
    }
}

fn push_escaped(s: &str, out: &mut String)
    ensures
        final(out)@ == old(out)@ + escape_string(s@),
{
    let n = s.unicode_len();
    let mut i: usize = 0;
    while i < n
        invariant
            i <= n,
            n as nat == s@.len(),
            out@ == old(out)@ + escape_string(s@.take(i as int)),
        decreases n - i,
    {
        let c = s.get_char(i);
        push_escaped_char(c, out);
        proof {
            assert(s@.take(i + 1).drop_last() =~= s@.take(i as int));
            assert(s@.take(i + 1).last() == s@[i as int]);
        }
        i = i + 1;
    }
    proof {
        assert(s@.take(n as int) =~= s@);
    }
}

fn push_quoted(s: &str, out: &mut String)
    ensures
        final(out)@ == old(out)@ + seq!['"'] + escape_string(s@) + seq!['"'],
{
    out.push('"');
    push_escaped(s, out);
    out.push('"');
    assert(out@ =~= old(out)@ + seq!['"'] + escape_string(s@) + seq!['"']);
}

/// Appends the serialized text of `v` to `out`.
pub fn write_value(v: &JsonValue, out: &mut String)
    ensures
        final(out)@ == old(out)@ + render(v@),
    decreases *v,
{
    match v {
        JsonValue::Null => {
            out.append("null");
        }
        JsonValue::Bool(b) => {
            if *b {
                out.append("true");
            } else {
                out.append("false");
            }
        }
        JsonValue::Int(i) => {
            push_int_dec(*i, out);
        }
        JsonValue::Num(t) => {
            out.append(t.as_str());
        }
        JsonValue::Str(s) => {
            push_quoted(s.as_str(), out);
        }
        JsonValue::Arr(items) => {
            let ghost viewed = jview_items(items@, items@.len() as int);
            proof {
                lemma_jview_items(items@, items@.len() as int);
            }
            out.push('[');
            let n = items.len();
            let mut j: usize = 0;
            while j < n
                invariant
                    *v is Arr,
                    v->Arr_0@ == items@,
                    j <= n,
                    n == items@.len(),
                    viewed == jview_items(items@, items@.len() as int),
                    viewed.len() == n,
                    forall|k: int| 0 <= k < n ==> viewed[k] == jview(items@[k]),
                    out@ == old(out)@ + seq!['['] + render_items(viewed, j as int),
                decreases n - j,
            {
                if j > 0 {
                    out.push(',');
                }
                proof {
                    assert(*v is Arr);
                    assert(decreases_to!(*v => v->Arr_0));
                    assert(decreases_to!(v->Arr_0 => v->Arr_0@));
                    assert(decreases_to!(v->Arr_0@ => v->Arr_0@[j as int]));
                    assert(v->Arr_0@[j as int] == items@[j as int]);
                }
                write_value(&items[j], out);
                assert(out@ =~= old(out)@ + seq!['['] + render_items(viewed, j + 1));
                j = j + 1;
            }
            out.push(']');
            assert(out@ =~= old(out)@ + render(v@));
        }
        JsonValue::Obj(pairs) => {
            let ghost viewed = jview_pairs(pairs@, pairs@.len() as int);
            proof {
                lemma_jview_pairs(pairs@, pairs@.len() as int);
            }
            out.push('{');
            let n = pairs.len();
            let mut j: usize = 0;
            while j < n
                invariant
                    *v is Obj,
                    v->Obj_0@ == pairs@,
                    j <= n,
                    n == pairs@.len(),
                    viewed == jview_pairs(pairs@, pairs@.len() as int),
                    viewed.len() == n,
                    forall|k: int| 0 <= k < n ==> viewed[k]
                        == (pairs@[k].0@, jview(pairs@[k].1)),
                    out@ == old(out)@ + seq!['{'] + render_pairs(viewed, j as int),
                decreases n - j,
            {
                if j > 0 {
                    out.push(',');
                }
                push_quoted(pairs[j].0.as_str(), out);
                out.push(':');
                proof {
                    assert(*v is Obj);
                    assert(decreases_to!(*v => v->Obj_0));
                    assert(decreases_to!(v->Obj_0 => v->Obj_0@));
                    assert(decreases_to!(v->Obj_0@ => v->Obj_0@[j as int]));
                    assert(decreases_to!(v->Obj_0@[j as int] => v->Obj_0@[j as int].1));
                    assert(v->Obj_0@[j as int].1 == pairs@[j as int].1);
                }
                write_value(&pairs[j].1, out);
                assert(out@ =~= old(out)@ + seq!['{'] + render_pairs(viewed, j + 1));
                j = j + 1;
            }
            out.push('}');
            assert(out@ =~= old(out)@ + render(v@));
        }
    }
}

/// Serializes `v` to its compact JSON text.
pub fn json_to_string(v: &JsonValue) -> (s: String)
    ensures
        s@ == render(v@),
{
    let mut out = String::new();
    write_value(v, &mut out);
    out
}

} // verus!

