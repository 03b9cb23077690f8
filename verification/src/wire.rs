//! Between JSON trees and JSON text.
//!
//! Printing a `Json` tree to text is verified here, down to escaping and
//! decimal digits. Parsing text into a tree goes through serde_json behind
//! two trusted wrappers; what a given string parses to is named by
//! `parsed_json_of`.

use vstd::prelude::*;
use vstd::string::StrSliceExecFns;

use crate::json::Json;
use crate::json::JsonVal;

verus! {

// ----------------------------------------------------------------------
// Decimal digits.
// ----------------------------------------------------------------------

/// The character of one decimal digit.
pub open spec fn digit_char(d: int) -> char {
    if d == 0 {
        '0'
    } else if d == 1 {
        '1'
    } else if d == 2 {
        '2'
    } else if d == 3 {
        '3'
    } else if d == 4 {
        '4'
    } else if d == 5 {
        '5'
    } else if d == 6 {
        '6'
    } else if d == 7 {
        '7'
    } else if d == 8 {
        '8'
    } else {
        '9'
    }
}

/// The decimal representation of a natural number, most significant first.
pub open spec fn dec_rep(n: nat) -> Seq<char>
    decreases n,
{
    if n < 10 {
        seq![digit_char(n as int)]
    } else {
        dec_rep(n / 10) + seq![digit_char((n % 10) as int)]
    }
}

fn digit_exec(d: u64) -> (c: char)
    requires
        d < 10,
    ensures
        c == digit_char(d as int),
{
    match d {
        0 => '0',
        1 => '1',
        2 => '2',
        3 => '3',
        4 => '4',
        5 => '5',
        6 => '6',
        7 => '7',
        8 => '8',
        _ => '9',
    }
}

/// Appends the decimal digits of `n`.
pub fn push_dec(out: &mut Vec<char>, n: u64)
    ensures
        final(out)@ == old(out)@ + dec_rep(n as nat),
{
    let ghost start = out@;
    let mut digits: Vec<char> = Vec::new();
    let mut m = n;
    while m >= 10
        invariant
            dec_rep(n as nat) =~= dec_rep(m as nat) + digits@,
        decreases m,
    {
        let ghost before = digits@;
        let d = digit_exec(m % 10);
        digits.insert(0, d);
        proof {
            assert(digits@ =~= seq![digit_char((m % 10) as int)] + before);
            assert(dec_rep(m as nat) =~= dec_rep((m / 10) as nat) + seq![
                digit_char((m % 10) as int),
            ]);
            assert(dec_rep((m / 10) as nat) + digits@ =~= dec_rep(m as nat) + before);
            assert(m / 10 < m) by (nonlinear_arith)
                requires
                    m >= 10,
            ;
        }
        m = m / 10;
    }
    let ghost before_last = digits@;
    let d = digit_exec(m);
    digits.insert(0, d);
    proof {
        assert(digits@ =~= seq![digit_char(m as int)] + before_last);
        assert(dec_rep(m as nat) =~= seq![digit_char(m as int)]);
        assert(dec_rep(n as nat) =~= digits@);
    }
    let k = digits.len();
    let mut i: usize = 0;
    while i < k
        invariant
            k == digits@.len(),
            0 <= i <= k,
            out@ =~= start + digits@.subrange(0, i as int),
        decreases k - i,
    {
        out.push(digits[i]);
        proof {
            assert(start + digits@.subrange(0, i as int) + seq![digits@[i as int]] =~= start
                + digits@.subrange(0, i + 1));
        }
        i = i + 1;
    }
    proof {
        assert(digits@.subrange(0, k as int) =~= digits@);
    }
}

// ----------------------------------------------------------------------
// String escaping.
// ----------------------------------------------------------------------

/// The character of one hexadecimal digit.
pub open spec fn hex_char(d: int) -> char {
    if d < 10 {
        digit_char(d)
    } else if d == 10 {
        'a'
    } else if d == 11 {
        'b'
    } else if d == 12 {
        'c'
    } else if d == 13 {
        'd'
    } else if d == 14 {
        'e'
    } else {
        'f'
    }
}

/// How one character is written inside a JSON string literal.
pub open spec fn esc_char(c: char) -> Seq<char> {
    if c == '"' {
        seq!['\\', '"']
    } else if c == '\\' {
        seq!['\\', '\\']
    } else if c == '\n' {
        seq!['\\', 'n']
    } else if c == '\r' {
        seq!['\\', 'r']
    } else if c == '\t' {
        seq!['\\', 't']
    } else if (c as u32) < 32 {
        seq!['\\', 'u', '0', '0', hex_char((c as u32) as int / 16), hex_char((c as u32) as int % 16)]
    } else {
        seq![c]
    }
}

/// The escaped form of the characters `i..` of a string.
pub open spec fn escaped_from(s: Seq<char>, i: int) -> Seq<char>
    decreases s.len() - i,
{
    if i < 0 || i >= s.len() {
        Seq::empty()
    } else {
        esc_char(s[i]) + escaped_from(s, i + 1)
    }
}

/// The escaped form of a whole string.
pub open spec fn escaped(s: Seq<char>) -> Seq<char> {
    escaped_from(s, 0)
}

fn hex_exec(d: u32) -> (c: char)
    requires
        d < 16,
    ensures
        c == hex_char(d as int),
{
    match d {
        0 => '0',
        1 => '1',
        2 => '2',
        3 => '3',
        4 => '4',
        5 => '5',
        6 => '6',
        7 => '7',
        8 => '8',
        9 => '9',
        10 => 'a',
        11 => 'b',
        12 => 'c',
        13 => 'd',
        14 => 'e',
        _ => 'f',
    }
}

/// Appends the JSON-escaped form of `s`.
pub fn push_escaped(out: &mut Vec<char>, s: &str)
    ensures
        final(out)@ == old(out)@ + escaped(s@),
{
    let ghost start = out@;
    let n = s.unicode_len();
    let mut i: usize = 0;
    while i < n
        invariant
            n == s@.len(),
            0 <= i <= n,
            out@.len() >= start.len(),
            out@.subrange(0, start.len() as int) == start,
            escaped(s@) =~= out@.skip(start.len() as int) + escaped_from(s@, i as int),
        decreases n - i,
    {
        let ghost before = out@;
        let c = s.get_char(i);
        if c == '"' {
            out.push('\\');
            out.push('"');
        } else if c == '\\' {
            out.push('\\');
            out.push('\\');
        } else if c == '\n' {
            out.push('\\');
            out.push('n');
        } else if c == '\r' {
            out.push('\\');
            out.push('r');
        } else if c == '\t' {
            out.push('\\');
            out.push('t');
        } else if (c as u32) < 32 {
            out.push('\\');
            out.push('u');
            out.push('0');
            out.push('0');
            out.push(hex_exec((c as u32) / 16));
            out.push(hex_exec((c as u32) % 16));
        } else {
            out.push(c);
        }
        proof {
            assert(out@ =~= before + esc_char(s@[i as int]));
            assert(out@.skip(start.len() as int) =~= before.skip(start.len() as int) + esc_char(
                s@[i as int],
            ));
            assert(escaped(s@) =~= out@.skip(start.len() as int) + escaped_from(s@, i + 1));
        }
        i = i + 1;
    }
    proof {
        assert(out@ =~= start + out@.skip(start.len() as int));
    }
}

} // verus!

verus! {

// ----------------------------------------------------------------------
// Printing a JSON tree.
// ----------------------------------------------------------------------

/// One object member: quoted escaped key, colon, value.
pub open spec fn member_text(k: Seq<char>, v: JsonVal) -> Seq<char>
    decreases v, 1int, 0int,
{
    seq!['"'] + escaped(k) + seq!['"', ':'] + jv_text_of(v)
}

/// The comma-led tail of an array body, items `i..`.
pub open spec fn arr_tail_from(items: Seq<JsonVal>, i: int) -> Seq<char>
    decreases items, 2int, items.len() - i,
{
    if i < 0 || i >= items.len() {
        Seq::empty()
    } else {
        seq![','] + jv_text_of(items[i]) + arr_tail_from(items, i + 1)
    }
}

/// The comma-led tail of an object body, members `i..`.
pub open spec fn obj_tail_from(fields: Seq<(Seq<char>, JsonVal)>, i: int) -> Seq<char>
    decreases fields, 2int, fields.len() - i,
{
    if i < 0 || i >= fields.len() {
        Seq::empty()
    } else {
        seq![','] + member_text(fields[i].0, fields[i].1) + obj_tail_from(fields, i + 1)
    }
}

/// The canonical text of a JSON value.
pub open spec fn jv_text_of(j: JsonVal) -> Seq<char>
    decreases j, 0int, 0int,
{
    match j {
        JsonVal::Null => "null"@,
        JsonVal::Bool(b) => if b {
            "true"@
        } else {
            "false"@
        },
        JsonVal::UInt(n) => dec_rep(n as nat),
        JsonVal::NumOther(s) => s,
        JsonVal::Text(s) => seq!['"'] + escaped(s) + seq!['"'],
        JsonVal::Arr(items) => seq!['['] + (if items.len() == 0 {
            Seq::empty()
        } else {
            jv_text_of(items[0]) + arr_tail_from(items, 1)
        }) + seq![']'],
        JsonVal::Obj(fields) => seq!['{'] + (if fields.len() == 0 {
            Seq::empty()
        } else {
            member_text(fields[0].0, fields[0].1) + obj_tail_from(fields, 1)
        }) + seq!['}'],
    }
}

/// Appends the characters of `s`.
pub fn push_chars(out: &mut Vec<char>, s: &str)
    ensures
        final(out)@ == old(out)@ + s@,
{
    let ghost start = out@;
    let n = s.unicode_len();
    let mut i: usize = 0;
    while i < n
        invariant
            n == s@.len(),
            0 <= i <= n,
            out@ =~= start + s@.subrange(0, i as int),
        decreases n - i,
    {
        out.push(s.get_char(i));
        proof {
            assert(out@ =~= start + s@.subrange(0, i + 1));
        }
        i = i + 1;
    }
    proof {
        assert(s@.subrange(0, n as int) =~= s@);
    }
}

/// The characters of `s`, as a vector.
pub fn str_chars(s: &str) -> (r: Vec<char>)
    ensures
        r@ == s@,
{
    let mut out: Vec<char> = Vec::new();
    push_chars(&mut out, s);
    out
}

/// Relies on `core::iter::Iterator::collect` for `String`: the collected
/// string holds exactly the characters of `v`, in order.
#[verifier::external_body]
pub fn string_from_chars(v: &Vec<char>) -> (r: String)
    ensures
        r@ == v@,
{
    v.iter().collect()
}

/// The substring `lo..hi` of a character vector, as a `String`.
pub fn window_string(cs: &Vec<char>, lo: usize, hi: usize) -> (r: String)
    requires
        lo <= hi <= cs@.len(),
    ensures
        r@ == cs@.subrange(lo as int, hi as int),
{
    let mut out: Vec<char> = Vec::new();
    let mut i = lo;
    while i < hi
        invariant
            lo <= i <= hi <= cs@.len(),
            out@ =~= cs@.subrange(lo as int, i as int),
        decreases hi - i,
    {
        out.push(cs[i]);
        proof {
            assert(out@ =~= cs@.subrange(lo as int, i + 1));
        }
        i = i + 1;
    }
    string_from_chars(&out)
}

/// Appends the canonical text of `j`.
#[verifier::loop_isolation(false)]
#[verifier::rlimit(60)]
pub fn write_json(out: &mut Vec<char>, j: &Json)
    ensures
        final(out)@ == old(out)@ + jv_text_of(j@),
    decreases *j,
{
    let ghost start = out@;
    match j {
        Json::Null => {
            push_chars(out, "null");
        },
        Json::Bool(b) => {
            if *b {
                push_chars(out, "true");
            } else {
                push_chars(out, "false");
            }
        },
        Json::UInt(n) => {
            push_dec(out, *n);
        },
        Json::NumOther(s) => {
            push_chars(out, s.as_str());
        },
        Json::Text(s) => {
            out.push('"');
            push_escaped(out, s.as_str());
            out.push('"');
            proof {
                assert(out@ =~= start + jv_text_of(j@));
            }
        },
        Json::Arr(items) => {
            let ghost iv = crate::json::arr_view(items@);
            out.push('[');
            let n = items.len();
            let mut i: usize = 0;
            while i < n
                invariant
                    n == items@.len(),
                    iv == crate::json::arr_view(items@),
                    iv.len() == n,
                    0 <= i <= n,
                    i == 0 ==> out@ =~= start + seq!['['],
                    i > 0 ==> {
                        &&& out@.len() >= start.len() as int + 1
                        &&& out@.subrange(0, start.len() as int + 1) =~= start + seq!['[']
                        &&& jv_text_of(iv[0]) + arr_tail_from(iv, 1) =~= out@.skip(
                            start.len() as int + 1,
                        ) + arr_tail_from(iv, i as int)
                    },
                decreases n - i,
            {
                let ghost before = out@;
                proof {
                    assert(iv[i as int] == items@[i as int]@);
                    assert(decreases_to!(*j => (*j)->Arr_0));
                    assert(*items == (*j)->Arr_0);
                    assert(decreases_to!(*items => items@));
                    assert(decreases_to!(items@ => items@[i as int]));
                }
                if i > 0 {
                    out.push(',');
                }
                write_json(out, &items[i]);
                proof {
                    assert(out@.subrange(0, start.len() as int + 1) =~= start + seq!['[']);
                    if i == 0 {
                        assert(out@ =~= before + jv_text_of(iv[0]));
                        assert(out@.skip(start.len() as int + 1) =~= jv_text_of(iv[0]));
                    } else {
                        assert(out@ =~= before + (seq![','] + jv_text_of(iv[i as int])));
                        assert(out@.skip(start.len() as int + 1) =~= before.skip(start.len() as int + 1) + (
                        seq![','] + jv_text_of(iv[i as int])));
                        assert(arr_tail_from(iv, i as int) =~= seq![','] + jv_text_of(iv[i as int])
                            + arr_tail_from(iv, i + 1));
                    }
                }
                i = i + 1;
            }
            let ghost mid = out@;
            out.push(']');
            proof {
                assert(j@ == JsonVal::Arr(iv));
                if n == 0 {
                    assert(out@ =~= start + jv_text_of(j@));
                } else {
                    assert(arr_tail_from(iv, n as int) =~= Seq::empty());
                    assert(mid.skip(start.len() as int + 1) =~= jv_text_of(iv[0]) + arr_tail_from(
                        iv,
                        1,
                    ));
                    assert(mid =~= mid.subrange(0, start.len() as int + 1) + mid.skip(
                        start.len() as int + 1,
                    ));
                    assert(out@ =~= mid + seq![']']);
                    assert(out@ =~= start + jv_text_of(j@));
                }
            }
        },
        Json::Obj(fields) => {
            let ghost fv = crate::json::fields_view(fields@);
            out.push('{');
            let n = fields.len();
            let mut i: usize = 0;
            while i < n
                invariant
                    n == fields@.len(),
                    fv == crate::json::fields_view(fields@),
                    fv.len() == n,
                    0 <= i <= n,
                    i == 0 ==> out@ =~= start + seq!['{'],
                    i > 0 ==> {
                        &&& out@.len() >= start.len() as int + 1
                        &&& out@.subrange(0, start.len() as int + 1) =~= start + seq!['{']
                        &&& member_text(fv[0].0, fv[0].1) + obj_tail_from(fv, 1) =~= out@.skip(
                            start.len() as int + 1,
                        ) + obj_tail_from(fv, i as int)
                    },
                decreases n - i,
            {
                let ghost before = out@;
                proof {
                    assert(fv[i as int] == (fields@[i as int].0@, fields@[i as int].1@));
                    assert(decreases_to!(*j => (*j)->Obj_0));
                    assert(*fields == (*j)->Obj_0);
                    assert(decreases_to!(*fields => fields@));
                    assert(decreases_to!(fields@ => fields@[i as int]));
                    assert(decreases_to!(fields@[i as int] => fields@[i as int].1));
                }
                if i > 0 {
                    out.push(',');
                }
                out.push('"');
                push_escaped(out, fields[i].0.as_str());
                out.push('"');
                out.push(':');
                write_json(out, &fields[i].1);
                proof {
                    assert(out@.subrange(0, start.len() as int + 1) =~= start + seq!['{']);
                    if i == 0 {
                        assert(out@ =~= before + member_text(fv[0].0, fv[0].1));
                        assert(out@.skip(start.len() as int + 1) =~= member_text(fv[0].0, fv[0].1));
                    } else {
                        assert(out@ =~= before + (seq![','] + member_text(
                            fv[i as int].0,
                            fv[i as int].1,
                        )));
                        assert(out@.skip(start.len() as int + 1) =~= before.skip(start.len() as int + 1) + (
                        seq![','] + member_text(fv[i as int].0, fv[i as int].1)));
                        assert(obj_tail_from(fv, i as int) =~= seq![','] + member_text(
                            fv[i as int].0,
                            fv[i as int].1,
                        ) + obj_tail_from(fv, i + 1));
                    }
                }
                i = i + 1;
            }
            let ghost mid = out@;
            out.push('}');
            proof {
                assert(j@ == JsonVal::Obj(fv));
                if n == 0 {
                    assert(out@ =~= start + jv_text_of(j@));
                } else {
                    assert(obj_tail_from(fv, n as int) =~= Seq::empty());
                    assert(mid.skip(start.len() as int + 1) =~= member_text(fv[0].0, fv[0].1)
                        + obj_tail_from(fv, 1));
                    assert(mid =~= mid.subrange(0, start.len() as int + 1) + mid.skip(
                        start.len() as int + 1,
                    ));
                    assert(out@ =~= mid + seq!['}']);
                    assert(out@ =~= start + jv_text_of(j@));
                }
            }
        },
    }
}

/// The canonical text of a JSON tree.
pub fn json_to_text(j: &Json) -> (r: String)
    ensures
        r@ == jv_text_of(j@),
{
    let mut out: Vec<char> = Vec::new();
    write_json(&mut out, j);
    string_from_chars(&out)
}

// ----------------------------------------------------------------------
// Parsing JSON text, through serde_json.
// ----------------------------------------------------------------------

#[verifier::external_type_specification]
#[verifier::external_body]
pub struct ExValue(serde_json::Value);

/// The JSON value that a string denotes, if it is well-formed JSON.
pub uninterp spec fn parsed_json_of(s: Seq<char>) -> Option<JsonVal>;

/// The `JsonVal` that a `serde_json::Value` stands for.
pub uninterp spec fn value_model(v: serde_json::Value) -> JsonVal;

/// Relies on `serde_json::from_str::<serde_json::Value>`: whether a string is
/// well-formed JSON, and which value it denotes, depend on the string alone.
#[verifier::external_body]
fn parse_value(s: &str) -> (r: Option<serde_json::Value>)
    ensures
        r is Some <==> parsed_json_of(s@) is Some,
        r matches Some(v) ==> value_model(v) == parsed_json_of(s@)->0,
{
    serde_json::from_str(s).ok()
}

/// Relies on `serde_json::Value`: its variants map one for one onto `Json`.
/// A number is an unsigned integer exactly when `Number::as_u64` accepts it;
/// any other number keeps its decimal text, via `Number`'s display form.
#[verifier::external_body]
fn json_of_value(v: serde_json::Value) -> (r: Json)
    ensures
        r@ == value_model(v),
{
    match v {
        serde_json::Value::Null => Json::Null,
        serde_json::Value::Bool(b) => Json::Bool(b),
        serde_json::Value::Number(n) => match n.as_u64() {
            Some(u) => Json::UInt(u),
            None => Json::NumOther(n.to_string()),
        },
        serde_json::Value::String(s) => Json::Text(s),
        serde_json::Value::Array(items) => Json::Arr(
            items.into_iter().map(json_of_value).collect(),
        ),
        serde_json::Value::Object(fields) => Json::Obj(
            fields.into_iter().map(|(k, w)| (k, json_of_value(w))).collect(),
        ),
    }
}

/// Parses a string as generic JSON, into the library's tree.
pub fn parse_json_text(s: &str) -> (r: Option<Json>)
    ensures
        r is Some <==> parsed_json_of(s@) is Some,
        r matches Some(j) ==> j@ == parsed_json_of(s@)->0,
{
    match parse_value(s) {
        Some(v) => Some(json_of_value(v)),
        None => None,
    }
}

} // verus!
