//! JSON text form: a printer with an exact character-level contract, and a
//! parser for the documents agents send back.

use vstd::prelude::*;
use crate::json::{JsonValue, JsonView, json_views, json_member_views};
use crate::json::{lemma_json_views_index, lemma_json_member_views_index};

verus! {

broadcast use vstd::std_specs::vec::group_vec_axioms, vstd::seq::group_seq_axioms;

/// One hexadecimal digit, lower case.
pub open spec fn spec_hex_digit(n: int) -> char {
    if n < 10 {
        ((48 + n) as u8) as char
    } else {
        ((87 + n) as u8) as char
    }
}

/// How one character appears inside a JSON string literal.
pub open spec fn spec_esc_char(c: char) -> Seq<char> {
    if c == '"' {
        seq!['\\', '"']
    } else if c == '\\' {
        seq!['\\', '\\']
    } else if (c as u32) < 32 {
        seq!['\\', 'u', '0', '0',
            spec_hex_digit((c as u32 / 16) as int),
            spec_hex_digit((c as u32 % 16) as int)]
    } else {
        seq![c]
    }
}

/// A whole string, escaped for a JSON string literal.
pub open spec fn spec_esc(s: Seq<char>) -> Seq<char>
    decreases s.len(),
{
    if s.len() == 0 {
        Seq::empty()
    } else {
        spec_esc_char(s[0]) + spec_esc(s.drop_first())
    }
}

/// Decimal digits of a non-negative integer.
pub open spec fn spec_nat_chars(n: int) -> Seq<char>
    decreases n,
{
    if n < 10 {
        seq![spec_hex_digit(n)]
    } else {
        spec_nat_chars(n / 10).push(spec_hex_digit(n % 10))
    }
}

/// Decimal text of an integer, with a leading minus sign when negative.
pub open spec fn spec_int_chars(i: int) -> Seq<char> {
    if i < 0 {
        seq!['-'] + spec_nat_chars(-i)
    } else {
        spec_nat_chars(i)
    }
}

/// The canonical text of a JSON document: no whitespace, members in order.
pub open spec fn spec_print(v: JsonView) -> Seq<char>
    decreases v,
    via spec_print_decreases
{
    match v {
        JsonView::Null => seq!['n', 'u', 'l', 'l'],
        JsonView::Bool(b) => if b {
            seq!['t', 'r', 'u', 'e']
        } else {
            seq!['f', 'a', 'l', 's', 'e']
        },
        JsonView::Int(i) => spec_int_chars(i),
        JsonView::Str(s) => seq!['"'] + spec_esc(s) + seq!['"'],
        JsonView::Arr(es) => seq!['['] + spec_print_elems(es) + seq![']'],
        JsonView::Obj(ms) => seq!['{'] + spec_print_members(ms) + seq!['}'],
    }
}

/// Array elements, comma separated.
pub open spec fn spec_print_elems(es: Seq<JsonView>) -> Seq<char>
    decreases es,
{
    if es.len() == 0 {
        Seq::empty()
    } else if es.len() == 1 {
        spec_print(es[0])
    } else {
        spec_print(es[0]) + seq![','] + spec_print_elems(es.drop_first())
    }
}

/// Object members, comma separated, each `"key":value`.
pub open spec fn spec_print_members(ms: Seq<(Seq<char>, JsonView)>) -> Seq<char>
    decreases ms,
    via spec_print_members_decreases
{
    if ms.len() == 0 {
        Seq::empty()
    } else if ms.len() == 1 {
        spec_print_member(ms[0])
    } else {
        spec_print_member(ms[0]) + seq![','] + spec_print_members(ms.drop_first())
    }
}

/// One object member: quoted escaped key, colon, value.
pub open spec fn spec_print_member(m: (Seq<char>, JsonView)) -> Seq<char>
    decreases m,
{
    seq!['"'] + spec_esc(m.0) + seq!['"', ':'] + spec_print(m.1)
}

#[via_fn]
proof fn spec_print_decreases(v: JsonView) {
    match v {
        JsonView::Arr(es) => {
            assert(decreases_to!(v => v->Arr_0));
        },
        JsonView::Obj(ms) => {
            assert(decreases_to!(v => v->Obj_0));
        },
        _ => {},
    }
}

#[via_fn]
proof fn spec_print_members_decreases(ms: Seq<(Seq<char>, JsonView)>) {
    if ms.len() > 0 {
        assert(decreases_to!(ms => ms[0]));
        assert(decreases_to!(ms[0] => ms[0].1));
    }
}

/// Appending an element to a non-empty list appends `,` and its text.
pub proof fn lemma_print_elems_push(es: Seq<JsonView>, x: JsonView)
    ensures
        spec_print_elems(es.push(x)) == if es.len() == 0 {
            spec_print(x)
        } else {
            spec_print_elems(es) + seq![','] + spec_print(x)
        },
    decreases es.len(),
{
    let p = es.push(x);
    if es.len() == 0 {
        assert(p.len() == 1);
        assert(p[0] == x);
    } else {
        assert(p.drop_first() =~= es.drop_first().push(x));
        lemma_print_elems_push(es.drop_first(), x);
        if es.len() == 1 {
            assert(spec_print_elems(es) == spec_print(es[0]));
        }
    }
}

/// Appending a member to a non-empty list appends `,` and its text.
pub proof fn lemma_print_members_push(ms: Seq<(Seq<char>, JsonView)>, m: (Seq<char>, JsonView))
    ensures
        spec_print_members(ms.push(m)) == if ms.len() == 0 {
            spec_print_member(m)
        } else {
            spec_print_members(ms) + seq![','] + spec_print_member(m)
        },
    decreases ms.len(),
{
    let p = ms.push(m);
    if ms.len() == 0 {
        assert(p.len() == 1);
        assert(p[0] == m);
    } else {
        assert(p.drop_first() =~= ms.drop_first().push(m));
        lemma_print_members_push(ms.drop_first(), m);
        if ms.len() == 1 {
            assert(spec_print_members(ms) == spec_print_member(ms[0]));
        }
    }
}

/// Escaping distributes over taking one more character.
proof fn lemma_esc_take_succ(s: Seq<char>, i: int)
    requires
        0 <= i < s.len(),
    ensures
        spec_esc(s.take(i + 1)) == spec_esc(s.take(i)) + spec_esc_char(s[i]),
    decreases i,
{
    if i == 0 {
        assert(s.take(1) =~= seq![s[0]]);
        assert(s.take(0) =~= Seq::<char>::empty());
        assert(seq![s[0]].drop_first() =~= Seq::<char>::empty());
        assert(spec_esc(seq![s[0]]) == spec_esc_char(s[0]) + spec_esc(Seq::<char>::empty()));
        assert(spec_esc_char(s[0]) + Seq::<char>::empty() =~= spec_esc_char(s[0]));
        assert(Seq::<char>::empty() + spec_esc_char(s[0]) =~= spec_esc_char(s[0]));
    } else {
        let t = s.drop_first();
        assert(s.take(i + 1).drop_first() =~= t.take(i));
        assert(s.take(i).drop_first() =~= t.take(i - 1));
        lemma_esc_take_succ(t, i - 1);
        assert(s.take(i + 1)[0] == s[0]);
        assert(s.take(i)[0] == s[0]);
        assert(spec_esc(s.take(i + 1))
            == spec_esc_char(s[0]) + (spec_esc(t.take(i - 1)) + spec_esc_char(t[i - 1])));
        assert(spec_esc_char(s[0]) + (spec_esc(t.take(i - 1)) + spec_esc_char(t[i - 1]))
            =~= (spec_esc_char(s[0]) + spec_esc(t.take(i - 1))) + spec_esc_char(t[i - 1]));
        assert(t[i - 1] == s[i]);
    }
}

/// Relies on std's `String::push`: appends exactly the one character.
#[verifier::external_body]
pub fn push_char(out: &mut String, c: char)
    ensures
        final(out)@ == old(out)@.push(c),
{
    out.push(c);
}

fn write_hex_digit(out: &mut String, n: u8)
    requires
        n < 16,
    ensures
        final(out)@ == old(out)@.push(spec_hex_digit(n as int)),
{
    if n < 10 {
        push_char(out, (48 + n) as char);
    } else {
        push_char(out, (87 + n) as char);
    }
}

/// Write one string's characters in escaped form.
#[verifier::loop_isolation(false)]
fn write_escaped(out: &mut String, s: &str)
    ensures
        final(out)@ == old(out)@ + spec_esc(s@),
{
    let n = s.unicode_len();
    let mut i: usize = 0;
    while i < n
        invariant
            n == s@.len(),
            i <= n,
            out@ == old(out)@ + spec_esc(s@.take(i as int)),
        decreases n - i,
    {
        let c = s.get_char(i);
        let code = c as u32;
        if c == '"' {
            push_char(out, '\\');
            push_char(out, '"');
        } else if c == '\\' {
            push_char(out, '\\');
            push_char(out, '\\');
        } else if code < 32 {
            push_char(out, '\\');
            push_char(out, 'u');
            push_char(out, '0');
            push_char(out, '0');
            write_hex_digit(out, (code / 16) as u8);
            write_hex_digit(out, (code % 16) as u8);
        } else {
            push_char(out, c);
        }
        proof {
            lemma_esc_take_succ(s@, i as int);
            assert(out@ =~= old(out)@ + spec_esc(s@.take(i + 1)));
        }
        i += 1;
    }
    proof {
        assert(s@.take(n as int) =~= s@);
    }
}

/// Write a non-negative integer in decimal.
#[verifier::loop_isolation(false)]
fn write_nat(out: &mut String, n: u64)
    ensures
        final(out)@ == old(out)@ + spec_nat_chars(n as int),
{
    let mut digits: Vec<char> = Vec::new();
    let mut m: u64 = n;
    while m >= 10
        invariant
            spec_nat_chars(n as int) == spec_nat_chars(m as int) + digits@,
        decreases m,
    {
        let d = (m % 10) as u8;
        digits.insert(0, (48 + d) as char);
        m = m / 10;
        proof {
            assert(spec_nat_chars(m as int).push(spec_hex_digit(d as int)) + digits@.drop_first()
                =~= spec_nat_chars(m as int) + digits@);
        }
    }
    let d = (48 + m as u8) as char;
    digits.insert(0, d);
    proof {
        assert(seq![spec_hex_digit(m as int)] + digits@.drop_first() =~= digits@);
        assert(spec_nat_chars(n as int) =~= digits@);
    }
    let mut j: usize = 0;
    while j < digits.len()
        invariant
            j <= digits.len(),
            out@ == old(out)@ + digits@.take(j as int),
        decreases digits.len() - j,
    {
        push_char(out, digits[j]);
        proof {
            assert(out@ =~= old(out)@ + digits@.take(j + 1));
        }
        j += 1;
    }
    proof {
        assert(digits@.take(digits@.len() as int) =~= digits@);
    }
}

/// Write an integer in decimal, minus sign first when negative.
fn write_int(out: &mut String, i: i64)
    ensures
        final(out)@ == old(out)@ + spec_int_chars(i as int),
{
    if i >= 0 {
        write_nat(out, i as u64);
    } else {
        push_char(out, '-');
        let m: u64 = if i == i64::MIN {
            9223372036854775808u64
        } else {
            (-i) as u64
        };
        assert(m as int == -(i as int));
        write_nat(out, m);
        proof {
            assert(old(out)@.push('-') + spec_nat_chars(m as int)
                =~= old(out)@ + spec_int_chars(i as int));
        }
    }
}


/// The decimal text of an integer.
pub fn int_to_string(i: i64) -> (r: String)
    ensures
        r@ == spec_int_chars(i as int),
{
    let mut out = String::new();
    write_int(&mut out, i);
    proof {
        assert(out@ =~= spec_int_chars(i as int));
    }
    out
}

/// Write a document in its canonical text.
#[verifier::rlimit(60)]
#[verifier::loop_isolation(false)]
fn write_json(out: &mut String, v: &JsonValue)
    ensures
        final(out)@ == old(out)@ + spec_print(v@),
    decreases *v,
{
    match v {
        JsonValue::Null => {
            push_char(out, 'n');
            push_char(out, 'u');
            push_char(out, 'l');
            push_char(out, 'l');
            assert(out@ =~= old(out)@ + spec_print(v@));
        },
        JsonValue::Bool(b) => {
            if *b {
                push_char(out, 't');
                push_char(out, 'r');
                push_char(out, 'u');
                push_char(out, 'e');
            } else {
                push_char(out, 'f');
                push_char(out, 'a');
                push_char(out, 'l');
                push_char(out, 's');
                push_char(out, 'e');
            }
            assert(out@ =~= old(out)@ + spec_print(v@));
        },
        JsonValue::Int(i) => {
            write_int(out, *i);
        },
        JsonValue::Str(s) => {
            push_char(out, '"');
            write_escaped(out, s.as_str());
            push_char(out, '"');
            assert(out@ =~= old(out)@ + spec_print(v@));
        },
        JsonValue::Arr(elems) => {
            proof {
                lemma_json_views_index(elems@);
            }
            let ghost ges = v@->Arr_0;
            push_char(out, '[');
            let mut k: usize = 0;
            while k < elems.len()
                invariant
                    k <= elems.len(),
                    out@ == old(out)@.push('[') + spec_print_elems(ges.take(k as int)),
                decreases elems.len() - k,
            {
                proof {
                    assert(decreases_to!(*v => (*v)->Arr_0));
                    assert(decreases_to!((*v)->Arr_0 => elems@));
                    assert(decreases_to!(elems@ => elems@[k as int]));
                }
                if k > 0 {
                    push_char(out, ',');
                }
                write_json(out, &elems[k]);
                proof {
                    assert(ges.take(k + 1) =~= ges.take(k as int).push(ges[k as int]));
                    lemma_print_elems_push(ges.take(k as int), ges[k as int]);
                    assert(out@ =~= old(out)@.push('[') + spec_print_elems(ges.take(k + 1)));
                }
                k += 1;
            }
            push_char(out, ']');
            proof {
                assert(ges.take(ges.len() as int) =~= ges);
                assert(out@ =~= old(out)@ + spec_print(v@));
            }
        },
        JsonValue::Obj(members) => {
            proof {
                lemma_json_member_views_index(members@);
            }
            let ghost gms = v@->Obj_0;
            push_char(out, '{');
            let mut k: usize = 0;
            while k < members.len()
                invariant
                    k <= members.len(),
                    out@ == old(out)@.push('{') + spec_print_members(gms.take(k as int)),
                decreases members.len() - k,
            {
                proof {
                    assert(decreases_to!(*v => (*v)->Obj_0));
                    assert(decreases_to!((*v)->Obj_0 => members@));
                    assert(decreases_to!(members@ => members@[k as int]));
                    assert(decreases_to!(members@[k as int] => members@[k as int].1));
                }
                if k > 0 {
                    push_char(out, ',');
                }
                push_char(out, '"');
                write_escaped(out, members[k].0.as_str());
                push_char(out, '"');
                push_char(out, ':');
                write_json(out, &members[k].1);
                proof {
                    assert(gms.take(k + 1) =~= gms.take(k as int).push(gms[k as int]));
                    lemma_print_members_push(gms.take(k as int), gms[k as int]);
                    assert(out@ =~= old(out)@.push('{')
                        + spec_print_members(gms.take(k + 1)));
                }
                k += 1;
            }
            push_char(out, '}');
            proof {
                assert(gms.take(gms.len() as int) =~= gms);
                assert(out@ =~= old(out)@ + spec_print(v@));
            }
        },
    }
}

/// The canonical text of a JSON document.
pub fn print_json(v: &JsonValue) -> (r: String)
    ensures
        r@ == spec_print(v@),
{
    let mut out = String::new();
    write_json(&mut out, v);
    proof {
        assert(out@ =~= spec_print(v@));
    }
    out
}


/// Relies on std's `char::from_u32`: `Some` exactly on valid scalar values,
/// and the returned character is the one `char_of_scalar` names for the
/// code.
pub assume_specification[ char::from_u32 ](n: u32) -> (r: Option<char>)
    ensures
        r is Some <==> (n < 0xD800 || (0xE000 <= n && n <= 0x10FFFF)),
        r matches Some(c) ==> c as u32 == n,
        r matches Some(c) ==> c == char_of_scalar(n as int),
;

/// The character with a given scalar value. Named rather than defined:
/// construction of characters from codes is std's `char::from_u32`, whose
/// result depends on its argument alone.
pub uninterp spec fn char_of_scalar(n: int) -> char;

/// The characters of a string slice, as a vector.
#[verifier::loop_isolation(false)]
pub fn str_to_chars(s: &str) -> (v: Vec<char>)
    ensures
        v@ == s@,
{
    let n = s.unicode_len();
    let mut v: Vec<char> = Vec::new();
    let mut i: usize = 0;
    while i < n
        invariant
            n == s@.len(),
            i <= n,
            v@ == s@.take(i as int),
        decreases n - i,
    {
        v.push(s.get_char(i));
        proof {
            assert(v@ =~= s@.take(i + 1));
        }
        i += 1;
    }
    proof {
        assert(s@.take(n as int) =~= s@);
    }
    v
}

/// JSON whitespace.
pub open spec fn spec_is_ws(c: char) -> bool {
    c == ' ' || c == '\t' || c == '\n' || c == '\r'
}

fn is_ws(c: char) -> (r: bool)
    ensures
        r == spec_is_ws(c),
{
    c == ' ' || c == '\t' || c == '\n' || c == '\r'
}

/// The first position at or after `i` holding no whitespace.
pub open spec fn spec_skip_ws(s: Seq<char>, i: int) -> int
    decreases s.len() - i,
{
    if 0 <= i < s.len() && spec_is_ws(s[i]) {
        spec_skip_ws(s, i + 1)
    } else {
        i
    }
}

/// Skipping whitespace never moves backwards nor past the end.
pub proof fn lemma_skip_ws_bounds(s: Seq<char>, i: int)
    requires
        0 <= i <= s.len(),
    ensures
        i <= spec_skip_ws(s, i) <= s.len(),
    decreases s.len() - i,
{
    if i < s.len() && spec_is_ws(s[i]) {
        lemma_skip_ws_bounds(s, i + 1);
    }
}

#[verifier::loop_isolation(false)]
fn skip_ws(s: &Vec<char>, i: usize) -> (r: usize)
    requires
        i <= s@.len(),
    ensures
        i <= r <= s@.len(),
        r as int == spec_skip_ws(s@, i as int),
    decreases s@.len() - i,
{
    let mut j = i;
    while j < s.len() && is_ws(s[j])
        invariant
            i <= j <= s@.len(),
            spec_skip_ws(s@, j as int) == spec_skip_ws(s@, i as int),
        decreases s@.len() - j,
    {
        j += 1;
    }
    j
}

/// The numeric value of one hexadecimal digit; `None` for other characters.
pub open spec fn spec_hex_val(c: char) -> Option<int> {
    let u = c as u32;
    if 48 <= u <= 57 {
        Some((u - 48) as int)
    } else if 97 <= u <= 102 {
        Some((u - 87) as int)
    } else if 65 <= u <= 70 {
        Some((u - 55) as int)
    } else {
        None
    }
}

fn hex_val(c: char) -> (r: Option<u8>)
    ensures
        (match r {
            Some(d) => d < 16 && spec_hex_val(c) == Some(d as int),
            None => spec_hex_val(c) is None,
        }),
{
    let u = c as u32;
    if 48 <= u && u <= 57 {
        Some((u - 48) as u8)
    } else if 97 <= u && u <= 102 {
        Some((u - 87) as u8)
    } else if 65 <= u && u <= 70 {
        Some((u - 55) as u8)
    } else {
        None
    }
}

/// The four hexadecimal digits at `k`, as one code; `None` when any
/// character is no hexadecimal digit.
pub open spec fn spec_hex4(s: Seq<char>, k: int) -> Option<int> {
    match (spec_hex_val(s[k]), spec_hex_val(s[k + 1]), spec_hex_val(s[k + 2]),
        spec_hex_val(s[k + 3])) {
        (Some(a), Some(b), Some(c), Some(d)) => Some(a * 4096 + b * 256 + c * 16 + d),
        _ => None,
    }
}

/// Scan the inside of a string literal from `k`, the opening quote already
/// consumed, with `acc` the characters read so far: mirror of the
/// executable scanner. Escapes cover the JSON forms; a high surrogate must
/// be followed by an escaped low surrogate, and the pair is combined.
pub open spec fn spec_scan_string(s: Seq<char>, k: int, acc: Seq<char>) -> Option<(Seq<char>, int)>
    decreases s.len() - k,
{
    if !(0 <= k < s.len()) {
        None
    } else {
        let c = s[k];
        if c == '"' {
            Some((acc, k + 1))
        } else if c == '\\' {
            if k + 1 >= s.len() {
                None
            } else {
                let e = s[k + 1];
                if e == '"' {
                    spec_scan_string(s, k + 2, acc.push('"'))
                } else if e == '\\' {
                    spec_scan_string(s, k + 2, acc.push('\\'))
                } else if e == '/' {
                    spec_scan_string(s, k + 2, acc.push('/'))
                } else if e == 'n' {
                    spec_scan_string(s, k + 2, acc.push('\n'))
                } else if e == 't' {
                    spec_scan_string(s, k + 2, acc.push('\t'))
                } else if e == 'r' {
                    spec_scan_string(s, k + 2, acc.push('\r'))
                } else if e == 'b' {
                    spec_scan_string(s, k + 2, acc.push((8u8) as char))
                } else if e == 'f' {
                    spec_scan_string(s, k + 2, acc.push((12u8) as char))
                } else if e == 'u' {
                    if s.len() - k < 6 {
                        None
                    } else {
                        match spec_hex4(s, k + 2) {
                            Some(code) => {
                                if code < 0x80 {
                                    spec_scan_string(s, k + 6, acc.push(((code as u8) as char)))
                                } else if code < 0xD800 || code > 0xDFFF {
                                    spec_scan_string(s, k + 6, acc.push(char_of_scalar(code)))
                                } else if code <= 0xDBFF {
                                    if s.len() - k < 12 {
                                        None
                                    } else if s[k + 6] == '\\' && s[k + 7] == 'u' {
                                        match spec_hex4(s, k + 8) {
                                            Some(low) => {
                                                if 0xDC00 <= low <= 0xDFFF {
                                                    spec_scan_string(
                                                        s,
                                                        k + 12,
                                                        acc.push(char_of_scalar(
                                                            0x10000 + (code - 0xD800) * 0x400
                                                                + (low - 0xDC00),
                                                        )),
                                                    )
                                                } else {
                                                    None
                                                }
                                            },
                                            None => None,
                                        }
                                    } else {
                                        None
                                    }
                                } else {
                                    None
                                }
                            },
                            None => None,
                        }
                    }
                } else {
                    None
                }
            }
        } else {
            spec_scan_string(s, k + 1, acc.push(c))
        }
    }
}

/// A string literal at `i`: an opening quote, then the scan.
pub open spec fn spec_parse_string(s: Seq<char>, i: int) -> Option<(Seq<char>, int)> {
    if 0 <= i < s.len() && s[i] == '"' {
        spec_scan_string(s, i + 1, Seq::empty())
    } else {
        None
    }
}

/// Scan a run of digits from `k` into the accumulator, refusing values
/// beyond the signed 64-bit magnitude: mirror of the executable scanner.
pub open spec fn spec_scan_digits(s: Seq<char>, k: int, acc: int) -> Option<(int, int)>
    decreases s.len() - k,
{
    if 0 <= k < s.len() && 48 <= s[k] as u32 <= 57 {
        if acc > 0x0CCC_CCCC_CCCC_CCCC {
            None
        } else {
            let next = acc * 10 + (s[k] as u32 - 48);
            if next > 0x8000_0000_0000_0000 {
                None
            } else {
                spec_scan_digits(s, k + 1, next)
            }
        }
    } else {
        Some((acc, k))
    }
}

/// A number at `i`: optional minus sign, digits, no fraction or exponent,
/// within the signed 64-bit range.
pub open spec fn spec_parse_number(s: Seq<char>, i: int) -> Option<(int, int)> {
    if !(0 <= i < s.len()) {
        None
    } else {
        let k = if s[i] == '-' {
            i + 1
        } else {
            i
        };
        if !(k < s.len() && 48 <= s[k] as u32 <= 57) {
            None
        } else {
            match spec_scan_digits(s, k, 0) {
                Some((acc, end)) => {
                    if end < s.len() && (s[end] == '.' || s[end] == 'e' || s[end] == 'E') {
                        None
                    } else if s[i] == '-' {
                        Some((-acc, end))
                    } else if acc == 0x8000_0000_0000_0000 {
                        None
                    } else {
                        Some((acc, end))
                    }
                },
                None => None,
            }
        }
    }
}

/// Whether the word `w` stands at position `i` of `s`.
pub open spec fn spec_keyword_at(s: Seq<char>, i: int, w: Seq<char>) -> bool {
    0 <= i && i + w.len() <= s.len() && s.subrange(i, i + w.len()) == w
}

#[verifier::loop_isolation(false)]
fn expect_keyword(s: &Vec<char>, i: usize, w: &Vec<char>) -> (r: bool)
    requires
        i <= s@.len(),
    ensures
        r == spec_keyword_at(s@, i as int, w@),
{
    if s.len() - i < w.len() {
        assert(!spec_keyword_at(s@, i as int, w@));
        return false;
    }
    let mut j: usize = 0;
    while j < w.len()
        invariant
            j <= w@.len(),
            i + w@.len() <= s@.len(),
            forall|m: int| 0 <= m < j ==> s@[i + m] == w@[m],
        decreases w@.len() - j,
    {
        if s[i + j] != w[j] {
            proof {
                assert(s@.subrange(i as int, i + w@.len())[j as int] != w@[j as int]);
            }
            return false;
        }
        j += 1;
    }
    proof {
        assert(s@.subrange(i as int, i + w@.len()) =~= w@);
    }
    true
}

/// One JSON value at position `i`, leading whitespace skipped: `null`,
/// `true`, `false`, a string, a number, an array or an object, each the
/// mirror of the executable parser. The index bumps written `if .. <= ..`
/// only restate the scanners' progress so the recursion visibly shrinks;
/// the scanners never move backwards.
pub open spec fn spec_parse_value(s: Seq<char>, i: int) -> Option<(JsonView, int)>
    decreases s.len() - i, 0int,
{
    let j0 = spec_skip_ws(s, i);
    let j = if j0 < i {
        i
    } else {
        j0
    };
    if !(0 <= j && j < s.len()) {
        None
    } else {
        let c = s[j];
        if c == 'n' {
            if spec_keyword_at(s, j, seq!['n', 'u', 'l', 'l']) {
                Some((JsonView::Null, j + 4))
            } else {
                None
            }
        } else if c == 't' {
            if spec_keyword_at(s, j, seq!['t', 'r', 'u', 'e']) {
                Some((JsonView::Bool(true), j + 4))
            } else {
                None
            }
        } else if c == 'f' {
            if spec_keyword_at(s, j, seq!['f', 'a', 'l', 's', 'e']) {
                Some((JsonView::Bool(false), j + 5))
            } else {
                None
            }
        } else if c == '"' {
            match spec_parse_string(s, j) {
                Some((text, np)) => Some((JsonView::Str(text), np)),
                None => None,
            }
        } else if c == '-' || (48 <= c as u32 && c as u32 <= 57) {
            match spec_parse_number(s, j) {
                Some((num, np)) => Some((JsonView::Int(num), np)),
                None => None,
            }
        } else if c == '[' {
            let a0 = spec_skip_ws(s, j + 1);
            let after = if a0 < j + 1 {
                j + 1
            } else {
                a0
            };
            if after < s.len() && s[after] == ']' {
                Some((JsonView::Arr(Seq::empty()), after + 1))
            } else {
                spec_parse_elements(s, j + 1, Seq::empty())
            }
        } else if c == '{' {
            let a0 = spec_skip_ws(s, j + 1);
            let after = if a0 < j + 1 {
                j + 1
            } else {
                a0
            };
            if after < s.len() && s[after] == '}' {
                Some((JsonView::Obj(Seq::empty()), after + 1))
            } else {
                spec_parse_members(s, j + 1, Seq::empty())
            }
        } else {
            None
        }
    }
}

/// The elements of an array from `pos`, those before already in `acc`:
/// a value, then a comma and more elements or the closing bracket.
pub open spec fn spec_parse_elements(s: Seq<char>, pos: int, acc: Seq<JsonView>) -> Option<
    (JsonView, int),
>
    decreases s.len() - pos, 1int,
{
    if !(0 <= pos && pos < s.len()) {
        None
    } else {
        match spec_parse_value(s, pos) {
            Some((v, np0)) => {
                let np = if np0 <= pos {
                    pos + 1
                } else {
                    np0
                };
                let sep0 = spec_skip_ws(s, np);
                let sep = if sep0 < np {
                    np
                } else {
                    sep0
                };
                if sep >= s.len() {
                    None
                } else if s[sep] == ',' {
                    spec_parse_elements(s, sep + 1, acc.push(v))
                } else if s[sep] == ']' {
                    Some((JsonView::Arr(acc.push(v)), sep + 1))
                } else {
                    None
                }
            },
            None => None,
        }
    }
}

/// The members of an object from `pos`, those before already in `acc`:
/// a quoted key, a colon, a value, then a comma and more members or the
/// closing brace.
pub open spec fn spec_parse_members(
    s: Seq<char>,
    pos: int,
    acc: Seq<(Seq<char>, JsonView)>,
) -> Option<(JsonView, int)>
    decreases s.len() - pos, 1int,
{
    if !(0 <= pos && pos < s.len()) {
        None
    } else {
        let kq0 = spec_skip_ws(s, pos);
        let kq = if kq0 < pos {
            pos
        } else {
            kq0
        };
        match spec_parse_string(s, kq) {
            Some((key, ak0)) => {
                let ak = if ak0 <= pos {
                    pos + 1
                } else {
                    ak0
                };
                let colon0 = spec_skip_ws(s, ak);
                let colon = if colon0 < ak {
                    ak
                } else {
                    colon0
                };
                if colon >= s.len() || s[colon] != ':' {
                    None
                } else {
                    match spec_parse_value(s, colon + 1) {
                        Some((v, np0)) => {
                            let np = if np0 <= colon + 1 {
                                colon + 2
                            } else {
                                np0
                            };
                            let sep0 = spec_skip_ws(s, np);
                            let sep = if sep0 < np {
                                np
                            } else {
                                sep0
                            };
                            if sep >= s.len() {
                                None
                            } else if s[sep] == ',' {
                                spec_parse_members(s, sep + 1, acc.push((key, v)))
                            } else if s[sep] == '}' {
                                Some((JsonView::Obj(acc.push((key, v))), sep + 1))
                            } else {
                                None
                            }
                        },
                        None => None,
                    }
                }
            },
            None => None,
        }
    }
}

/// A whole document: one value, then only whitespace to the end.
pub open spec fn spec_parse_json(s: Seq<char>) -> Option<JsonView> {
    match spec_parse_value(s, 0) {
        Some((v, end)) => {
            if spec_skip_ws(s, end) == s.len() {
                Some(v)
            } else {
                None
            }
        },
        None => None,
    }
}

/// How an executable scan result corresponds to its mirror.
pub open spec fn str_scan_matches(r: Option<(String, usize)>, m: Option<(Seq<char>, int)>) -> bool {
    match (r, m) {
        (Some(p), Some(q)) => p.0@ == q.0 && p.1 as int == q.1,
        (None, None) => true,
        _ => false,
    }
}

/// Scan a JSON string literal starting at its opening quote.
#[verifier::loop_isolation(false)]
fn parse_string(s: &Vec<char>, i: usize) -> (r: Option<(String, usize)>)
    requires
        i < s@.len(),
    ensures
        r matches Some(p) ==> i < p.1 <= s@.len(),
        str_scan_matches(r, spec_parse_string(s@, i as int)),
{
    let n = s.len();
    if s[i] != '"' {
        return None;
    }
    let mut out = String::new();
    let mut k = i + 1;
    while k < n
        invariant
            n == s@.len(),
            i < k <= n,
            spec_scan_string(s@, k as int, out@) == spec_scan_string(
                s@,
                i + 1,
                Seq::<char>::empty(),
            ),
        decreases n - k,
    {
        let c = s[k];
        if c == '"' {
            return Some((out, k + 1));
        } else if c == '\\' {
            if k + 1 >= n {
                return None;
            }
            let e = s[k + 1];
            if e == '"' {
                push_char(&mut out, '"');
                k += 2;
            } else if e == '\\' {
                push_char(&mut out, '\\');
                k += 2;
            } else if e == '/' {
                push_char(&mut out, '/');
                k += 2;
            } else if e == 'n' {
                push_char(&mut out, '\n');
                k += 2;
            } else if e == 't' {
                push_char(&mut out, '\t');
                k += 2;
            } else if e == 'r' {
                push_char(&mut out, '\r');
                k += 2;
            } else if e == 'b' {
                push_char(&mut out, (8u8) as char);
                k += 2;
            } else if e == 'f' {
                push_char(&mut out, (12u8) as char);
                k += 2;
            } else if e == 'u' {
                if n - k < 6 {
                    return None;
                }
                let h3 = hex_val(s[k + 2]);
                let h2 = hex_val(s[k + 3]);
                let h1 = hex_val(s[k + 4]);
                let h0 = hex_val(s[k + 5]);
                match (h3, h2, h1, h0) {
                    (Some(a), Some(b), Some(c2), Some(d)) => {
                        let code: u32 = (a as u32) * 4096 + (b as u32) * 256
                            + (c2 as u32) * 16 + (d as u32);
                        if code < 0x80 {
                            push_char(&mut out, (code as u8) as char);
                            k += 6;
                        } else if code < 0xD800 || code > 0xDFFF {
                            match char::from_u32(code) {
                                Some(ch) => {
                                    push_char(&mut out, ch);
                                    k += 6;
                                },
                                None => {
                                    return None;
                                },
                            }
                        } else if code <= 0xDBFF {
                            if n - k < 12 {
                                return None;
                            }
                            if !(s[k + 6] == '\\' && s[k + 7] == 'u') {
                                return None;
                            }
                            let g3 = hex_val(s[k + 8]);
                            let g2 = hex_val(s[k + 9]);
                            let g1 = hex_val(s[k + 10]);
                            let g0 = hex_val(s[k + 11]);
                            match (g3, g2, g1, g0) {
                                (Some(a2), Some(b2), Some(c3), Some(d2)) => {
                                    let low: u32 = (a2 as u32) * 4096 + (b2 as u32) * 256
                                        + (c3 as u32) * 16 + (d2 as u32);
                                    if !(0xDC00 <= low && low <= 0xDFFF) {
                                        return None;
                                    }
                                    let combined: u32 = 0x10000 + (code - 0xD800) * 0x400
                                        + (low - 0xDC00);
                                    match char::from_u32(combined) {
                                        Some(ch) => {
                                            push_char(&mut out, ch);
                                            k += 12;
                                        },
                                        None => {
                                            return None;
                                        },
                                    }
                                },
                                _ => {
                                    return None;
                                },
                            }
                        } else {
                            return None;
                        }
                    },
                    _ => {
                        return None;
                    },
                }
            } else {
                return None;
            }
        } else {
            push_char(&mut out, c);
            k += 1;
        }
    }
    None
}

/// How an executable number result corresponds to its mirror.
pub open spec fn num_scan_matches(r: Option<(i64, usize)>, m: Option<(int, int)>) -> bool {
    match (r, m) {
        (Some(p), Some(q)) => p.0 as int == q.0 && p.1 as int == q.1,
        (None, None) => true,
        _ => false,
    }
}

/// Scan a JSON number starting at a minus sign or digit.
///
/// Only integers that fit a 64-bit signed value are accepted: this protocol
/// writes and reads no other numbers.
#[verifier::loop_isolation(false)]
fn parse_number(s: &Vec<char>, i: usize) -> (r: Option<(i64, usize)>)
    requires
        i < s@.len(),
    ensures
        r matches Some(p) ==> i < p.1 <= s@.len(),
        num_scan_matches(r, spec_parse_number(s@, i as int)),
{
    let n = s.len();
    let mut k = i;
    let neg = s[k] == '-';
    if neg {
        k += 1;
    }
    if k >= n {
        return None;
    }
    let first = s[k] as u32;
    if !(48 <= first && first <= 57) {
        return None;
    }
    let mut acc: u64 = 0;
    while k < n && 48 <= s[k] as u32 && s[k] as u32 <= 57
        invariant
            n == s@.len(),
            i <= k <= n,
            neg ==> i < k,
            acc <= 0x8000_0000_0000_0000u64,
            spec_scan_digits(s@, k as int, acc as int) == spec_scan_digits(
                s@,
                if neg {
                    i + 1
                } else {
                    i as int
                },
                0,
            ),
        decreases n - k,
    {
        let d = (s[k] as u32 - 48) as u64;
        if acc > 0x0CCC_CCCC_CCCC_CCCCu64 {
            return None;
        }
        let next = acc * 10 + d;
        if next > 0x8000_0000_0000_0000u64 {
            return None;
        }
        acc = next;
        k += 1;
    }
    if k < n && (s[k] == '.' || s[k] == 'e' || s[k] == 'E') {
        return None;
    }
    if neg {
        if acc == 0x8000_0000_0000_0000u64 {
            Some((i64::MIN, k))
        } else {
            Some((-(acc as i64), k))
        }
    } else {
        if acc == 0x8000_0000_0000_0000u64 {
            None
        } else {
            Some((acc as i64, k))
        }
    }
}

/// How an executable value result corresponds to its mirror.
pub open spec fn val_scan_matches(r: Option<(JsonValue, usize)>, m: Option<(JsonView, int)>)
    -> bool {
    match (r, m) {
        (Some(p), Some(q)) => p.0@ == q.0 && p.1 as int == q.1,
        (None, None) => true,
        _ => false,
    }
}

/// Recursive-descent scan of one JSON value starting at position `i`.
#[verifier::rlimit(100)]
#[verifier::loop_isolation(false)]
fn parse_value(s: &Vec<char>, i: usize) -> (r: Option<(JsonValue, usize)>)
    requires
        i <= s@.len(),
    ensures
        r matches Some(p) ==> i < p.1 <= s@.len(),
        val_scan_matches(r, spec_parse_value(s@, i as int)),
    decreases s@.len() - i,
{
    let n = s.len();
    let j = skip_ws(s, i);
    if j >= n {
        return None;
    }
    let c = s[j];
    if c == 'n' {
        let mut w: Vec<char> = Vec::new();
        w.push('n');
        w.push('u');
        w.push('l');
        w.push('l');
        proof {
            assert(w@ =~= seq!['n', 'u', 'l', 'l']);
        }
        if expect_keyword(s, j, &w) {
            Some((JsonValue::Null, j + 4))
        } else {
            None
        }
    } else if c == 't' {
        let mut w: Vec<char> = Vec::new();
        w.push('t');
        w.push('r');
        w.push('u');
        w.push('e');
        proof {
            assert(w@ =~= seq!['t', 'r', 'u', 'e']);
        }
        if expect_keyword(s, j, &w) {
            Some((JsonValue::Bool(true), j + 4))
        } else {
            None
        }
    } else if c == 'f' {
        let mut w: Vec<char> = Vec::new();
        w.push('f');
        w.push('a');
        w.push('l');
        w.push('s');
        w.push('e');
        proof {
            assert(w@ =~= seq!['f', 'a', 'l', 's', 'e']);
        }
        if expect_keyword(s, j, &w) {
            Some((JsonValue::Bool(false), j + 5))
        } else {
            None
        }
    } else if c == '"' {
        match parse_string(s, j) {
            Some((text, np)) => Some((JsonValue::Str(text), np)),
            None => None,
        }
    } else if c == '-' || (48 <= c as u32 && c as u32 <= 57) {
        match parse_number(s, j) {
            Some((num, np)) => Some((JsonValue::Int(num), np)),
            None => None,
        }
    } else if c == '[' {
        let after = skip_ws(s, j + 1);
        if after < n && s[after] == ']' {
            let elems: Vec<JsonValue> = Vec::new();
            proof {
                assert(json_views(elems@) =~= Seq::<JsonView>::empty());
            }
            return Some((JsonValue::Arr(elems), after + 1));
        }
        let mut elems: Vec<JsonValue> = Vec::new();
        let mut pos: usize = j + 1;
        proof {
            assert(json_views(elems@) =~= Seq::<JsonView>::empty());
        }
        loop
            invariant
                n == s@.len(),
                i < pos <= n,
                spec_parse_elements(s@, pos as int, json_views(elems@)) == spec_parse_elements(
                    s@,
                    j + 1,
                    Seq::<JsonView>::empty(),
                ),
                spec_parse_value(s@, i as int) == spec_parse_elements(
                    s@,
                    j + 1,
                    Seq::<JsonView>::empty(),
                ),
            decreases n - pos,
        {
            match parse_value(s, pos) {
                Some((v, np)) => {
                    let ghost acc0 = json_views(elems@);
                    proof {
                        lemma_json_views_index(elems@);
                    }
                    elems.push(v);
                    proof {
                        lemma_json_views_index(elems@);
                        assert(json_views(elems@) =~= acc0.push(v@));
                    }
                    let sep = skip_ws(s, np);
                    if sep >= n {
                        return None;
                    }
                    if s[sep] == ',' {
                        pos = sep + 1;
                    } else if s[sep] == ']' {
                        return Some((JsonValue::Arr(elems), sep + 1));
                    } else {
                        return None;
                    }
                },
                None => {
                    return None;
                },
            }
        }
    } else if c == '{' {
        let after = skip_ws(s, j + 1);
        if after < n && s[after] == '}' {
            let members: Vec<(String, JsonValue)> = Vec::new();
            proof {
                assert(json_member_views(members@) =~= Seq::<(Seq<char>, JsonView)>::empty());
            }
            return Some((JsonValue::Obj(members), after + 1));
        }
        let mut members: Vec<(String, JsonValue)> = Vec::new();
        let mut pos: usize = j + 1;
        proof {
            assert(json_member_views(members@) =~= Seq::<(Seq<char>, JsonView)>::empty());
        }
        loop
            invariant
                n == s@.len(),
                i < pos <= n,
                spec_parse_members(s@, pos as int, json_member_views(members@))
                    == spec_parse_members(s@, j + 1, Seq::<(Seq<char>, JsonView)>::empty()),
                spec_parse_value(s@, i as int) == spec_parse_members(
                    s@,
                    j + 1,
                    Seq::<(Seq<char>, JsonView)>::empty(),
                ),
            decreases n - pos,
        {
            let kq = skip_ws(s, pos);
            if kq >= n {
                return None;
            }
            match parse_string(s, kq) {
                Some((key, after_key)) => {
                    let colon = skip_ws(s, after_key);
                    if colon >= n || s[colon] != ':' {
                        return None;
                    }
                    match parse_value(s, colon + 1) {
                        Some((v, np)) => {
                            let ghost acc0 = json_member_views(members@);
                            let ghost gkey = key@;
                            proof {
                                lemma_json_member_views_index(members@);
                            }
                            members.push((key, v));
                            proof {
                                lemma_json_member_views_index(members@);
                                assert(json_member_views(members@) =~= acc0.push((gkey, v@)));
                            }
                            let sep = skip_ws(s, np);
                            if sep >= n {
                                return None;
                            }
                            if s[sep] == ',' {
                                pos = sep + 1;
                            } else if s[sep] == '}' {
                                return Some((JsonValue::Obj(members), sep + 1));
                            } else {
                                return None;
                            }
                        },
                        None => {
                            return None;
                        },
                    }
                },
                None => {
                    return None;
                },
            }
        }
    } else {
        None
    }
}

/// Parse a complete JSON document. The result is exactly what
/// `spec_parse_json` says of the text: `None` when the text is not one
/// document, the document it denotes otherwise.
pub fn parse_json(s: &str) -> (r: Option<JsonValue>)
    ensures
        (match r {
            Some(v) => spec_parse_json(s@) == Some(v@),
            None => spec_parse_json(s@) is None,
        }),
{
    let chars = str_to_chars(s);
    match parse_value(&chars, 0) {
        Some((v, end)) => {
            let rest = skip_ws(&chars, end);
            if rest == chars.len() {
                Some(v)
            } else {
                None
            }
        },
        None => None,
    }
}

} // verus!
