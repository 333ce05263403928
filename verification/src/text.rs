//! Decimal and JSON text forms: specification of the wire text and the
//! executable formatters that produce it.

use vstd::prelude::*;
use vstd::string::*;

verus! {

/// The character for a single decimal digit value.
pub open spec fn digit_char(d: int) -> char {
    if d == 0 { '0' }
    else if d == 1 { '1' }
    else if d == 2 { '2' }
    else if d == 3 { '3' }
    else if d == 4 { '4' }
    else if d == 5 { '5' }
    else if d == 6 { '6' }
    else if d == 7 { '7' }
    else if d == 8 { '8' }
    else { '9' }
}

/// Decimal digits of `n`, most significant first; `"0"` for zero,
/// no leading zeros otherwise.
pub open spec fn dec_digits(n: nat) -> Seq<char>
    decreases n,
{
    if n < 10 {
        seq![digit_char(n as int)]
    } else {
        dec_digits(n / 10) + seq![digit_char((n % 10) as int)]
    }
}

/// Wire text of a signed integer: optional minus sign, then decimal digits.
pub open spec fn int_wire(i: int) -> Seq<char> {
    if i < 0 {
        seq!['-'] + dec_digits((-i) as nat)
    } else {
        dec_digits(i as nat)
    }
}

/// Numeric value of a decimal digit character; -1 for a non-digit.
pub open spec fn digit_val(c: char) -> int {
    if c == '0' { 0 }
    else if c == '1' { 1 }
    else if c == '2' { 2 }
    else if c == '3' { 3 }
    else if c == '4' { 4 }
    else if c == '5' { 5 }
    else if c == '6' { 6 }
    else if c == '7' { 7 }
    else if c == '8' { 8 }
    else if c == '9' { 9 }
    else { -1 }
}

/// Whether every character of `s` is a decimal digit.
pub open spec fn all_digits(s: Seq<char>) -> bool {
    forall|i: int| 0 <= i < s.len() ==> digit_val(s[i]) >= 0
}

/// The number denoted by a sequence of decimal digit characters.
pub open spec fn digits_val(s: Seq<char>) -> int
    decreases s.len(),
{
    if s.len() == 0 {
        0
    } else {
        digits_val(s.drop_last()) * 10 + digit_val(s.last())
    }
}

/// Reading back the digits of `n` recovers `n`: decimal formatting loses
/// nothing.
pub proof fn lemma_dec_digits_val(n: nat)
    ensures
        dec_digits(n).len() >= 1,
        all_digits(dec_digits(n)),
        digits_val(dec_digits(n)) == n,
    decreases n,
{
    if n < 10 {
        let s = seq![digit_char(n as int)];
        assert(dec_digits(n) =~= s);
        assert(s.drop_last() =~= Seq::<char>::empty());
        assert(digits_val(s) == digits_val(s.drop_last()) * 10 + digit_val(s.last()));
    } else {
        lemma_dec_digits_val(n / 10);
        let tail = seq![digit_char((n % 10) as int)];
        assert(dec_digits(n) =~= dec_digits(n / 10) + tail);
        assert((dec_digits(n / 10) + tail).drop_last() =~= dec_digits(n / 10));
        assert(digits_val(dec_digits(n)) == digits_val(dec_digits(n / 10)) * 10 + digit_val(
            digit_char((n % 10) as int),
        ));
        assert(digit_val(digit_char((n % 10) as int)) == n % 10);
        assert(n / 10 * 10 + n % 10 == n) by (nonlinear_arith);
    }
}

/// Reading back the wire text of a signed integer recovers it.
pub open spec fn int_wire_val(s: Seq<char>) -> int {
    if s.len() >= 1 && s[0] == '-' {
        -digits_val(s.subrange(1, s.len() as int))
    } else {
        digits_val(s)
    }
}

/// Integer serialization is numeric passthrough: parsing the wire text of
/// any integer recovers the integer exactly.
pub proof fn lemma_int_wire_round_trip(i: int)
    ensures
        int_wire_val(int_wire(i)) == i,
{
    if i < 0 {
        lemma_dec_digits_val((-i) as nat);
        let s = int_wire(i);
        assert(s[0] == '-');
        assert(s.subrange(1, s.len() as int) =~= dec_digits((-i) as nat));
    } else {
        lemma_dec_digits_val(i as nat);
        let s = int_wire(i);
        assert(s.len() >= 1);
        if s[0] == '-' {
            assert(digit_val(dec_digits(i as nat)[0]) >= 0) by {
                assert(all_digits(dec_digits(i as nat)));
            }
            assert(digit_val('-') == -1);
            assert(false);
        }
    }
}

/// One decimal digit as a string slice.
pub(crate) fn digit_str(d: u64) -> (s: &'static str)
    requires
        d < 10,
    ensures
        s@ =~= seq![digit_char(d as int)],
        s@.len() == 1,
{
    proof {
        reveal_strlit("0");
        reveal_strlit("1");
        reveal_strlit("2");
        reveal_strlit("3");
        reveal_strlit("4");
        reveal_strlit("5");
        reveal_strlit("6");
        reveal_strlit("7");
        reveal_strlit("8");
        reveal_strlit("9");
    }
    match d {
        0 => "0",
        1 => "1",
        2 => "2",
        3 => "3",
        4 => "4",
        5 => "5",
        6 => "6",
        7 => "7",
        8 => "8",
        _ => "9",
    }
}

/// Appends the decimal digits of `n` to `out`.
pub fn append_u64(out: &mut String, n: u64)
    ensures
        final(out)@ == old(out)@ + dec_digits(n as nat),
    decreases n,
{
    if n < 10 {
        out.append(digit_str(n));
    } else {
        append_u64(out, n / 10);
        out.append(digit_str(n % 10));
        proof {
            assert(final(out)@ =~= old(out)@ + dec_digits(n as nat));
        }
    }
}

/// The decimal digits of `n` as a fresh string.
pub fn fmt_u64(n: u64) -> (s: String)
    ensures
        s@ == dec_digits(n as nat),
{
    let mut s = String::new();
    append_u64(&mut s, n);
    proof {
        assert(s@ =~= dec_digits(n as nat));
    }
    s
}

/// Appends the decimal digits of a 128-bit number to `out`.
pub fn append_u128(out: &mut String, n: u128)
    ensures
        final(out)@ == old(out)@ + dec_digits(n as nat),
    decreases n,
{
    if n < 10 {
        out.append(digit_str((n as u64) % 10));
        proof {
            assert(final(out)@ =~= old(out)@ + dec_digits(n as nat));
        }
    } else {
        append_u128(out, n / 10);
        out.append(digit_str((n % 10) as u64));
        proof {
            assert(final(out)@ =~= old(out)@ + dec_digits(n as nat));
        }
    }
}

/// Appends the wire text of a signed 128-bit integer to `out`.
pub fn append_i128(out: &mut String, i: i128)
    ensures
        final(out)@ == old(out)@ + int_wire(i as int),
{
    if i < 0 {
        proof {
            reveal_strlit("-");
        }
        out.append("-");
        let m: u128 = if i == i128::MIN {
            0x80000000000000000000000000000000u128
        } else {
            (-i) as u128
        };
        append_u128(out, m);
        proof {
            assert("-"@ =~= seq!['-']);
            assert(final(out)@ =~= old(out)@ + int_wire(i as int));
        }
    } else {
        append_u128(out, i as u128);
    }
}

/// Appends the wire text of a signed integer to `out`.
pub fn append_i64(out: &mut String, i: i64)
    ensures
        final(out)@ == old(out)@ + int_wire(i as int),
{
    if i < 0 {
        proof {
            reveal_strlit("-");
        }
        out.append("-");
        let m: u64 = if i == i64::MIN {
            9223372036854775808u64
        } else {
            (-i) as u64
        };
        append_u64(out, m);
        proof {
            assert("-"@ =~= seq!['-']);
            assert(final(out)@ =~= old(out)@ + int_wire(i as int));
        }
    } else {
        append_u64(out, i as u64);
    }
}

/// The wire text of a signed integer as a fresh string.
pub fn fmt_i64(i: i64) -> (s: String)
    ensures
        s@ == int_wire(i as int),
{
    let mut s = String::new();
    append_i64(&mut s, i);
    proof {
        assert(s@ =~= int_wire(i as int));
    }
    s
}

/// The character for a hexadecimal digit value, lower case.
pub open spec fn hex_char(d: int) -> char {
    if d < 10 {
        digit_char(d)
    } else if d == 10 { 'a' }
    else if d == 11 { 'b' }
    else if d == 12 { 'c' }
    else if d == 13 { 'd' }
    else if d == 14 { 'e' }
    else { 'f' }
}

/// JSON escape of one character: quotes, backslashes and control
/// characters are escaped; everything else stands for itself.
pub open spec fn esc_char(c: char) -> Seq<char> {
    if c == '"' {
        seq!['\\', '"']
    } else if c == '\\' {
        seq!['\\', '\\']
    } else if c == '\n' {
        seq!['\\', 'n']
    } else if c == '\r' {
        seq!['\\', 'r']
    } else if c == '\t' {
        seq!['\\', 't']
    } else if (c as u32) < 0x20 {
        seq!['\\', 'u', '0', '0', hex_char(c as u32 as int / 16), hex_char(c as u32 as int % 16)]
    } else {
        seq![c]
    }
}

/// The body of a JSON string literal holding the text `s`.
pub open spec fn json_escape(s: Seq<char>) -> Seq<char>
    decreases s.len(),
{
    if s.len() == 0 {
        Seq::<char>::empty()
    } else {
        esc_char(s[0]) + json_escape(s.subrange(1, s.len() as int))
    }
}

/// A whole JSON string literal holding the text `s`.
pub open spec fn json_string_wire(s: Seq<char>) -> Seq<char> {
    seq!['"'] + json_escape(s) + seq!['"']
}

/// Escaping distributes over appending one character at the end.
pub proof fn lemma_json_escape_push(s: Seq<char>, c: char)
    ensures
        json_escape(s.push(c)) == json_escape(s) + esc_char(c),
    decreases s.len(),
{
    if s.len() == 0 {
        let one = seq![c];
        assert(s.push(c) =~= one);
        assert(one.subrange(1, 1) =~= Seq::<char>::empty());
        assert(json_escape(one) == esc_char(c) + json_escape(one.subrange(1, 1)));
        assert(json_escape(s.push(c)) =~= json_escape(s) + esc_char(c));
    } else {
        assert(s.push(c).subrange(1, s.len() as int + 1) =~= s.subrange(1, s.len() as int).push(
            c,
        ));
        lemma_json_escape_push(s.subrange(1, s.len() as int), c);
        assert(json_escape(s.push(c)) =~= json_escape(s) + esc_char(c));
    }
}

/// Relies on String::push: appends exactly one character.
#[verifier::external_body]
pub fn push_char(out: &mut String, c: char)
    ensures
        final(out)@ == old(out)@.push(c),
{
    out.push(c);
}

/// One lower-case hexadecimal digit as a string slice.
fn hex_str(d: u32) -> (s: &'static str)
    requires
        d < 16,
    ensures
        s@ =~= seq![hex_char(d as int)],
{
    if d < 10 {
        digit_str(d as u64)
    } else {
        proof {
            reveal_strlit("a");
            reveal_strlit("b");
            reveal_strlit("c");
            reveal_strlit("d");
            reveal_strlit("e");
            reveal_strlit("f");
        }
        match d {
            10 => "a",
            11 => "b",
            12 => "c",
            13 => "d",
            14 => "e",
            _ => "f",
        }
    }
}

/// Appends the JSON escape of one character to `out`.
fn append_esc_char(out: &mut String, c: char)
    ensures
        final(out)@ == old(out)@ + esc_char(c),
{
    proof {
        reveal_strlit("\\\"");
        reveal_strlit("\\\\");
        reveal_strlit("\\n");
        reveal_strlit("\\r");
        reveal_strlit("\\t");
        reveal_strlit("\\u00");
    }
    if c == '"' {
        out.append("\\\"");
        proof {
            assert(final(out)@ =~= old(out)@ + esc_char(c));
        }
    } else if c == '\\' {
        out.append("\\\\");
        proof {
            assert(final(out)@ =~= old(out)@ + esc_char(c));
        }
    } else if c == '\n' {
        out.append("\\n");
        proof {
            assert(final(out)@ =~= old(out)@ + esc_char(c));
        }
    } else if c == '\r' {
        out.append("\\r");
        proof {
            assert(final(out)@ =~= old(out)@ + esc_char(c));
        }
    } else if c == '\t' {
        out.append("\\t");
        proof {
            assert(final(out)@ =~= old(out)@ + esc_char(c));
        }
    } else if (c as u32) < 0x20 {
        let v = c as u32;
        out.append("\\u00");
        out.append(hex_str(v / 16));
        out.append(hex_str(v % 16));
        proof {
            assert(final(out)@ =~= old(out)@ + esc_char(c));
        }
    } else {
        push_char(out, c);
        proof {
            assert(final(out)@ =~= old(out)@ + esc_char(c));
        }
    }
}

/// Appends a whole JSON string literal holding the text `s` to `out`.
pub fn append_json_string(out: &mut String, s: &str)
    ensures
        final(out)@ == old(out)@ + json_string_wire(s@),
{
    proof {
        reveal_strlit("\"");
    }
    out.append("\"");
    let n = s.unicode_len();
    let mut i: usize = 0;
    while i < n
        invariant
            n == s@.len(),
            i <= n,
            out@ == old(out)@ + seq!['"'] + json_escape(s@.subrange(0, i as int)),
        decreases n - i,
    {
        let c = s.get_char(i);
        append_esc_char(out, c);
        proof {
            assert(s@.subrange(0, i + 1) =~= s@.subrange(0, i as int).push(s@[i as int]));
            lemma_json_escape_push(s@.subrange(0, i as int), s@[i as int]);
            assert(out@ =~= old(out)@ + seq!['"'] + json_escape(s@.subrange(0, i + 1)));
        }
        i = i + 1;
    }
    out.append("\"");
    proof {
        assert(s@.subrange(0, s@.len() as int) =~= s@);
        assert(final(out)@ =~= old(out)@ + json_string_wire(s@));
    }
}

/// Parts joined with commas, in order.
pub open spec fn join_comma(parts: Seq<Seq<char>>) -> Seq<char>
    decreases parts.len(),
{
    if parts.len() == 0 {
        Seq::<char>::empty()
    } else if parts.len() == 1 {
        parts[0]
    } else {
        join_comma(parts.drop_last()) + seq![','] + parts.last()
    }
}

/// Appends the given parts joined with commas to `out`.
pub fn append_join(out: &mut String, parts: &Vec<String>)
    ensures
        final(out)@ == old(out)@ + join_comma(parts@.map_values(|p: String| p@)),
{
    let ghost all = parts@.map_values(|p: String| p@);
    let n = parts.len();
    let mut i: usize = 0;
    proof {
        assert(all.take(0) =~= Seq::<Seq<char>>::empty());
    }
    while i < n
        invariant
            n == parts@.len(),
            i <= n,
            all == parts@.map_values(|p: String| p@),
            out@ == old(out)@ + join_comma(all.take(i as int)),
        decreases n - i,
    {
        if i > 0 {
            proof {
                reveal_strlit(",");
            }
            out.append(",");
            proof {
                assert(","@ =~= seq![',']);
            }
        }
        out.append(parts[i].as_str());
        proof {
            assert(all.take(i as int + 1).drop_last() =~= all.take(i as int));
            assert(all.take(i as int + 1).last() == all[i as int]);
            assert(out@ =~= old(out)@ + join_comma(all.take(i as int + 1)));
        }
        i = i + 1;
    }
    proof {
        assert(all.take(n as int) =~= all);
    }
}

/// The numeric value of a lower-case hexadecimal digit character; -1 for
/// any other character.
pub open spec fn hex_val(c: char) -> int {
    if c == 'a' { 10 }
    else if c == 'b' { 11 }
    else if c == 'c' { 12 }
    else if c == 'd' { 13 }
    else if c == 'e' { 14 }
    else if c == 'f' { 15 }
    else { digit_val(c) }
}

/// The character a single-letter escape stands for.
pub open spec fn unesc_char(c: char) -> char {
    if c == 'n' { '\n' }
    else if c == 'r' { '\r' }
    else if c == 't' { '\t' }
    else { c }
}

/// Reads back the body of a JSON string literal: the inverse of
/// `json_escape` on every text that function produces.
pub open spec fn json_unescape(s: Seq<char>) -> Seq<char>
    decreases s.len(),
{
    if s.len() == 0 {
        Seq::<char>::empty()
    } else if s[0] == '\\' {
        if s.len() >= 6 && s[1] == 'u' {
            seq![((16 * hex_val(s[4]) + hex_val(s[5])) as u32) as char] + json_unescape(
                s.subrange(6, s.len() as int),
            )
        } else if s.len() >= 2 && s[1] != 'u' {
            seq![unesc_char(s[1])] + json_unescape(s.subrange(2, s.len() as int))
        } else {
            Seq::<char>::empty()
        }
    } else {
        seq![s[0]] + json_unescape(s.subrange(1, s.len() as int))
    }
}

/// Whether a character value lies in the Unicode scalar range; every
/// character of a real string does.
pub open spec fn valid_char(c: char) -> bool {
    0 <= c as int <= 0xD7FF || 0xE000 <= c as int <= 0x10FFFF
}

/// Whether every character of a text is a Unicode scalar value; true of
/// the view of every real string.
pub open spec fn valid_text(t: Seq<char>) -> bool {
    forall|i: int| 0 <= i < t.len() ==> valid_char(#[trigger] t[i])
}

/// Text serialization is string passthrough: escaping loses nothing, since
/// reading the escaped body back recovers the original text exactly.
pub proof fn lemma_json_escape_lossless(t: Seq<char>)
    requires
        valid_text(t),
    ensures
        json_unescape(json_escape(t)) == t,
    decreases t.len(),
{
    if t.len() == 0 {
    } else {
        let c = t[0];
        let rest = t.subrange(1, t.len() as int);
        assert(valid_char(c));
        assert(valid_text(rest)) by {
            assert(forall|i: int| 0 <= i < rest.len() ==> rest[i] == t[i + 1]);
        }
        lemma_json_escape_lossless(rest);
        let s = json_escape(t);
        assert(s =~= esc_char(c) + json_escape(rest));
        if c == '"' || c == '\\' || c == '\n' || c == '\r' || c == '\t' {
            assert(s[0] == '\\' && s[1] != 'u');
            assert(s.subrange(2, s.len() as int) =~= json_escape(rest));
            assert(json_unescape(s) =~= t);
        } else if (c as u32) < 0x20 {
            let v = c as u32;
            assert(s[0] == '\\' && s[1] == 'u' && s.len() >= 6);
            assert(s[4] == hex_char(v as int / 16) && s[5] == hex_char(v as int % 16));
            assert(hex_val(hex_char(v as int / 16)) == v as int / 16);
            assert(hex_val(hex_char(v as int % 16)) == v as int % 16);
            assert(16 * (v as int / 16) + (v as int % 16) == v) by {
                vstd::arithmetic::div_mod::lemma_fundamental_div_mod(v as int, 16);
            }
            assert((16 * hex_val(s[4]) + hex_val(s[5])) as u32 == v);
            assert(v as int == c as int);
            assert(v < 0xd800);
            assert(v as char == c);
            assert(s.subrange(6, s.len() as int) =~= json_escape(rest));
            assert(json_unescape(s) =~= t);
        } else {
            assert(s[0] == c && c != '\\');
            assert(s.subrange(1, s.len() as int) =~= json_escape(rest));
            assert(json_unescape(s) =~= t);
        }
    }
}

} // verus!
