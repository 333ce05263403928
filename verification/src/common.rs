//! Common wire value types: colors, sizes and padding, with their exact
//! textual grammars.

use vstd::prelude::*;
use vstd::string::*;
use crate::text::{dec_digits, digit_val, digits_val, all_digits, append_u64};

verus! {

/// Raised when a persisted color or size string does not match the
/// required textual grammar; `expected` names that grammar.
#[derive(Clone, Debug)]
pub struct ParseError {
    pub expected: &'static str,
}

/// A color as a byte triple, written `rgb(r, g, b)` on the wire.
#[derive(Clone, Copy, Debug, PartialEq, Eq, Structural)]
pub struct Rgb(pub u8, pub u8, pub u8);

/// The exact textual form of a color: `rgb(` then the three decimal
/// components separated by comma-space, then `)`.
pub open spec fn rgb_text(r: u8, g: u8, b: u8) -> Seq<char> {
    "rgb("@ + dec_digits(r as nat) + ", "@ + dec_digits(g as nat) + ", "@ + dec_digits(b as nat)
        + ")"@
}

/// The JSON wire form of a color: the textual form as a JSON string.
/// The text is plain ASCII with nothing to escape, so the quotes wrap it
/// directly.
pub open spec fn rgb_json(r: u8, g: u8, b: u8) -> Seq<char> {
    seq!['"'] + rgb_text(r, g, b) + seq!['"']
}

/// The grammar named by color parse errors.
pub const RGB_GRAMMAR: &'static str = "rgb(<0-255>, <0-255>, <0-255>)";

/// Numeric value of one digit character, as executable code.
fn digit_of(c: char) -> (d: i32)
    ensures
        d == digit_val(c),
{
    match c {
        '0' => 0,
        '1' => 1,
        '2' => 2,
        '3' => 3,
        '4' => 4,
        '5' => 5,
        '6' => 6,
        '7' => 7,
        '8' => 8,
        '9' => 9,
        _ => -1,
    }
}

/// Scans the maximal run of digits starting at `start`; returns the value
/// the run denotes (exact whenever that value is at most 1000) and the
/// index one past the run.
fn scan_digits(s: &str, start: usize, n: usize) -> (r: (u32, usize))
    requires
        n == s@.len(),
        start <= n,
    ensures
        start <= r.1 <= n,
        forall|k: int| start <= k < r.1 ==> digit_val(s@[k]) >= 0,
        r.1 < n ==> digit_val(s@[r.1 as int]) < 0,
        digits_val(s@.subrange(start as int, r.1 as int)) <= 1000 ==> r.0 == digits_val(
            s@.subrange(start as int, r.1 as int),
        ),
{
    let mut i: usize = start;
    let mut v: u32 = 0;
    proof {
        assert(s@.subrange(start as int, start as int) =~= Seq::<char>::empty());
    }
    while i < n
        invariant
            n == s@.len(),
            start <= i <= n,
            forall|k: int| start <= k < i ==> digit_val(s@[k]) >= 0,
            digits_val(s@.subrange(start as int, i as int)) >= 0,
            v <= 1001,
            digits_val(s@.subrange(start as int, i as int)) <= 1000 ==> v == digits_val(
                s@.subrange(start as int, i as int),
            ),
            digits_val(s@.subrange(start as int, i as int)) > 1000 ==> v == 1001,
        decreases n - i,
    {
        let c = s.get_char(i);
        let d = digit_of(c);
        if d < 0 {
            return (v, i);
        }
        proof {
            let pre = s@.subrange(start as int, i as int);
            let post = s@.subrange(start as int, i as int + 1);
            assert(post.drop_last() =~= pre);
            assert(post.last() == s@[i as int]);
            assert(digits_val(post) == digits_val(pre) * 10 + digit_val(s@[i as int]));
        }
        v = v * 10 + (d as u32);
        if v > 1000 {
            v = 1001;
        }
        i = i + 1;
    }
    (v, i)
}

/// Whether the characters of `s` starting at `start` are those of `lit`.
fn text_at(s: &str, start: usize, n: usize, lit: &str) -> (r: bool)
    requires
        n == s@.len(),
        start <= n,
    ensures
        r <==> (start + lit@.len() <= n && s@.subrange(
            start as int,
            start as int + lit@.len() as int,
        ) == lit@),
{
    let m = lit.unicode_len();
    if n - start < m {
        proof {
            assert(start + lit@.len() > n);
        }
        return false;
    }
    let mut i: usize = 0;
    while i < m
        invariant
            n == s@.len(),
            m == lit@.len(),
            start + m <= n,
            i <= m,
            forall|k: int| 0 <= k < i ==> s@[start + k] == lit@[k],
        decreases m - i,
    {
        if s.get_char(start + i) != lit.get_char(i) {
            proof {
                let seg = s@.subrange(start as int, start as int + lit@.len() as int);
                assert(seg[i as int] == s@[start + i]);
                assert(seg != lit@);
            }
            return false;
        }
        i = i + 1;
    }
    proof {
        let seg = s@.subrange(start as int, start as int + lit@.len() as int);
        assert(seg =~= lit@);
    }
    true
}

impl Rgb {
    /// The textual form `rgb(r, g, b)` of this color.
    pub fn to_rgb_string(&self) -> (r: String)
        ensures
            r@ == rgb_text(self.0, self.1, self.2),
    {
        let mut s = String::new();
        s.append("rgb(");
        append_u64(&mut s, self.0 as u64);
        s.append(", ");
        append_u64(&mut s, self.1 as u64);
        s.append(", ");
        append_u64(&mut s, self.2 as u64);
        s.append(")");
        proof {
            assert(s@ =~= rgb_text(self.0, self.1, self.2));
        }
        s
    }

    /// The JSON wire form of this color.
    pub fn to_json(&self) -> (r: String)
        ensures
            r@ == rgb_json(self.0, self.1, self.2),
    {
        let mut s = String::new();
        proof {
            reveal_strlit("\"");
        }
        s.append("\"");
        proof {
            assert(s@ =~= seq!['"']);
        }
        let body = self.to_rgb_string();
        s.append(body.as_str());
        s.append("\"");
        proof {
            assert(s@ =~= rgb_json(self.0, self.1, self.2));
        }
        s
    }

    /// Parses the exact textual form `rgb(r, g, b)`: succeeds precisely on
    /// the strings this library writes, and recovers the components.
    pub fn from_rgb_str(s: &str) -> (r: Result<Rgb, ParseError>)
        ensures
            r matches Ok(c) ==> s@ == rgb_text(c.0, c.1, c.2),
            forall|rr: u8, gg: u8, bb: u8| s@ == rgb_text(rr, gg, bb) ==> r == Ok::<Rgb, ParseError>(
                Rgb(rr, gg, bb),
            ),
            r matches Err(e) ==> e.expected@ == RGB_GRAMMAR@,
    {
        let err = ParseError { expected: RGB_GRAMMAR };
        proof {
            reveal_strlit("rgb(");
            reveal_strlit(", ");
            reveal_strlit(")");
        }
        let n = s.unicode_len();
        if !text_at(s, 0, n, "rgb(") {
            proof {
                assert forall|rr: u8, gg: u8, bb: u8| s@ != rgb_text(rr, gg, bb) by {
                    if s@ == rgb_text(rr, gg, bb) {
                        lemma_rgb_text_facts(s@, rr, gg, bb);
                    }
                }
            }
            return Err(err);
        }
        let (v1, p1) = scan_digits(s, 4, n);
        if v1 > 255 || p1 == 4 || !text_at(s, p1, n, ", ") {
            proof {
                assert forall|rr: u8, gg: u8, bb: u8| s@ != rgb_text(rr, gg, bb) by {
                    if s@ == rgb_text(rr, gg, bb) {
                        lemma_rgb_pin1(s@, rr, gg, bb, v1 as int, p1 as int);
                    }
                }
            }
            return Err(err);
        }
        let (v2, p2) = scan_digits(s, p1 + 2, n);
        if v2 > 255 || p2 == p1 + 2 || !text_at(s, p2, n, ", ") {
            proof {
                assert forall|rr: u8, gg: u8, bb: u8| s@ != rgb_text(rr, gg, bb) by {
                    if s@ == rgb_text(rr, gg, bb) {
                        lemma_rgb_pin1(s@, rr, gg, bb, v1 as int, p1 as int);
                        lemma_rgb_pin2(s@, rr, gg, bb, p1 as int, v2 as int, p2 as int);
                    }
                }
            }
            return Err(err);
        }
        let (v3, p3) = scan_digits(s, p2 + 2, n);
        if v3 > 255 || p3 == p2 + 2 || n - p3 != 1 || !text_at(s, p3, n, ")") {
            proof {
                assert forall|rr: u8, gg: u8, bb: u8| s@ != rgb_text(rr, gg, bb) by {
                    if s@ == rgb_text(rr, gg, bb) {
                        lemma_rgb_pin1(s@, rr, gg, bb, v1 as int, p1 as int);
                        lemma_rgb_pin2(s@, rr, gg, bb, p1 as int, v2 as int, p2 as int);
                        lemma_rgb_pin3(s@, rr, gg, bb, p1 as int, p2 as int, v3 as int, p3 as int);
                    }
                }
            }
            return Err(err);
        }
        let c = Rgb(v1 as u8, v2 as u8, v3 as u8);
        proof {
            assert forall|rr: u8, gg: u8, bb: u8| s@ == rgb_text(rr, gg, bb) implies rr == c.0 && gg
                == c.1 && bb == c.2 by {
                lemma_rgb_pin1(s@, rr, gg, bb, v1 as int, p1 as int);
                lemma_rgb_pin2(s@, rr, gg, bb, p1 as int, v2 as int, p2 as int);
                lemma_rgb_pin3(s@, rr, gg, bb, p1 as int, p2 as int, v3 as int, p3 as int);
            }
        }
        let canon = c.to_rgb_string();
        let owned: String = s.to_owned();
        if owned == canon {
            Ok(c)
        } else {
            Err(err)
        }
    }

    /// Parses the JSON wire form of a color: the textual form wrapped in
    /// quotes, exactly as this library writes it.
    pub fn from_json(s: &str) -> (r: Result<Rgb, ParseError>)
        ensures
            r matches Ok(c) ==> s@ == rgb_json(c.0, c.1, c.2),
            forall|rr: u8, gg: u8, bb: u8| s@ == rgb_json(rr, gg, bb) ==> r == Ok::<Rgb, ParseError>(
                Rgb(rr, gg, bb),
            ),
            r matches Err(e) ==> e.expected@ == RGB_GRAMMAR@,
    {
        let err = ParseError { expected: RGB_GRAMMAR };
        let n = s.unicode_len();
        if n < 2 || s.get_char(0) != '"' || s.get_char(n - 1) != '"' {
            proof {
                lemma_rgb_json_shape();
            }
            return Err(err);
        }
        let inner = s.substring_char(1, n - 1);
        let r = Rgb::from_rgb_str(inner);
        proof {
            assert(s@ =~= seq![s@[0]] + s@.subrange(1, n - 1) + seq![s@[n - 1]]);
            lemma_rgb_json_shape();
        }
        r
    }
}

/// A maximal digit run that starts where a known digit text stands, with a
/// non-digit right after that text, ends exactly with the text.
proof fn lemma_run_matches(s: Seq<char>, base: int, d: Seq<char>, p: int)
    requires
        all_digits(d),
        0 <= base,
        base + d.len() < s.len(),
        s.subrange(base, base + d.len() as int) == d,
        digit_val(s[base + d.len()]) < 0,
        forall|k: int| base <= k < p ==> digit_val(s[k]) >= 0,
        base <= p <= s.len(),
        p < s.len() ==> digit_val(s[p]) < 0,
    ensures
        p == base + d.len(),
        s.subrange(base, p) == d,
{
    let l = d.len() as int;
    if p < base + l {
        assert(s[p] == s.subrange(base, base + l)[p - base]);
        assert(digit_val(d[p - base]) >= 0);
        assert(false);
    }
    if p > base + l {
        assert(digit_val(s[base + l]) >= 0);
        assert(false);
    }
}

/// Where the pieces of a canonical color text stand: the prefix, the three
/// digit runs, their delimiters, and the closing parenthesis.
proof fn lemma_rgb_text_facts(s: Seq<char>, rr: u8, gg: u8, bb: u8)
    requires
        s == rgb_text(rr, gg, bb),
    ensures
        ({
            let d1 = dec_digits(rr as nat);
            let d2 = dec_digits(gg as nat);
            let d3 = dec_digits(bb as nat);
            let l1 = d1.len() as int;
            let l2 = d2.len() as int;
            let l3 = d3.len() as int;
            &&& all_digits(d1) && all_digits(d2) && all_digits(d3)
            &&& l1 >= 1 && l2 >= 1 && l3 >= 1
            &&& digits_val(d1) == rr as int
            &&& digits_val(d2) == gg as int
            &&& digits_val(d3) == bb as int
            &&& s.len() == 9 + l1 + l2 + l3
            &&& s.subrange(0, 4) == "rgb("@
            &&& s.subrange(4, 4 + l1) == d1
            &&& digit_val(s[4 + l1]) < 0
            &&& s.subrange(4 + l1, 6 + l1) == ", "@
            &&& s.subrange(6 + l1, 6 + l1 + l2) == d2
            &&& digit_val(s[6 + l1 + l2]) < 0
            &&& s.subrange(6 + l1 + l2, 8 + l1 + l2) == ", "@
            &&& s.subrange(8 + l1 + l2, 8 + l1 + l2 + l3) == d3
            &&& digit_val(s[8 + l1 + l2 + l3]) < 0
            &&& s.subrange(8 + l1 + l2 + l3, 9 + l1 + l2 + l3) == ")"@
        }),
{
    reveal_strlit("rgb(");
    reveal_strlit(", ");
    reveal_strlit(")");
    crate::text::lemma_dec_digits_val(rr as nat);
    crate::text::lemma_dec_digits_val(gg as nat);
    crate::text::lemma_dec_digits_val(bb as nat);
    let d1 = dec_digits(rr as nat);
    let d2 = dec_digits(gg as nat);
    let d3 = dec_digits(bb as nat);
    let l1 = d1.len() as int;
    let l2 = d2.len() as int;
    let l3 = d3.len() as int;
    assert(s.subrange(0, 4) =~= "rgb("@);
    assert(s.subrange(4, 4 + l1) =~= d1);
    assert(s.subrange(4 + l1, 6 + l1) =~= ", "@);
    assert(s[4 + l1] == ", "@[0]);
    assert(s[4 + l1] == ',');
    assert(s.subrange(6 + l1, 6 + l1 + l2) =~= d2);
    assert(s.subrange(6 + l1 + l2, 8 + l1 + l2) =~= ", "@);
    assert(s[6 + l1 + l2] == ", "@[0]);
    assert(s[6 + l1 + l2] == ',');
    assert(s.subrange(8 + l1 + l2, 8 + l1 + l2 + l3) =~= d3);
    assert(s.subrange(8 + l1 + l2 + l3, 9 + l1 + l2 + l3) =~= ")"@);
    assert(s[8 + l1 + l2 + l3] == ")"@[0]);
    assert(s[8 + l1 + l2 + l3] == ')');
}

/// On a canonical color text, the first scanned run is the first digit run
/// and its value is the first component.
proof fn lemma_rgb_pin1(s: Seq<char>, rr: u8, gg: u8, bb: u8, v1: int, p1: int)
    requires
        s == rgb_text(rr, gg, bb),
        forall|k: int| 4 <= k < p1 ==> digit_val(s[k]) >= 0,
        4 <= p1 <= s.len(),
        p1 < s.len() ==> digit_val(s[p1]) < 0,
        digits_val(s.subrange(4, p1)) <= 1000 ==> v1 == digits_val(s.subrange(4, p1)),
    ensures
        p1 == 4 + dec_digits(rr as nat).len(),
        v1 == rr as int,
        v1 <= 255,
        p1 > 4,
        p1 + 2 <= s.len(),
        s.subrange(p1, p1 + 2) == ", "@,
{
    lemma_rgb_text_facts(s, rr, gg, bb);
    let d1 = dec_digits(rr as nat);
    lemma_run_matches(s, 4, d1, p1);
}

/// On a canonical color text whose first run is pinned, the second scanned
/// run is the second digit run and its value is the second component.
proof fn lemma_rgb_pin2(s: Seq<char>, rr: u8, gg: u8, bb: u8, p1: int, v2: int, p2: int)
    requires
        s == rgb_text(rr, gg, bb),
        p1 == 4 + dec_digits(rr as nat).len(),
        forall|k: int| p1 + 2 <= k < p2 ==> digit_val(s[k]) >= 0,
        p1 + 2 <= p2 <= s.len(),
        p2 < s.len() ==> digit_val(s[p2]) < 0,
        digits_val(s.subrange(p1 + 2, p2)) <= 1000 ==> v2 == digits_val(s.subrange(p1 + 2, p2)),
    ensures
        p2 == p1 + 2 + dec_digits(gg as nat).len(),
        v2 == gg as int,
        v2 <= 255,
        p2 > p1 + 2,
        p2 + 2 <= s.len(),
        s.subrange(p2, p2 + 2) == ", "@,
{
    lemma_rgb_text_facts(s, rr, gg, bb);
    let d2 = dec_digits(gg as nat);
    lemma_run_matches(s, p1 + 2, d2, p2);
}

/// On a canonical color text whose first two runs are pinned, the third
/// scanned run is the third digit run, its value is the third component,
/// and only the closing parenthesis follows it.
proof fn lemma_rgb_pin3(s: Seq<char>, rr: u8, gg: u8, bb: u8, p1: int, p2: int, v3: int, p3: int)
    requires
        s == rgb_text(rr, gg, bb),
        p1 == 4 + dec_digits(rr as nat).len(),
        p2 == p1 + 2 + dec_digits(gg as nat).len(),
        forall|k: int| p2 + 2 <= k < p3 ==> digit_val(s[k]) >= 0,
        p2 + 2 <= p3 <= s.len(),
        p3 < s.len() ==> digit_val(s[p3]) < 0,
        digits_val(s.subrange(p2 + 2, p3)) <= 1000 ==> v3 == digits_val(s.subrange(p2 + 2, p3)),
    ensures
        p3 == p2 + 2 + dec_digits(bb as nat).len(),
        v3 == bb as int,
        v3 <= 255,
        p3 > p2 + 2,
        p3 + 1 == s.len(),
        s.subrange(p3, p3 + 1) == ")"@,
{
    lemma_rgb_text_facts(s, rr, gg, bb);
    let d3 = dec_digits(bb as nat);
    lemma_run_matches(s, p2 + 2, d3, p3);
}

/// The JSON wire form of a color has quotes at both ends, and stripping
/// them leaves exactly the canonical text.
proof fn lemma_rgb_json_shape()
    ensures
        forall|rr: u8, gg: u8, bb: u8| {
            let j = #[trigger] rgb_json(rr, gg, bb);
            j.len() >= 2 && j[0] == '"' && j[j.len() - 1] == '"' && j.subrange(1, j.len() - 1)
                == rgb_text(rr, gg, bb)
        },
{
    assert forall|rr: u8, gg: u8, bb: u8| {
        let j = #[trigger] rgb_json(rr, gg, bb);
        j.len() >= 2 && j[0] == '"' && j[j.len() - 1] == '"' && j.subrange(1, j.len() - 1)
            == rgb_text(rr, gg, bb)
    } by {
        let j = rgb_json(rr, gg, bb);
        assert(j.subrange(1, j.len() - 1) =~= rgb_text(rr, gg, bb));
    }
}

/// A percentage value, written `<value>%`.
#[derive(Clone, Copy, Debug, PartialEq, Eq, Structural)]
pub struct Percent(pub u32);

/// A pixel count, written `<value>px`.
#[derive(Clone, Copy, Debug, PartialEq, Eq, Structural)]
pub struct Pixels(pub usize);

/// A width or height: either a percentage or a pixel count. The two wire
/// forms are mutually exclusive per field.
#[derive(Clone, Copy, Debug, PartialEq, Eq, Structural)]
pub enum Size {
    Percent(Percent),
    Pixel(Pixels),
}

impl Size {
    /// The textual form: decimal digits followed by `%` or `px`.
    pub open spec fn text(&self) -> Seq<char> {
        match self {
            Size::Percent(p) => dec_digits(p.0 as nat) + "%"@,
            Size::Pixel(p) => dec_digits(p.0 as nat) + "px"@,
        }
    }

    /// The textual form as a fresh string.
    pub fn to_string(&self) -> (r: String)
        ensures
            r@ == self.text(),
    {
        let mut s = String::new();
        match self {
            Size::Percent(p) => {
                append_u64(&mut s, p.0 as u64);
                s.append("%");
            },
            Size::Pixel(p) => {
                append_u64(&mut s, p.0 as u64);
                s.append("px");
            },
        }
        proof {
            assert(s@ =~= self.text());
        }
        s
    }

    /// The JSON wire form: the textual form as a JSON string. The text is
    /// digits and a plain suffix, so nothing needs escaping.
    pub fn to_json(&self) -> (r: String)
        ensures
            r@ == seq!['"'] + self.text() + seq!['"'],
    {
        let mut s = String::new();
        proof {
            reveal_strlit("\"");
        }
        s.append("\"");
        let body = self.to_string();
        s.append(body.as_str());
        s.append("\"");
        proof {
            assert(s@ =~= seq!['"'] + self.text() + seq!['"']);
        }
        s
    }

    /// A percentage size.
    pub fn percent(f: u32) -> (r: Self)
        ensures
            r == Size::Percent(Percent(f)),
    {
        Size::Percent(Percent(f))
    }

    /// A pixel size.
    pub fn pixels(f: usize) -> (r: Self)
        ensures
            r == Size::Pixel(Pixels(f)),
    {
        Size::Pixel(Pixels(f))
    }
}

/// Padding around a title, in pixels; absent sides are not written.
#[derive(Clone, Copy, Debug)]
pub struct Padding {
    pub top: Option<u32>,
    pub bottom: Option<u32>,
    pub left: Option<u32>,
    pub right: Option<u32>,
}

/// One `"key":value` object entry with an unsigned value.
pub open spec fn uint_entry(key: Seq<char>, v: nat) -> Seq<char> {
    seq!['"'] + key + seq!['"', ':'] + dec_digits(v)
}

/// The object entries a padding value serializes to, in field order,
/// skipping absent sides.
pub open spec fn padding_parts(p: Padding) -> Seq<Seq<char>> {
    (match p.top {
        Some(v) => seq![uint_entry("top"@, v as nat)],
        None => Seq::<Seq<char>>::empty(),
    }) + (match p.bottom {
        Some(v) => seq![uint_entry("bottom"@, v as nat)],
        None => Seq::<Seq<char>>::empty(),
    }) + (match p.left {
        Some(v) => seq![uint_entry("left"@, v as nat)],
        None => Seq::<Seq<char>>::empty(),
    }) + (match p.right {
        Some(v) => seq![uint_entry("right"@, v as nat)],
        None => Seq::<Seq<char>>::empty(),
    })
}

/// The JSON wire form of a padding value.
pub open spec fn padding_wire(p: Padding) -> Seq<char> {
    seq!['{'] + crate::text::join_comma(padding_parts(p)) + seq!['}']
}

/// One `"key":value` object entry as a fresh string.
pub(crate) fn make_uint_entry(key: &str, v: u64) -> (r: String)
    ensures
        r@ == uint_entry(key@, v as nat),
{
    let mut s = String::new();
    proof {
        reveal_strlit("\"");
        reveal_strlit("\":");
    }
    s.append("\"");
    s.append(key);
    s.append("\":");
    append_u64(&mut s, v);
    proof {
        assert(s@ =~= uint_entry(key@, v as nat));
    }
    s
}

impl Padding {
    /// The JSON wire form of this padding.
    pub fn to_json(&self) -> (r: String)
        ensures
            r@ == padding_wire(*self),
    {
        let mut parts: Vec<String> = Vec::new();
        if let Some(v) = self.top {
            parts.push(make_uint_entry("top", v as u64));
        }
        if let Some(v) = self.bottom {
            parts.push(make_uint_entry("bottom", v as u64));
        }
        if let Some(v) = self.left {
            parts.push(make_uint_entry("left", v as u64));
        }
        if let Some(v) = self.right {
            parts.push(make_uint_entry("right", v as u64));
        }
        let mut s = String::new();
        proof {
            reveal_strlit("{");
            reveal_strlit("}");
            assert(parts@.map_values(|p: String| p@) =~= padding_parts(*self));
        }
        s.append("{");
        crate::text::append_join(&mut s, &parts);
        s.append("}");
        proof {
            assert(s@ =~= padding_wire(*self));
        }
        s
    }
}

/// The grammar named by size parse errors.
pub const SIZE_GRAMMAR: &'static str = "<number>% or <number>px";

/// Scans the maximal run of digits starting at `start`; returns the value
/// the run denotes (exact whenever that value fits 64 bits) and the index
/// one past the run.
fn scan_value(s: &str, start: usize, n: usize) -> (r: (u128, usize))
    requires
        n == s@.len(),
        start <= n,
    ensures
        start <= r.1 <= n,
        forall|k: int| start <= k < r.1 ==> digit_val(s@[k]) >= 0,
        r.1 < n ==> digit_val(s@[r.1 as int]) < 0,
        digits_val(s@.subrange(start as int, r.1 as int)) <= 0xffffffffffffffff ==> r.0
            == digits_val(s@.subrange(start as int, r.1 as int)),
{
    let mut i: usize = start;
    let mut v: u128 = 0;
    proof {
        assert(s@.subrange(start as int, start as int) =~= Seq::<char>::empty());
    }
    while i < n
        invariant
            n == s@.len(),
            start <= i <= n,
            forall|k: int| start <= k < i ==> digit_val(s@[k]) >= 0,
            digits_val(s@.subrange(start as int, i as int)) >= 0,
            v <= 0x10000000000000000,
            digits_val(s@.subrange(start as int, i as int)) <= 0xffffffffffffffff ==> v
                == digits_val(s@.subrange(start as int, i as int)),
            digits_val(s@.subrange(start as int, i as int)) > 0xffffffffffffffff ==> v
                == 0x10000000000000000,
        decreases n - i,
    {
        let c = s.get_char(i);
        let d = digit_of(c);
        if d < 0 {
            return (v, i);
        }
        proof {
            let pre = s@.subrange(start as int, i as int);
            let post = s@.subrange(start as int, i as int + 1);
            assert(post.drop_last() =~= pre);
            assert(post.last() == s@[i as int]);
            assert(digits_val(post) == digits_val(pre) * 10 + digit_val(s@[i as int]));
        }
        v = v * 10 + (d as u128);
        if v > 0xffffffffffffffff {
            v = 0x10000000000000000;
        }
        i = i + 1;
    }
    (v, i)
}

/// On a canonical size text, a successful scan pins the digit run and the
/// value; only the suffix follows.
proof fn lemma_size_pin(s: Seq<char>, v: int, p: int)
    requires
        forall|k: int| 0 <= k < p ==> digit_val(s[k]) >= 0,
        0 <= p <= s.len(),
        p < s.len() ==> digit_val(s[p]) < 0,
        digits_val(s.subrange(0, p)) <= 0xffffffffffffffff ==> v == digits_val(s.subrange(0, p)),
    ensures
        forall|pc: u32| s == Size::Percent(Percent(pc)).text() ==> (p > 0 && v == pc && p + 1
            == s.len() && s.subrange(p, p + 1) == "%"@),
        forall|px: usize| s == Size::Pixel(Pixels(px)).text() ==> (p > 0 && v == px && p + 2
            == s.len() && s.subrange(p, p + 2) == "px"@),
{
    reveal_strlit("%");
    reveal_strlit("px");
    assert forall|pc: u32| s == Size::Percent(Percent(pc)).text() implies (p > 0 && v == pc && p + 1
        == s.len() && s.subrange(p, p + 1) == "%"@) by {
        crate::text::lemma_dec_digits_val(pc as nat);
        let d = dec_digits(pc as nat);
        let l = d.len() as int;
        assert(s.subrange(0, l) =~= d);
        assert(s[l] == "%"@[0]);
        assert(s[l] == '%');
        lemma_run_matches(s, 0, d, p);
        assert(digits_val(s.subrange(0, p)) == pc as int);
        assert(s.subrange(p, p + 1) =~= "%"@);
    }
    assert forall|px: usize| s == Size::Pixel(Pixels(px)).text() implies (p > 0 && v == px && p + 2
        == s.len() && s.subrange(p, p + 2) == "px"@) by {
        crate::text::lemma_dec_digits_val(px as nat);
        let d = dec_digits(px as nat);
        let l = d.len() as int;
        assert(s.subrange(0, l) =~= d);
        assert(s[l] == "px"@[0]);
        assert(s[l] == 'p');
        lemma_run_matches(s, 0, d, p);
        assert(digits_val(s.subrange(0, p)) == px as int);
        assert(s.subrange(p, p + 2) =~= "px"@);
    }
}

impl Size {
    /// Parses the exact textual form this library writes: decimal digits
    /// followed by `%` or `px`. Succeeds precisely on those texts and
    /// recovers the size.
    pub fn from_str(s: &str) -> (r: Result<Size, ParseError>)
        ensures
            r matches Ok(sz) ==> s@ == sz.text(),
            forall|sz: Size| s@ == sz.text() ==> r == Ok::<Size, ParseError>(sz),
            r matches Err(e) ==> e.expected@ == SIZE_GRAMMAR@,
    {
        let err = ParseError { expected: SIZE_GRAMMAR };
        proof {
            reveal_strlit("%");
            reveal_strlit("px");
        }
        let n = s.unicode_len();
        let (v, p) = scan_value(s, 0, n);
        proof {
            lemma_size_pin(s@, v as int, p as int);
        }
        if p > 0 && n - p == 1 && text_at(s, p, n, "%") && v <= 0xffffffffu128 {
            let c = Size::percent(v as u32);
            let canon = c.to_string();
            let owned: String = s.to_owned();
            if owned == canon {
                proof {
                    assert forall|sz: Size| s@ == sz.text() implies Ok::<Size, ParseError>(sz)
                        == Ok::<Size, ParseError>(c) by {
                        if sz is Pixel {
                            assert(s@.subrange(p as int, p as int + 2)[0] == s@[p as int]);
                            assert(s@.subrange(p as int, p as int + 1)[0] == s@[p as int]);
                            assert(false);
                        }
                    }
                }
                return Ok(c);
            }
        } else if p > 0 && n - p == 2 && text_at(s, p, n, "px") {
            let vmax: u128 = usize::MAX as u128;
            if v <= vmax {
                let c = Size::pixels(v as usize);
                let canon = c.to_string();
                let owned: String = s.to_owned();
                if owned == canon {
                    proof {
                        assert forall|sz: Size| s@ == sz.text() implies Ok::<Size, ParseError>(sz)
                            == Ok::<Size, ParseError>(c) by {
                            if sz is Percent {
                                assert(s@.subrange(p as int, p as int + 2)[0] == s@[p as int]);
                                assert(s@.subrange(p as int, p as int + 1)[0] == s@[p as int]);
                                assert(false);
                            }
                        }
                    }
                    return Ok(c);
                }
            }
        }
        proof {
            assert forall|sz: Size| s@ != sz.text() by {
                if s@ == sz.text() {
                    match sz {
                        Size::Percent(pc) => {
                            assert(s@.subrange(p as int, p as int + 1)[0] == s@[p as int]);
                            assert(false);
                        },
                        Size::Pixel(px) => {
                            assert(s@.subrange(p as int, p as int + 2)[0] == s@[p as int]);
                            assert(s@.subrange(p as int, p as int + 1)[0] == s@[p as int]);
                            assert(false);
                        },
                    }
                }
            }
        }
        Err(err)
    }
}

} // verus!
