//! Memory cells hold free-form text; this module reads a byte out of such
//! text and writes a byte back as text.
use vstd::prelude::*;

verus! {

/// Whitespace as `char::is_whitespace` defines it (Unicode `White_Space`).
pub open spec fn is_space(c: char) -> bool {
    let u = c as u32;
    (0x09 <= u && u <= 0x0D) || u == 0x20 || u == 0x85 || u == 0xA0 || u == 0x1680 || (0x2000
        <= u && u <= 0x200A) || u == 0x2028 || u == 0x2029 || u == 0x202F || u == 0x205F || u
        == 0x3000
}

/// The text with its leading whitespace removed.
pub open spec fn trim_start(s: Seq<char>) -> Seq<char>
    decreases s.len(),
{
    if s.len() > 0 && is_space(s[0]) {
        trim_start(s.subrange(1, s.len() as int))
    } else {
        s
    }
}

/// The text with its trailing whitespace removed.
pub open spec fn trim_end(s: Seq<char>) -> Seq<char>
    decreases s.len(),
{
    if s.len() > 0 && is_space(s.last()) {
        trim_end(s.drop_last())
    } else {
        s
    }
}

pub open spec fn trim(s: Seq<char>) -> Seq<char> {
    trim_end(trim_start(s))
}

/// The text after one optional leading `0x` or `0X`.
pub open spec fn strip_hex_prefix(s: Seq<char>) -> Seq<char> {
    if s.len() >= 2 && s[0] == '0' && (s[1] == 'x' || s[1] == 'X') {
        s.subrange(2, s.len() as int)
    } else {
        s
    }
}

pub open spec fn is_hex_digit(c: char) -> bool {
    ('0' <= c && c <= '9') || ('a' <= c && c <= 'f') || ('A' <= c && c <= 'F')
}

pub open spec fn hex_digit_value(c: char) -> nat {
    if '0' <= c && c <= '9' {
        (c as u32 - '0' as u32) as nat
    } else if 'a' <= c && c <= 'f' {
        (c as u32 - 'a' as u32 + 10) as nat
    } else {
        (c as u32 - 'A' as u32 + 10) as nat
    }
}

/// The number that a string of hex digits writes, most significant first.
pub open spec fn hex_value(s: Seq<char>) -> nat
    decreases s.len(),
{
    if s.len() == 0 {
        0
    } else {
        hex_value(s.drop_last()) * 16 + hex_digit_value(s.last())
    }
}

pub open spec fn all_hex_digits(s: Seq<char>) -> bool {
    forall|i: int| 0 <= i < s.len() ==> is_hex_digit(#[trigger] s[i])
}

/// The byte that a memory cell's text stands for: surrounding whitespace is
/// ignored, one `0x` / `0X` prefix is optional, and what remains must be
/// one or two hex digits. `None` for anything else.
pub open spec fn byte_of_text(s: Seq<char>) -> Option<u8> {
    let digits = strip_hex_prefix(trim(s));
    if 0 < digits.len() <= 2 && all_hex_digits(digits) {
        Some(hex_value(digits) as u8)
    } else {
        None
    }
}

/// The upper-case hex digit for a value below 16.
pub open spec fn hex_char(d: nat) -> char {
    seq!['0', '1', '2', '3', '4', '5', '6', '7', '8', '9', 'A', 'B', 'C', 'D', 'E', 'F'][d as int]
}

/// Two upper-case hex digits for a byte.
pub open spec fn hex2(v: u8) -> Seq<char> {
    seq![hex_char(v as nat / 16), hex_char(v as nat % 16)]
}

/// The text a byte is stored as: `0x` and two upper-case hex digits.
pub open spec fn text_of_byte(v: u8) -> Seq<char> {
    seq!['0', 'x'] + hex2(v)
}

fn is_space_char(c: char) -> (r: bool)
    ensures
        r == is_space(c),
{
    let u = c as u32;
    (0x09 <= u && u <= 0x0D) || u == 0x20 || u == 0x85 || u == 0xA0 || u == 0x1680 || (0x2000
        <= u && u <= 0x200A) || u == 0x2028 || u == 0x2029 || u == 0x202F || u == 0x205F || u
        == 0x3000
}

fn hex_digit_of(c: char) -> (r: Option<u8>)
    ensures
        r is Some <==> is_hex_digit(c),
        r matches Some(d) ==> d as nat == hex_digit_value(c) && d < 16,
{
    if '0' <= c && c <= '9' {
        Some((c as u32 - '0' as u32) as u8)
    } else if 'a' <= c && c <= 'f' {
        Some((c as u32 - 'a' as u32 + 10) as u8)
    } else if 'A' <= c && c <= 'F' {
        Some((c as u32 - 'A' as u32 + 10) as u8)
    } else {
        None
    }
}

proof fn lemma_trim_start_step(s: Seq<char>, i: int)
    requires
        0 <= i < s.len(),
        is_space(s[i]),
    ensures
        trim_start(s.subrange(i, s.len() as int)) == trim_start(s.subrange(i + 1, s.len() as int)),
{
    let t = s.subrange(i, s.len() as int);
    assert(t.subrange(1, t.len() as int) =~= s.subrange(i + 1, s.len() as int));
}

proof fn lemma_trim_end_step(s: Seq<char>, i: int, j: int)
    requires
        0 <= i < j <= s.len(),
        is_space(s[j - 1]),
    ensures
        trim_end(s.subrange(i, j)) == trim_end(s.subrange(i, j - 1)),
{
    assert(s.subrange(i, j).drop_last() =~= s.subrange(i, j - 1));
}

proof fn lemma_two_digits_fit(d: Seq<char>)
    requires
        d.len() <= 2,
        all_hex_digits(d),
    ensures
        hex_value(d) <= 255,
    decreases d.len(),
{
    if d.len() > 0 {
        let c = d.last();
        assert(is_hex_digit(c));
        assert(hex_digit_value(c) < 16);
        let p = d.drop_last();
        assert(all_hex_digits(p)) by {
            assert forall|i: int| 0 <= i < p.len() implies is_hex_digit(#[trigger] p[i]) by {
                assert(p[i] == d[i]);
            }
        }
        lemma_two_digits_fit(p);
        if p.len() > 0 {
            assert(p.drop_last().len() == 0);
            assert(hex_value(p.drop_last()) == 0);
            assert(hex_value(p) == hex_digit_value(p.last()));
            assert(hex_value(p) < 16) by {
                assert(is_hex_digit(p.last()));
            }
        } else {
            assert(hex_value(p) == 0);
        }
    }
}

/// Reads the byte that a memory cell's text stands for.
pub fn parse_byte_text(text: &str) -> (r: Option<u8>)
    ensures
        r == byte_of_text(text@),
{
    let n = text.unicode_len();
    let ghost s = text@;
    let mut i: usize = 0;
    assert(s.subrange(0, n as int) =~= s);
    while i < n && is_space_char(text.get_char(i))
        invariant
            n == s.len(),
            s == text@,
            i <= n,
            trim_start(s) == trim_start(s.subrange(i as int, n as int)),
        decreases n - i,
    {
        proof {
            lemma_trim_start_step(s, i as int);
        }
        i = i + 1;
    }
    proof {
        assert(trim_start(s.subrange(i as int, n as int)) == s.subrange(i as int, n as int));
    }
    let mut j: usize = n;
    while j > i && is_space_char(text.get_char(j - 1))
        invariant
            n == s.len(),
            s == text@,
            i <= j <= n,
            trim(s) == trim_end(s.subrange(i as int, j as int)),
        decreases j,
    {
        proof {
            lemma_trim_end_step(s, i as int, j as int);
        }
        j = j - 1;
    }
    let ghost t = s.subrange(i as int, j as int);
    proof {
        assert(trim_end(t) == t);
        assert(trim(s) == t);
    }
    let mut k: usize = i;
    if j - i >= 2 && text.get_char(i) == '0' {
        let x = text.get_char(i + 1);
        if x == 'x' || x == 'X' {
            k = i + 2;
        }
    }
    let ghost digits = s.subrange(k as int, j as int);
    proof {
        assert(strip_hex_prefix(t) =~= digits);
    }
    if k == j || j - k > 2 {
        return None;
    }
    // the value read so far, held at 256 once it no longer fits a byte
    let mut v: u32 = 0;
    let mut p: usize = k;
    while p < j
        invariant
            n == s.len(),
            s == text@,
            k <= p <= j <= n,
            digits == s.subrange(k as int, j as int),
            strip_hex_prefix(trim(s)) == digits,
            all_hex_digits(s.subrange(k as int, p as int)),
            v <= 256,
            v == if hex_value(s.subrange(k as int, p as int)) <= 255 {
                hex_value(s.subrange(k as int, p as int))
            } else {
                256
            },
        decreases j - p,
    {
        let c = text.get_char(p);
        let ghost pre = s.subrange(k as int, p as int);
        let ghost next = s.subrange(k as int, p + 1);
        proof {
            assert(next.drop_last() =~= pre);
            assert(next.last() == c);
        }
        match hex_digit_of(c) {
            None => {
                proof {
                    assert(digits[p - k] == c);
                    assert(!all_hex_digits(digits));
                    assert(strip_hex_prefix(trim(s)) == digits);
                }
                return None;
            },
            Some(d) => {
                assert(hex_value(next) == hex_value(pre) * 16 + d);
                if v <= 255 && v * 16 + d as u32 <= 255 {
                    v = v * 16 + d as u32;
                } else {
                    v = 256;
                }
                proof {
                    assert forall|q: int| 0 <= q < next.len() implies is_hex_digit(#[trigger] next[q]) by {
                        if q < pre.len() {
                            assert(next[q] == pre[q]);
                        }
                    }
                }
            },
        }
        p = p + 1;
    }
    proof {
        assert(s.subrange(k as int, p as int) =~= digits);
        lemma_two_digits_fit(digits);
    }
    if v <= 255 {
        Some(v as u8)
    } else {
        None
    }
}

/// The one-character text of the upper-case hex digit for `d`.
fn hex_digit_str(d: u8) -> (r: &'static str)
    requires
        d < 16,
    ensures
        r@ == seq![hex_char(d as nat)],
{
    let digits = "0123456789ABCDEF";
    proof {
        reveal_strlit("0123456789ABCDEF");
        assert(digits@ =~= seq![
            '0', '1', '2', '3', '4', '5', '6', '7', '8', '9', 'A', 'B', 'C', 'D', 'E', 'F'
        ]);
    }
    let r = digits.substring_char(d as usize, d as usize + 1);
    assert(r@ =~= seq![hex_char(d as nat)]);
    r
}

/// Two upper-case hex digits for a byte, as a string.
pub fn hex2_text(v: u8) -> (r: String)
    ensures
        r@ == hex2(v),
{
    let mut r = String::new();
    r.append(hex_digit_str(v / 16));
    r.append(hex_digit_str(v % 16));
    assert(r@ =~= hex2(v));
    r
}

/// The text a byte is stored as in memory, such as `0x1F`.
pub fn byte_text(v: u8) -> (r: String)
    ensures
        r@ == text_of_byte(v),
{
    let mut r = String::from_str("0x");
    proof {
        reveal_strlit("0x");
    }
    let digits = hex2_text(v);
    r.append(digits.as_str());
    assert(r@ =~= text_of_byte(v));
    r
}

/// Reading back the text that a byte is stored as gives that byte.
pub proof fn lemma_byte_text_round_trip(v: u8)
    ensures
        byte_of_text(text_of_byte(v)) == Some(v),
{
    let s = text_of_byte(v);
    let hi = v as nat / 16;
    let lo = v as nat % 16;
    assert(s.len() == 4);
    assert(s[0] == '0');
    assert(!is_space(s[0]));
    assert(trim_start(s) == s);
    assert(!is_space(s.last())) by {
        assert(s.last() == hex_char(lo));
    }
    assert(trim_end(s) == s);
    let digits = strip_hex_prefix(s);
    assert(digits =~= seq![hex_char(hi), hex_char(lo)]);
    assert(is_hex_digit(hex_char(hi)) && hex_digit_value(hex_char(hi)) == hi);
    assert(is_hex_digit(hex_char(lo)) && hex_digit_value(hex_char(lo)) == lo);
    assert(digits.drop_last() =~= seq![hex_char(hi)]);
    assert(digits.drop_last().drop_last() =~= Seq::<char>::empty());
    let one = seq![hex_char(hi)];
    assert(one.drop_last() =~= Seq::<char>::empty());
    assert(hex_value(Seq::<char>::empty()) == 0);
    assert(hex_value(one) == hi);
    assert(hex_value(digits) == hi * 16 + lo);
}

} // verus!
