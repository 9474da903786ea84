//! Text helpers shared by the validation report renderers and the header
//! codec: decimal printing and parsing of `i32` values, and escaping for the
//! JSON rendering of a report.

use vstd::prelude::*;
use vstd::string::StrSliceExecFns;
use vstd::string::StringExecFns;

verus! {

/// Whether `c` is a decimal digit.
pub open spec fn is_digit_char(c: char) -> bool {
    '0' <= c && c <= '9'
}

/// The numeric value of a decimal digit character.
pub open spec fn digit_val(c: char) -> nat
    recommends
        is_digit_char(c),
{
    (c as nat - '0' as nat) as nat
}

/// The decimal digit character for a value below ten.
pub open spec fn char_of_digit(d: nat) -> char
    recommends
        d < 10,
{
    if d == 0 {
        '0'
    } else if d == 1 {
        '1'
    } else if d == 2 {
        '2'
    } else if d == 3 {
        '3'
    } else if d == 4 {
        '4'
    } else if d == 5 {
        '5'
    } else if d == 6 {
        '6'
    } else if d == 7 {
        '7'
    } else if d == 8 {
        '8'
    } else {
        '9'
    }
}

/// The canonical decimal representation of `n`, without leading zeros.
pub open spec fn dec_str(n: nat) -> Seq<char>
    decreases n,
{
    if n < 10 {
        seq![char_of_digit(n)]
    } else {
        dec_str(n / 10) + seq![char_of_digit(n % 10)]
    }
}

/// The canonical decimal representation of a signed integer.
pub open spec fn int_str(v: int) -> Seq<char> {
    if v < 0 {
        seq!['-'] + dec_str((-v) as nat)
    } else {
        dec_str(v as nat)
    }
}

/// The value of a digit string, most significant digit first.
pub open spec fn digits_val(s: Seq<char>) -> nat
    decreases s.len(),
{
    if s.len() == 0 {
        0
    } else {
        digits_val(s.drop_last()) * 10 + digit_val(s.last())
    }
}

/// Whether every character of `s` is a decimal digit.
pub open spec fn all_digits(s: Seq<char>) -> bool {
    forall|i: int| 0 <= i < s.len() ==> is_digit_char(#[trigger] s[i])
}

/// What parsing a decimal `i32` from `s` yields: an optional sign followed by
/// at least one digit, with the value inside the `i32` range; `None` otherwise.
pub open spec fn parse_i32_spec(s: Seq<char>) -> Option<int> {
    let negative = s.len() > 0 && s[0] == '-';
    let digits = if s.len() > 0 && (s[0] == '-' || s[0] == '+') {
        s.drop_first()
    } else {
        s
    };
    if digits.len() == 0 || !all_digits(digits) {
        None
    } else {
        let v = if negative {
            -(digits_val(digits) as int)
        } else {
            digits_val(digits) as int
        };
        if -0x8000_0000 <= v <= 0x7fff_ffff {
            Some(v)
        } else {
            None
        }
    }
}

/// Every character of a decimal representation is a digit.
pub proof fn lemma_dec_str_all_digits(n: nat)
    ensures
        all_digits(dec_str(n)),
        dec_str(n).len() > 0,
    decreases n,
{
    if n >= 10 {
        lemma_dec_str_all_digits(n / 10);
        assert forall|i: int| 0 <= i < dec_str(n).len() implies is_digit_char(
            #[trigger] dec_str(n)[i],
        ) by {
            if i < dec_str(n / 10).len() {
                assert(dec_str(n)[i] == dec_str(n / 10)[i]);
            }
        }
    }
}

/// The digit characters carry their values.
pub proof fn lemma_digit_char_val(d: nat)
    requires
        d < 10,
    ensures
        digit_val(char_of_digit(d)) == d,
{
}

/// Reading the digits of a decimal representation gives the number back.
pub proof fn lemma_digits_val_dec_str(n: nat)
    ensures
        digits_val(dec_str(n)) == n,
    decreases n,
{
    if n < 10 {
        lemma_digit_char_val(n);
        assert(dec_str(n) == seq![char_of_digit(n)]);
        assert(dec_str(n).drop_last() =~= Seq::<char>::empty());
        assert(dec_str(n).last() == char_of_digit(n));
        assert(digits_val(Seq::<char>::empty()) == 0);
        assert(digits_val(dec_str(n)) == digits_val(dec_str(n).drop_last()) * 10 + digit_val(
            dec_str(n).last(),
        ));
    } else {
        lemma_digit_char_val(n % 10);
        lemma_digits_val_dec_str(n / 10);
        assert(dec_str(n).drop_last() =~= dec_str(n / 10));
        assert(dec_str(n).last() == char_of_digit(n % 10));
        assert(digits_val(dec_str(n)) == digits_val(dec_str(n).drop_last()) * 10 + digit_val(
            dec_str(n).last(),
        ));
        assert((n / 10) * 10 + n % 10 == n);
    }
}

/// Parsing is a left inverse of printing: the decimal representation of any
/// value in the `i32` range parses back to that value.
pub proof fn lemma_parse_int_str(v: int)
    requires
        -0x8000_0000 <= v <= 0x7fff_ffff,
    ensures
        parse_i32_spec(int_str(v)) == Some(v),
{
    if v < 0 {
        let m = (-v) as nat;
        lemma_dec_str_all_digits(m);
        lemma_digits_val_dec_str(m);
        let s = int_str(v);
        assert(s[0] == '-');
        assert(s.drop_first() =~= dec_str(m));
    } else {
        let m = v as nat;
        lemma_dec_str_all_digits(m);
        lemma_digits_val_dec_str(m);
        let s = int_str(v);
        assert(s =~= dec_str(m));
        assert(is_digit_char(s[0]));
        assert(s[0] != '-' && s[0] != '+');
    }
}

/// The single-character string for a decimal digit.
pub fn digit_str(d: u32) -> (r: &'static str)
    requires
        d < 10,
    ensures
        r@ == seq![char_of_digit(d as nat)],
{
    proof {
        reveal_strlit("0");
        reveal_strlit("1");
        reveal_strlit("2");
        reveal_strlit("3");
        reveal_strlit("4");
        reveal_strlit("5");
        reveal_strlit("6");
        reveal_strlit("7");
        reveal_strlit("8");
        reveal_strlit("9");
    }
    let r = match d {
        0 => "0",
        1 => "1",
        2 => "2",
        3 => "3",
        4 => "4",
        5 => "5",
        6 => "6",
        7 => "7",
        8 => "8",
        _ => "9",
    };
    proof {
        assert(r@ =~= seq![char_of_digit(d as nat)]);
    }
    r
}

/// Appends the decimal representation of `n` to `s`.
pub fn push_dec(s: &mut String, n: u32)
    ensures
        final(s)@ == old(s)@ + dec_str(n as nat),
    decreases n,
{
    if n < 10 {
        s.append(digit_str(n));
    } else {
        push_dec(s, n / 10);
        s.append(digit_str(n % 10));
        proof {
            assert(s@ =~= old(s)@ + dec_str(n as nat));
        }
    }
}

/// Appends the decimal representation of `v` to `s`, with a leading minus
/// sign for negative values.
pub fn push_i32(s: &mut String, v: i32)
    ensures
        final(s)@ == old(s)@ + int_str(v as int),
{
    proof {
        reveal_strlit("-");
    }
    if v < 0 {
        s.append("-");
        let magnitude: u32 = (-(v as i64)) as u32;
        assert(magnitude as nat == (-(v as int)) as nat);
        push_dec(s, magnitude);
        proof {
            assert("-"@ =~= seq!['-']);
            assert(s@ =~= old(s)@ + int_str(v as int));
        }
    } else {
        push_dec(s, v as u32);
    }
}

/// Parses a decimal `i32` from `s`, exactly as [`parse_i32_spec`] describes.
#[verifier::loop_isolation(false)]
pub fn parse_i32(s: &str) -> (r: Option<i32>)
    ensures
        match r {
            Some(v) => parse_i32_spec(s@) == Some(v as int),
            None => parse_i32_spec(s@) is None,
        },
{
    let n = s.unicode_len();
    let mut start: usize = 0;
    let mut negative = false;
    if n > 0 {
        let c0 = s.get_char(0);
        if c0 == '-' {
            negative = true;
            start = 1;
        } else if c0 == '+' {
            start = 1;
        }
    }
    let ghost digits: Seq<char> = if start == 1 {
        s@.drop_first()
    } else {
        s@
    };
    if start >= n {
        // no digits at all
        return None;
    }
    assert(digits.len() == n - start);
    // Saturating accumulator: values at or above `LIMIT` are clamped, and any
    // clamped prefix value keeps the whole number outside the `i32` range.
    let mut acc: u64 = 0;
    let mut i: usize = start;
    while i < n
        invariant
            start <= i <= n,
            n == s@.len(),
            digits == if start == 1 { s@.drop_first() } else { s@ },
            digits.len() == n - start,
            all_digits(digits.take(i - start)),
            acc <= 3_000_000_000,
            acc < 3_000_000_000 ==> acc as nat == digits_val(digits.take(i - start)),
            acc == 3_000_000_000 ==> digits_val(digits.take(i - start)) >= 3_000_000_000,
        decreases n - i,
    {
        let c = s.get_char(i);
        assert(c == digits[i - start]);
        if c < '0' || c > '9' {
            proof {
                assert(!is_digit_char(digits[i - start]));
                assert(!all_digits(digits));
            }
            return None;
        }
        let d: u64 = (c as u32 as u64) - ('0' as u32 as u64);
        assert(d as nat == digit_val(c));
        proof {
            assert(digits.take(i + 1 - start).drop_last() =~= digits.take(i - start));
            assert(digits.take(i + 1 - start).last() == digits[i - start]);
        }
        if acc >= 300_000_000 {
            proof {
                if acc < 3_000_000_000 {
                    assert(digits_val(digits.take(i + 1 - start)) == acc * 10 + d);
                } else {
                    assert(digits_val(digits.take(i - start)) >= 3_000_000_000);
                    assert(digits_val(digits.take(i + 1 - start)) >= 3_000_000_000 * 10);
                }
            }
            acc = 3_000_000_000;
        } else {
            acc = acc * 10 + d;
            proof {
                assert(acc as nat == digits_val(digits.take(i + 1 - start)));
            }
        }
        i += 1;
    }
    proof {
        assert(digits.take(n - start) =~= digits);
    }
    if negative {
        if acc <= 0x8000_0000 {
            let v: i32 = (-(acc as i64)) as i32;
            proof {
                assert(digits_val(digits) == acc as nat);
                assert(v as int == -(digits_val(digits) as int));
            }
            Some(v)
        } else {
            proof {
                assert(digits_val(digits) > 0x8000_0000);
            }
            None
        }
    } else {
        if acc <= 0x7fff_ffff {
            let v: i32 = acc as i32;
            Some(v)
        } else {
            proof {
                assert(digits_val(digits) > 0x7fff_ffff);
            }
            None
        }
    }
}

/// Whether `needle` occurs as a contiguous part of `hay`.
pub open spec fn appears_in(needle: Seq<char>, hay: Seq<char>) -> bool {
    exists|k: int|
        0 <= k && k + needle.len() <= hay.len() && #[trigger] hay.subrange(
            k,
            k + needle.len() as int,
        ) == needle
}

/// An occurrence at a concrete position makes [`appears_in`] hold.
pub proof fn lemma_appears_at(needle: Seq<char>, hay: Seq<char>, k: int)
    requires
        0 <= k,
        k + needle.len() <= hay.len(),
        hay.subrange(k, k + needle.len() as int) == needle,
    ensures
        appears_in(needle, hay),
{
}

/// What appears in `a` appears in `a + b`.
pub proof fn lemma_appears_in_concat_left(needle: Seq<char>, a: Seq<char>, b: Seq<char>)
    requires
        appears_in(needle, a),
    ensures
        appears_in(needle, a + b),
{
    let k = choose|k: int|
        0 <= k && k + needle.len() <= a.len() && #[trigger] a.subrange(k, k + needle.len() as int)
            == needle;
    assert((a + b).subrange(k, k + needle.len() as int) =~= a.subrange(k, k + needle.len() as int));
    lemma_appears_at(needle, a + b, k);
}

/// What appears in `b` appears in `a + b`.
pub proof fn lemma_appears_in_concat_right(needle: Seq<char>, a: Seq<char>, b: Seq<char>)
    requires
        appears_in(needle, b),
    ensures
        appears_in(needle, a + b),
{
    let k = choose|k: int|
        0 <= k && k + needle.len() <= b.len() && #[trigger] b.subrange(k, k + needle.len() as int)
            == needle;
    assert((a + b).subrange(a.len() + k, a.len() + k + needle.len() as int) =~= b.subrange(
        k,
        k + needle.len() as int,
    ));
    lemma_appears_at(needle, a + b, a.len() + k);
}

/// `s` with its leading and trailing spaces removed.
pub open spec fn trim_spec(s: Seq<char>) -> Seq<char>
    decreases s.len(),
{
    if s.len() == 0 {
        s
    } else if s[0] == ' ' {
        trim_spec(s.drop_first())
    } else if s.last() == ' ' {
        trim_spec(s.drop_last())
    } else {
        s
    }
}

/// Removes leading and trailing spaces from `s`, exactly as [`trim_spec`]
/// describes.
#[verifier::loop_isolation(false)]
pub fn trim(s: &str) -> (r: String)
    ensures
        r@ == trim_spec(s@),
{
    let n = s.unicode_len();
    let mut start: usize = 0;
    proof {
        assert(s@.subrange(0, n as int) =~= s@);
    }
    while start < n && s.get_char(start) == ' '
        invariant
            0 <= start <= n,
            n == s@.len(),
            trim_spec(s@) == trim_spec(s@.subrange(start as int, n as int)),
        decreases n - start,
    {
        proof {
            assert(s@.subrange(start as int, n as int).drop_first() =~= s@.subrange(
                start + 1,
                n as int,
            ));
        }
        start += 1;
    }
    let mut end: usize = n;
    while end > start && s.get_char(end - 1) == ' '
        invariant
            start <= end <= n,
            trim_spec(s@) == trim_spec(s@.subrange(start as int, end as int)),
        decreases end,
    {
        proof {
            let part = s@.subrange(start as int, end as int);
            assert(part[0] != ' ');
            assert(part.last() == ' ');
            assert(part.drop_last() =~= s@.subrange(start as int, end - 1));
        }
        end -= 1;
    }
    let piece = s.substring_char(start, end);
    proof {
        let part = s@.subrange(start as int, end as int);
        assert(trim_spec(part) == part);
    }
    piece.to_owned()
}

/// How one character appears inside a JSON string literal: quotes and
/// backslashes are escaped with a backslash, everything else stands as it is.
pub open spec fn escaped_char(c: char) -> Seq<char> {
    if c == '"' {
        seq!['\\', '"']
    } else if c == '\\' {
        seq!['\\', '\\']
    } else {
        seq![c]
    }
}

/// How `s` appears inside a JSON string literal.
pub open spec fn json_escape(s: Seq<char>) -> Seq<char>
    decreases s.len(),
{
    if s.len() == 0 {
        Seq::empty()
    } else {
        json_escape(s.drop_last()) + escaped_char(s.last())
    }
}

/// Appends `s` to `out`, escaped as [`json_escape`] describes.
#[verifier::loop_isolation(false)]
pub fn append_escaped(out: &mut String, s: &str)
    ensures
        final(out)@ == old(out)@ + json_escape(s@),
{
    proof {
        reveal_strlit("\\\"");
        reveal_strlit("\\\\");
    }
    let n = s.unicode_len();
    let mut i: usize = 0;
    proof {
        assert(s@.take(0) =~= Seq::<char>::empty());
        assert(out@ =~= old(out)@ + json_escape(s@.take(0)));
    }
    while i < n
        invariant
            0 <= i <= n,
            n == s@.len(),
            out@ == old(out)@ + json_escape(s@.take(i as int)),
        decreases n - i,
    {
        let c = s.get_char(i);
        proof {
            assert(s@.take(i + 1).drop_last() =~= s@.take(i as int));
            assert(s@.take(i + 1).last() == s@[i as int]);
        }
        if c == '"' {
            out.append("\\\"");
            proof {
                assert("\\\""@ =~= escaped_char(c));
            }
        } else if c == '\\' {
            out.append("\\\\");
            proof {
                assert("\\\\"@ =~= escaped_char(c));
            }
        } else {
            let piece = s.substring_char(i, i + 1);
            out.append(piece);
            proof {
                assert(piece@ =~= escaped_char(c));
            }
        }
        i += 1;
    }
    proof {
        assert(s@.take(n as int) =~= s@);
    }
}

} // verus!
