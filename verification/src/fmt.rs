//! Verified plain-text formatting: decimal rendering of integers, space
//! padding, and the fixed-width time and tempo fields of a trace line.

use vstd::prelude::*;
use vstd::string::StrSliceExecFns;
use vstd::string::StringExecFns;

verus! {

/// The decimal digit character for `d` (meaningful for `0 <= d < 10`).
pub open spec fn digit_char(d: int) -> char {
    if d == 0 {
        '0'
    } else if d == 1 {
        '1'
    } else if d == 2 {
        '2'
    } else if d == 3 {
        '3'
    } else if d == 4 {
        '4'
    } else if d == 5 {
        '5'
    } else if d == 6 {
        '6'
    } else if d == 7 {
        '7'
    } else if d == 8 {
        '8'
    } else {
        '9'
    }
}

/// The digits of `n` in base ten, most significant first; empty for `n <= 0`.
pub open spec fn dec_digits(n: int) -> Seq<char>
    decreases n,
{
    if n <= 0 {
        Seq::empty()
    } else {
        dec_digits(n / 10).push(digit_char(n % 10))
    }
}

/// The usual decimal rendering of an integer: `0` is `"0"`, negative numbers
/// carry a leading minus sign.
pub open spec fn dec_str(n: int) -> Seq<char> {
    if n == 0 {
        seq!['0']
    } else if n < 0 {
        seq!['-'] + dec_digits(-n)
    } else {
        dec_digits(n)
    }
}

fn digit_str(d: u64) -> (r: &'static str)
    requires
        d < 10,
    ensures
        r@ == seq![digit_char(d as int)],
{
    let r: &'static str = match d {
        0 => "0",
        1 => "1",
        2 => "2",
        3 => "3",
        4 => "4",
        5 => "5",
        6 => "6",
        7 => "7",
        8 => "8",
        _ => "9",
    };
    proof {
        reveal_strlit("0");
        reveal_strlit("1");
        reveal_strlit("2");
        reveal_strlit("3");
        reveal_strlit("4");
        reveal_strlit("5");
        reveal_strlit("6");
        reveal_strlit("7");
        reveal_strlit("8");
        reveal_strlit("9");
        assert(r@ =~= seq![digit_char(d as int)]);
    }
    r
}

fn push_digits(n: u64, out: &mut String)
    ensures
        final(out)@ == old(out)@ + dec_digits(n as int),
    decreases n,
{
    if n == 0 {
        proof {
            assert(out@ =~= out@ + dec_digits(0));
        }
        return;
    }
    push_digits(n / 10, out);
    out.append(digit_str(n % 10));
    proof {
        assert(out@ =~= old(out)@ + dec_digits(n as int));
    }
}

/// Renders an unsigned number in decimal.
pub fn u64_to_string(n: u64) -> (r: String)
    ensures
        r@ == dec_str(n as int),
{
    let mut s = String::new();
    if n == 0 {
        s.append("0");
        proof {
            reveal_strlit("0");
            assert(s@ =~= dec_str(0));
        }
    } else {
        push_digits(n, &mut s);
        proof {
            assert(s@ =~= dec_str(n as int));
        }
    }
    s
}

/// A run of `n` spaces (empty for `n <= 0`).
pub open spec fn spaces(n: int) -> Seq<char>
    decreases n,
{
    if n <= 0 {
        Seq::empty()
    } else {
        spaces(n - 1).push(' ')
    }
}

/// `s` right-aligned in a field of width `w`: spaces are put in front of a
/// shorter text, a longer text is kept whole.
pub open spec fn pad_left_view(s: Seq<char>, w: int) -> Seq<char> {
    if s.len() >= w {
        s
    } else {
        spaces(w - s.len()) + s
    }
}

/// `s` left-aligned in a field of width `w`: spaces are put after a shorter
/// text, a longer text is kept whole.
pub open spec fn pad_right_view(s: Seq<char>, w: int) -> Seq<char> {
    if s.len() >= w {
        s
    } else {
        s + spaces(w - s.len())
    }
}

/// Right-aligns `s` in a field of `w` characters.
pub fn pad_left(s: &str, w: usize) -> (r: String)
    ensures
        r@ == pad_left_view(s@, w as int),
{
    let n = s.unicode_len();
    let mut r = String::new();
    let mut i: usize = n;
    while i < w
        invariant
            n <= i,
            i <= w || i == n,
            n == s@.len(),
            r@ == spaces(i - n),
        decreases w - i,
    {
        r.append(" ");
        proof {
            reveal_strlit(" ");
            assert(r@ =~= spaces(i + 1 - n));
        }
        i = i + 1;
    }
    r.append(s);
    proof {
        assert(r@ =~= pad_left_view(s@, w as int));
    }
    r
}

/// Left-aligns `s` in a field of `w` characters.
pub fn pad_right(s: &str, w: usize) -> (r: String)
    ensures
        r@ == pad_right_view(s@, w as int),
{
    let n = s.unicode_len();
    let mut r = String::new();
    r.append(s);
    let mut i: usize = n;
    while i < w
        invariant
            n <= i,
            i <= w || i == n,
            n == s@.len(),
            r@ == s@ + spaces(i - n),
        decreases w - i,
    {
        r.append(" ");
        proof {
            reveal_strlit(" ");
            assert(r@ =~= s@ + spaces(i + 1 - n));
        }
        i = i + 1;
    }
    proof {
        assert(s@ + spaces(0) =~= s@);
        assert(r@ =~= pad_right_view(s@, w as int));
    }
    r
}

/// Renders a signed number in decimal.
pub fn i32_to_string(n: i32) -> (r: String)
    ensures
        r@ == dec_str(n as int),
{
    if n >= 0 {
        let r = u64_to_string(n as u64);
        proof {
            assert(r@ =~= dec_str(n as int));
        }
        r
    } else {
        let wide: i64 = n as i64;
        let mag: u64 = (-wide) as u64;
        let mut s = String::new();
        s.append("-");
        push_digits(mag, &mut s);
        proof {
            reveal_strlit("-");
            assert(s@ =~= dec_str(n as int));
        }
        s
    }
}

/// Renders an unsigned number right-aligned in a field of `w` characters.
pub fn pad_u64(n: u64, w: usize) -> (r: String)
    ensures
        r@ == pad_left_view(dec_str(n as int), w as int),
{
    let s = u64_to_string(n);
    pad_left(s.as_str(), w)
}

/// Renders a signed number right-aligned in a field of `w` characters.
pub fn pad_i32(n: i32, w: usize) -> (r: String)
    ensures
        r@ == pad_left_view(dec_str(n as int), w as int),
{
    let s = i32_to_string(n);
    pad_left(s.as_str(), w)
}

/// A millisecond count rendered as exactly three digits, zero-padded
/// (meaningful for `0 <= ms < 1000`).
pub open spec fn milli_frac(ms: int) -> Seq<char> {
    seq![digit_char(ms / 100 % 10), digit_char(ms / 10 % 10), digit_char(ms % 10)]
}

/// The elapsed-time column: seconds with three decimals (milliseconds,
/// truncated from microseconds), right-aligned to ten characters.
pub open spec fn elapsed_view(us: int) -> Seq<char> {
    pad_left_view(dec_str(us / 1000000) + "."@ + milli_frac(us / 1000 % 1000), 10)
}

/// Renders the elapsed-time column for a time of `us` microseconds.
pub fn format_elapsed(us: u64) -> (r: String)
    ensures
        r@ == elapsed_view(us as int),
{
    let secs: u64 = us / 1000000;
    let ms: u64 = us / 1000 % 1000;
    let mut body = u64_to_string(secs);
    body.append(".");
    body.append(digit_str(ms / 100));
    body.append(digit_str(ms / 10 % 10));
    body.append(digit_str(ms % 10));
    proof {
        assert(body@ =~= dec_str(us as int / 1000000) + "."@ + milli_frac(us as int / 1000 % 1000));
    }
    let r = pad_left(body.as_str(), 10);
    proof {
        assert(r@ =~= elapsed_view(us as int));
    }
    r
}

/// A tempo in tenths of a beat per minute, rendered with one decimal.
pub open spec fn bpm_view(tenths: int) -> Seq<char> {
    dec_str(tenths / 10) + "."@ + seq![digit_char(tenths % 10)]
}

/// Renders a tempo given in tenths of a beat per minute (`1205` becomes
/// `"120.5"`).
pub fn format_bpm(tenths: u64) -> (r: String)
    ensures
        r@ == bpm_view(tenths as int),
{
    let mut body = u64_to_string(tenths / 10);
    body.append(".");
    body.append(digit_str(tenths % 10));
    proof {
        assert(body@ =~= bpm_view(tenths as int));
    }
    body
}

} // verus!
