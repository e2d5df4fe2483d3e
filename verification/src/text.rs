//! Verified text helpers.
//!
//! Decimal rendering of the crate's fixed-point quantities (thousandths of a
//! unit), digit parsing, ASCII case folding for the user-facing `from_str`
//! parsers, and small string utilities. Every function's output is pinned to
//! a recursive specification over character sequences.

use vstd::prelude::*;
use vstd::string::StringSliceAdditionalSpecFns;

verus! {

pub open spec fn digit_char(d: int) -> char {
    if d == 0 {
        '0'
    } else if d == 1 {
        '1'
    } else if d == 2 {
        '2'
    } else if d == 3 {
        '3'
    } else if d == 4 {
        '4'
    } else if d == 5 {
        '5'
    } else if d == 6 {
        '6'
    } else if d == 7 {
        '7'
    } else if d == 8 {
        '8'
    } else {
        '9'
    }
}

/// Decimal digits of a non-negative integer, most significant first.
pub open spec fn spec_digits(n: int) -> Seq<char>
    decreases n,
{
    if n < 10 {
        seq![digit_char(n)]
    } else {
        spec_digits(n / 10).push(digit_char(n % 10))
    }
}

/// Decimal rendering of an integer, with a leading minus sign if negative.
pub open spec fn spec_int_str(n: int) -> Seq<char> {
    if n < 0 {
        seq!['-'] + spec_digits(-n)
    } else {
        spec_digits(n)
    }
}

fn digit_str(d: u64) -> (r: &'static str)
    requires
        d < 10,
    ensures
        r@ =~= seq![digit_char(d as int)],
        r@.len() == 1,
{
    proof {
        reveal_strlit("0");
        reveal_strlit("1");
        reveal_strlit("2");
        reveal_strlit("3");
        reveal_strlit("4");
        reveal_strlit("5");
        reveal_strlit("6");
        reveal_strlit("7");
        reveal_strlit("8");
        reveal_strlit("9");
    }
    match d {
        0 => "0",
        1 => "1",
        2 => "2",
        3 => "3",
        4 => "4",
        5 => "5",
        6 => "6",
        7 => "7",
        8 => "8",
        _ => "9",
    }
}

/// Render a non-negative integer in decimal.
pub fn fmt_u64(n: u64) -> (r: String)
    ensures
        r@ == spec_digits(n as int),
    decreases n,
{
    if n < 10 {
        digit_str(n).to_owned()
    } else {
        let mut s = fmt_u64(n / 10);
        s.append(digit_str(n % 10));
        proof {
            assert(spec_digits(n as int) =~= spec_digits(n as int / 10) + seq![
                digit_char(n as int % 10),
            ]);
        }
        s
    }
}

/// Render an integer in decimal, with a minus sign if negative.
pub fn fmt_i64(n: i64) -> (r: String)
    requires
        n > i64::MIN,
    ensures
        r@ == spec_int_str(n as int),
{
    if n < 0 {
        let mut s = String::from_str("-");
        proof {
            reveal_strlit("-");
        }
        s.append(fmt_u64((-n) as u64).as_str());
        proof {
            assert(s@ =~= seq!['-'] + spec_digits(-(n as int)));
        }
        s
    } else {
        fmt_u64(n as u64)
    }
}

/// A number in thousandths, rendered with one decimal place; the thousandths
/// are rounded half-up (on the magnitude) to tenths, and a minus sign is
/// kept whenever the input was negative.
pub open spec fn spec_milli_1(x: int) -> Seq<char> {
    let a = if x < 0 {
        -x
    } else {
        x
    };
    let t = (a + 50) / 100;
    let sign: Seq<char> = if x < 0 {
        seq!['-']
    } else {
        Seq::empty()
    };
    sign + spec_digits(t / 10) + seq!['.', digit_char(t % 10)]
}

/// A number in thousandths, rendered with no decimal places (rounded
/// half-up on the magnitude).
pub open spec fn spec_milli_0(x: int) -> Seq<char> {
    let a = if x < 0 {
        -x
    } else {
        x
    };
    let sign: Seq<char> = if x < 0 {
        seq!['-']
    } else {
        Seq::empty()
    };
    sign + spec_digits((a + 500) / 1000)
}

/// A number in thousandths, rendered with two decimal places (rounded
/// half-up on the magnitude).
pub open spec fn spec_milli_2(x: int) -> Seq<char> {
    let a = if x < 0 {
        -x
    } else {
        x
    };
    let t = (a + 5) / 10;
    let sign: Seq<char> = if x < 0 {
        seq!['-']
    } else {
        Seq::empty()
    };
    sign + spec_digits(t / 100) + seq!['.', digit_char(t / 10 % 10), digit_char(t % 10)]
}

pub const MILLI_FMT_MAX: i64 = 1000000000000;

/// Render thousandths with one decimal place, as `{:.1}` does for the same
/// quantity.
pub fn fmt_milli_1(x: i64) -> (r: String)
    requires
        -MILLI_FMT_MAX <= x <= MILLI_FMT_MAX,
    ensures
        r@ == spec_milli_1(x as int),
{
    let a: i64 = if x < 0 {
        -x
    } else {
        x
    };
    let t: i64 = (a + 50) / 100;
    let mut s = if x < 0 {
        let mut m = String::from_str("-");
        proof {
            reveal_strlit("-");
        }
        m
    } else {
        String::new()
    };
    s.append(fmt_u64((t / 10) as u64).as_str());
    s.append(".");
    proof {
        reveal_strlit(".");
    }
    s.append(digit_str((t % 10) as u64));
    proof {
        assert(s@ =~= spec_milli_1(x as int));
    }
    s
}

/// Render thousandths with no decimal places, as `{:.0}` does.
pub fn fmt_milli_0(x: i64) -> (r: String)
    requires
        -MILLI_FMT_MAX <= x <= MILLI_FMT_MAX,
    ensures
        r@ == spec_milli_0(x as int),
{
    let a: i64 = if x < 0 {
        -x
    } else {
        x
    };
    let t: i64 = (a + 500) / 1000;
    let mut s = if x < 0 {
        let mut m = String::from_str("-");
        proof {
            reveal_strlit("-");
        }
        m
    } else {
        String::new()
    };
    s.append(fmt_u64(t as u64).as_str());
    proof {
        assert(s@ =~= spec_milli_0(x as int));
    }
    s
}

/// Render thousandths with two decimal places, as `{:.2}` does.
pub fn fmt_milli_2(x: i64) -> (r: String)
    requires
        -MILLI_FMT_MAX <= x <= MILLI_FMT_MAX,
    ensures
        r@ == spec_milli_2(x as int),
{
    let a: i64 = if x < 0 {
        -x
    } else {
        x
    };
    let t: i64 = (a + 5) / 10;
    let mut s = if x < 0 {
        let mut m = String::from_str("-");
        proof {
            reveal_strlit("-");
        }
        m
    } else {
        String::new()
    };
    s.append(fmt_u64((t / 100) as u64).as_str());
    s.append(".");
    proof {
        reveal_strlit(".");
    }
    s.append(digit_str((t / 10 % 10) as u64));
    s.append(digit_str((t % 10) as u64));
    proof {
        assert(s@ =~= spec_milli_2(x as int));
    }
    s
}

/// A number in thousandths rendered like the default rendering of the
/// corresponding decimal: no fractional part when it is zero, and no
/// trailing zeros otherwise.
pub open spec fn spec_milli_trim(x: int) -> Seq<char> {
    let a = if x < 0 {
        -x
    } else {
        x
    };
    let sign: Seq<char> = if x < 0 {
        seq!['-']
    } else {
        Seq::empty()
    };
    let f = a % 1000;
    if f == 0 {
        sign + spec_digits(a / 1000)
    } else if f % 100 == 0 {
        sign + spec_digits(a / 1000) + seq!['.', digit_char(f / 100)]
    } else if f % 10 == 0 {
        sign + spec_digits(a / 1000) + seq!['.', digit_char(f / 100), digit_char(f / 10 % 10)]
    } else {
        sign + spec_digits(a / 1000) + seq![
            '.',
            digit_char(f / 100),
            digit_char(f / 10 % 10),
            digit_char(f % 10),
        ]
    }
}

/// Render thousandths with the shortest exact decimal expansion.
pub fn fmt_milli_trim(x: i64) -> (r: String)
    requires
        -MILLI_FMT_MAX <= x <= MILLI_FMT_MAX,
    ensures
        r@ == spec_milli_trim(x as int),
{
    let a: i64 = if x < 0 {
        -x
    } else {
        x
    };
    let mut s = if x < 0 {
        let mut m = String::from_str("-");
        proof {
            reveal_strlit("-");
        }
        m
    } else {
        String::new()
    };
    s.append(fmt_u64((a / 1000) as u64).as_str());
    let f: i64 = a % 1000;
    if f != 0 {
        s.append(".");
        proof {
            reveal_strlit(".");
        }
        s.append(digit_str((f / 100) as u64));
        if f % 100 != 0 {
            s.append(digit_str((f / 10 % 10) as u64));
            if f % 10 != 0 {
                s.append(digit_str((f % 10) as u64));
            }
        }
    }
    proof {
        assert(s@ =~= spec_milli_trim(x as int));
    }
    s
}

/// Two-digit zero-padded rendering of a number below 100.
pub open spec fn spec_two_digits(n: int) -> Seq<char> {
    seq![digit_char(n / 10), digit_char(n % 10)]
}

pub fn fmt_two_digits(n: u64) -> (r: String)
    requires
        n < 100,
    ensures
        r@ == spec_two_digits(n as int),
{
    let mut s = digit_str(n / 10).to_owned();
    s.append(digit_str(n % 10));
    proof {
        assert(s@ =~= spec_two_digits(n as int));
    }
    s
}

/// Exact string equality.
pub fn str_eq(a: &str, b: &str) -> (r: bool)
    ensures
        r == (a@ == b@),
{
    let x = String::from_str(a);
    let y = String::from_str(b);
    x == y
}

/// ASCII lower-casing of a single character.
pub open spec fn spec_fold_char(c: char) -> char {
    if c == 'A' {
        'a'
    } else if c == 'B' {
        'b'
    } else if c == 'C' {
        'c'
    } else if c == 'D' {
        'd'
    } else if c == 'E' {
        'e'
    } else if c == 'F' {
        'f'
    } else if c == 'G' {
        'g'
    } else if c == 'H' {
        'h'
    } else if c == 'I' {
        'i'
    } else if c == 'J' {
        'j'
    } else if c == 'K' {
        'k'
    } else if c == 'L' {
        'l'
    } else if c == 'M' {
        'm'
    } else if c == 'N' {
        'n'
    } else if c == 'O' {
        'o'
    } else if c == 'P' {
        'p'
    } else if c == 'Q' {
        'q'
    } else if c == 'R' {
        'r'
    } else if c == 'S' {
        's'
    } else if c == 'T' {
        't'
    } else if c == 'U' {
        'u'
    } else if c == 'V' {
        'v'
    } else if c == 'W' {
        'w'
    } else if c == 'X' {
        'x'
    } else if c == 'Y' {
        'y'
    } else if c == 'Z' {
        'z'
    } else {
        c
    }
}

pub fn fold_char(c: char) -> (r: char)
    ensures
        r == spec_fold_char(c),
{
    match c {
        'A' => 'a',
        'B' => 'b',
        'C' => 'c',
        'D' => 'd',
        'E' => 'e',
        'F' => 'f',
        'G' => 'g',
        'H' => 'h',
        'I' => 'i',
        'J' => 'j',
        'K' => 'k',
        'L' => 'l',
        'M' => 'm',
        'N' => 'n',
        'O' => 'o',
        'P' => 'p',
        'Q' => 'q',
        'R' => 'r',
        'S' => 's',
        'T' => 't',
        'U' => 'u',
        'V' => 'v',
        'W' => 'w',
        'X' => 'x',
        'Y' => 'y',
        'Z' => 'z',
        _ => c,
    }
}

/// ASCII lower-casing of a whole sequence; when `strip` is set, hyphens and
/// spaces are dropped as well.
pub open spec fn spec_folded(s: Seq<char>, strip: bool) -> Seq<char>
    decreases s.len(),
{
    if s.len() == 0 {
        Seq::empty()
    } else if strip && (s.last() == '-' || s.last() == ' ') {
        spec_folded(s.drop_last(), strip)
    } else {
        spec_folded(s.drop_last(), strip).push(spec_fold_char(s.last()))
    }
}

proof fn lemma_folded_prefix(s: Seq<char>, i: int, strip: bool)
    requires
        0 <= i <= s.len(),
    ensures
        spec_folded(s.subrange(0, i), strip).is_prefix_of(spec_folded(s, strip)),
    decreases s.len() - i,
{
    if i == s.len() {
        assert(s.subrange(0, i) =~= s);
    } else {
        lemma_folded_prefix(s, i + 1, strip);
        let t = s.subrange(0, i + 1);
        assert(t.drop_last() =~= s.subrange(0, i));
        assert(spec_folded(s.subrange(0, i), strip).is_prefix_of(spec_folded(t, strip)));
    }
}

/// Whether lower-casing `s` (and, when `strip` is set, dropping hyphens and
/// spaces) yields exactly `target`.
pub fn folded_matches(s: &str, target: &str, strip: bool) -> (r: bool)
    ensures
        r == (spec_folded(s@, strip) == target@),
{
    let s_len = s.unicode_len();
    let t_len = target.unicode_len();
    let mut i: usize = 0;
    let mut j: usize = 0;
    while i < s_len
        invariant
            0 <= i <= s_len == s@.len(),
            0 <= j <= t_len == target@.len(),
            spec_folded(s@.subrange(0, i as int), strip) =~= target@.subrange(0, j as int),
        decreases s_len - i,
    {
        let c = fold_char(s.get_char(i));
        let skip = strip && (c == '-' || c == ' ');
        proof {
            let t = s@.subrange(0, i + 1);
            assert(t.drop_last() =~= s@.subrange(0, i as int));
        }
        if !skip {
            if j >= t_len {
                proof {
                    lemma_folded_prefix(s@, i + 1, strip);
                    assert(spec_folded(s@, strip).len() >= spec_folded(
                        s@.subrange(0, i + 1),
                        strip,
                    ).len());
                }
                return false;
            }
            if c != target.get_char(j) {
                proof {
                    lemma_folded_prefix(s@, i + 1, strip);
                    let p = spec_folded(s@.subrange(0, i + 1), strip);
                    assert(p[j as int] == spec_fold_char(s@[i as int]));
                    assert(spec_folded(s@, strip)[j as int] == p[j as int]);
                }
                return false;
            }
            proof {
                assert(target@.subrange(0, j + 1) =~= target@.subrange(0, j as int).push(
                    target@[j as int],
                ));
            }
            j = j + 1;
        }
        i = i + 1;
    }
    proof {
        assert(s@.subrange(0, s_len as int) =~= s@);
        if j == t_len {
            assert(target@.subrange(0, t_len as int) =~= target@);
        } else {
            assert(target@.subrange(0, j as int).len() < target@.len());
        }
    }
    j == t_len
}

pub open spec fn is_digit(c: char) -> bool {
    c == '0' || c == '1' || c == '2' || c == '3' || c == '4' || c == '5' || c == '6' || c == '7'
        || c == '8' || c == '9'
}

pub open spec fn digit_val(c: char) -> int {
    if c == '0' {
        0
    } else if c == '1' {
        1
    } else if c == '2' {
        2
    } else if c == '3' {
        3
    } else if c == '4' {
        4
    } else if c == '5' {
        5
    } else if c == '6' {
        6
    } else if c == '7' {
        7
    } else if c == '8' {
        8
    } else {
        9
    }
}

pub open spec fn all_digits(s: Seq<char>) -> bool {
    forall|i: int| 0 <= i < s.len() ==> is_digit(#[trigger] s[i])
}

/// Value of a sequence of decimal digits, most significant first.
pub open spec fn digits_val(s: Seq<char>) -> int
    decreases s.len(),
{
    if s.len() == 0 {
        0
    } else {
        digits_val(s.drop_last()) * 10 + digit_val(s.last())
    }
}

proof fn lemma_digits_val_nonneg(s: Seq<char>)
    ensures
        digits_val(s) >= 0,
    decreases s.len(),
{
    if s.len() > 0 {
        lemma_digits_val_nonneg(s.drop_last());
    }
}

/// Parse a non-negative whole number no greater than `bound`.
pub fn parse_u64(s: &str, bound: u64) -> (r: Option<u64>)
    ensures
        r is Some <==> s@.len() > 0 && all_digits(s@) && digits_val(s@) <= bound,
        r is Some ==> r->0 == digits_val(s@),
{
    let len = s.unicode_len();
    if len == 0 {
        return None;
    }
    let mut v: u64 = 0;
    let mut i: usize = 0;
    while i < len
        invariant
            0 <= i <= len == s@.len(),
            all_digits(s@.subrange(0, i as int)),
            v == digits_val(s@.subrange(0, i as int)),
            v <= bound,
            bound <= u64::MAX,
        decreases len - i,
    {
        let c = s.get_char(i);
        let d: u64 = match c {
            '0' => 0,
            '1' => 1,
            '2' => 2,
            '3' => 3,
            '4' => 4,
            '5' => 5,
            '6' => 6,
            '7' => 7,
            '8' => 8,
            '9' => 9,
            _ => {
                proof {
                    assert(!is_digit(s@[i as int]));
                }
                return None;
            },
        };
        proof {
            assert(s@.subrange(0, i + 1).drop_last() =~= s@.subrange(0, i as int));
        }
        if v > bound / 10 || d > bound - v * 10 {
            proof {
                assert(v * 10 + d > bound) by {
                    if v > bound / 10 {
                        assert(v * 10 >= (bound / 10 + 1) * 10) by (nonlinear_arith)
                            requires
                                v >= bound / 10 + 1,
                        ;
                    }
                }
                assert(digits_val(s@.subrange(0, i + 1)) > bound);
                if all_digits(s@) {
                    lemma_digits_val_prefix_le(s@, i + 1);
                }
            }
            return None;
        }
        v = v * 10 + d;
        i = i + 1;
    }
    proof {
        assert(s@.subrange(0, len as int) =~= s@);
    }
    Some(v)
}

/// If a digit string's prefix already exceeds a bound, so does the whole.
proof fn lemma_digits_val_prefix_le(s: Seq<char>, i: int)
    requires
        0 <= i <= s.len(),
        all_digits(s),
    ensures
        digits_val(s.subrange(0, i)) <= digits_val(s),
    decreases s.len() - i,
{
    if i < s.len() {
        lemma_digits_val_prefix_le(s, i + 1);
        let t = s.subrange(0, i + 1);
        assert(t.drop_last() =~= s.subrange(0, i));
        assert(t.last() == s[i]);
        lemma_digits_val_nonneg(s.subrange(0, i));
        assert(digits_val(t) == digits_val(s.subrange(0, i)) * 10 + digit_val(s[i]));
    } else {
        assert(s.subrange(0, i) =~= s);
    }
}

/// Shorten a string to at most `max_len` characters, replacing the removed
/// tail with an ellipsis, as the applications table does for long notes.
pub fn truncate(s: &str, max_len: usize) -> (r: String)
    requires
        s.is_ascii(),
        s@.len() > max_len ==> max_len >= 3,
    ensures
        r@ == if s@.len() <= max_len {
            s@
        } else {
            s@.subrange(0, max_len - 3) + "..."@
        },
{
    if s.unicode_len() <= max_len {
        s.to_owned()
    } else {
        let head = s.substring_ascii(0, max_len - 3);
        let r = head.to_owned().concat("...");
        proof {
            assert(r@ =~= s@.subrange(0, max_len - 3) + "..."@);
        }
        r
    }
}

} // verus!
