//! Verified string helpers: decimal rendering and parsing, equality on
//! string slices, joining, and zero-padded numbers for dates.

use vstd::prelude::*;
use vstd::string::StrSliceExecFns;
use vstd::string::StringExecFns;

verus! {

broadcast use vstd::seq_lib::group_seq_properties;

/// The decimal digit character for a value below ten.
pub open spec fn dec_digit(d: nat) -> char {
    if d == 0 {
        '0'
    } else if d == 1 {
        '1'
    } else if d == 2 {
        '2'
    } else if d == 3 {
        '3'
    } else if d == 4 {
        '4'
    } else if d == 5 {
        '5'
    } else if d == 6 {
        '6'
    } else if d == 7 {
        '7'
    } else if d == 8 {
        '8'
    } else {
        '9'
    }
}

/// The decimal rendering of a natural number, without sign or padding.
pub open spec fn dec_of(n: nat) -> Seq<char>
    decreases n,
{
    if n < 10 {
        seq![dec_digit(n)]
    } else {
        dec_of(n / 10).push(dec_digit(n % 10))
    }
}

/// The decimal rendering of an integer: a leading minus sign when negative.
pub open spec fn dec_int_of(n: int) -> Seq<char> {
    if n < 0 {
        seq!['-'] + dec_of((-n) as nat)
    } else {
        dec_of(n as nat)
    }
}

fn digit_str(d: u64) -> (r: &'static str)
    requires
        d < 10,
    ensures
        r@ == seq![dec_digit(d as nat)],
{
    let r: &'static str = if d == 0 {
        "0"
    } else if d == 1 {
        "1"
    } else if d == 2 {
        "2"
    } else if d == 3 {
        "3"
    } else if d == 4 {
        "4"
    } else if d == 5 {
        "5"
    } else if d == 6 {
        "6"
    } else if d == 7 {
        "7"
    } else if d == 8 {
        "8"
    } else {
        "9"
    };
    proof {
        reveal_strlit("0");
        reveal_strlit("1");
        reveal_strlit("2");
        reveal_strlit("3");
        reveal_strlit("4");
        reveal_strlit("5");
        reveal_strlit("6");
        reveal_strlit("7");
        reveal_strlit("8");
        reveal_strlit("9");
        assert(r@ =~= seq![dec_digit(d as nat)]);
    }
    r
}

/// Renders an unsigned number in decimal.
pub fn u64_to_string(n: u64) -> (r: String)
    ensures
        r@ == dec_of(n as nat),
    decreases n,
{
    if n < 10 {
        digit_str(n).to_owned()
    } else {
        let mut s = u64_to_string(n / 10);
        s.append(digit_str(n % 10));
        s
    }
}

/// Renders a signed 32-bit number in decimal, with a minus sign when negative.
pub fn i32_to_string(h: i32) -> (r: String)
    ensures
        r@ == dec_int_of(h as int),
{
    if h >= 0 {
        u64_to_string(h as u64)
    } else {
        let magnitude: u64 = (-(h as i64)) as u64;
        let mut s = "-".to_owned();
        proof {
            reveal_strlit("-");
            assert(s@ =~= seq!['-']);
        }
        s.append(u64_to_string(magnitude).as_str());
        s
    }
}

/// Whether a character is a decimal digit.
pub open spec fn is_dec_digit(c: char) -> bool {
    '0' <= c && c <= '9'
}

/// The value of a decimal digit character.
pub open spec fn digit_val(c: char) -> nat {
    (c as u32 - '0' as u32) as nat
}

/// Whether every character of the sequence is a decimal digit.
pub open spec fn all_dec_digits(s: Seq<char>) -> bool {
    forall|i: int| 0 <= i < s.len() ==> is_dec_digit(#[trigger] s[i])
}

/// The numeric value of a sequence of decimal digit characters.
pub open spec fn dec_val(s: Seq<char>) -> nat
    decreases s.len(),
{
    if s.len() == 0 {
        0
    } else {
        dec_val(s.drop_last()) * 10 + digit_val(s.last())
    }
}

/// The digits of a decimal literal: an optional single leading plus sign
/// is accepted and skipped, as the standard library's integer parsing does.
pub open spec fn unsigned_digits_of(s: Seq<char>) -> Seq<char> {
    if s.len() > 0 && s[0] == '+' {
        s.drop_first()
    } else {
        s
    }
}

/// What parsing an unsigned 64-bit decimal literal returns: the value of
/// the digits when the text is well-formed and the value fits, else nothing.
pub open spec fn parse_u64_of(s: Seq<char>) -> Option<u64> {
    let d = unsigned_digits_of(s);
    if d.len() == 0 || !all_dec_digits(d) || dec_val(d) > u64::MAX {
        None
    } else {
        Some(dec_val(d) as u64)
    }
}

/// What parsing an unsigned 16-bit decimal literal returns.
pub open spec fn parse_u16_of(s: Seq<char>) -> Option<u16> {
    let d = unsigned_digits_of(s);
    if d.len() == 0 || !all_dec_digits(d) || dec_val(d) > u16::MAX {
        None
    } else {
        Some(dec_val(d) as u16)
    }
}

/// The value of a digit sequence never shrinks as more digits are appended.
proof fn lemma_dec_val_take_le(s: Seq<char>, i: int)
    requires
        0 <= i <= s.len(),
    ensures
        dec_val(s.take(i)) <= dec_val(s),
    decreases s.len() - i,
{
    if i < s.len() {
        assert(s.take(i + 1).drop_last() =~= s.take(i));
        assert(dec_val(s.take(i + 1)) == dec_val(s.take(i)) * 10 + digit_val(s.take(i + 1).last()));
        lemma_dec_val_take_le(s, i + 1);
    } else {
        assert(s.take(i) =~= s);
    }
}

/// Parses an unsigned 64-bit decimal literal, as the standard library does:
/// an optional plus sign, then at least one digit, nothing else, and the
/// value must fit.
pub fn parse_u64(s: &str) -> (r: Option<u64>)
    ensures
        r == parse_u64_of(s@),
{
    let n = s.unicode_len();
    let ghost d = unsigned_digits_of(s@);
    let mut i: usize = 0;
    if n > 0 && s.get_char(0) == '+' {
        i = 1;
    }
    proof {
        assert(d =~= s@.skip(i as int));
    }
    if i == n {
        return None;
    }
    let ghost start = i as int;
    let mut acc: u64 = 0;
    while i < n
        invariant
            0 <= start <= i <= n,
            n == s@.len(),
            d == unsigned_digits_of(s@),
            d == s@.skip(start),
            d.len() == n - start,
            all_dec_digits(d.take(i - start)),
            acc == dec_val(d.take(i - start)),
        decreases n - i,
    {
        let c = s.get_char(i);
        let cv = c as u32;
        proof {
            vstd::seq_lib::lemma_seq_skip_index(s@, start, i - start);
            assert(d[i - start] == s@[i as int]);
            assert(d.take(i - start + 1).drop_last() =~= d.take(i - start));
            assert(d.take(i - start + 1).last() == d[i - start]);
        }
        if cv < 48 || cv > 57 {
            proof {
                assert(!all_dec_digits(d)) by {
                    assert(!is_dec_digit(d[i - start]));
                }
            }
            return None;
        }
        let dv: u64 = (cv - 48) as u64;
        proof {
            assert(is_dec_digit(d[i - start]));
            assert(digit_val(d[i - start]) == dv);
        }
        let overflowed: bool = match acc.checked_mul(10) {
            Some(x) => {
                match x.checked_add(dv) {
                    Some(next) => {
                        acc = next;
                        false
                    },
                    None => true,
                }
            },
            None => true,
        };
        if overflowed {
            proof {
                assert(dec_val(d.take(i - start + 1)) > u64::MAX);
                if all_dec_digits(d) {
                    lemma_dec_val_take_le(d, i - start + 1);
                }
            }
            return None;
        }
        i = i + 1;
    }
    proof {
        assert(d.take(i - start) =~= d);
    }
    Some(acc)
}

/// Parses an unsigned 16-bit decimal literal.
pub fn parse_u16(s: &str) -> (r: Option<u16>)
    ensures
        r == parse_u16_of(s@),
{
    match parse_u64(s) {
        Some(v) => {
            if v <= u16::MAX as u64 {
                Some(v as u16)
            } else {
                proof {
                    assert(dec_val(unsigned_digits_of(s@)) > u16::MAX);
                }
                None
            }
        },
        None => {
            proof {
                let dg = unsigned_digits_of(s@);
                if dg.len() > 0 && all_dec_digits(dg) && dec_val(dg) <= u16::MAX {
                    assert(dec_val(dg) <= u64::MAX);
                }
            }
            None
        },
    }
}

/// Compares two string slices for equality of their character sequences.
pub fn eq_str(a: &str, b: &str) -> (r: bool)
    ensures
        r == (a@ == b@),
{
    let sa = a.to_owned();
    let sb = b.to_owned();
    sa == sb
}

/// The parts joined with the separator between consecutive parts.
pub open spec fn join_of(parts: Seq<Seq<char>>, sep: Seq<char>) -> Seq<char>
    decreases parts.len(),
{
    if parts.len() == 0 {
        Seq::empty()
    } else if parts.len() == 1 {
        parts[0]
    } else {
        join_of(parts.drop_last(), sep) + sep + parts.last()
    }
}

/// Joins strings with a separator between consecutive entries.
pub fn join_with(parts: &Vec<String>, sep: &str) -> (r: String)
    ensures
        r@ == join_of(parts@.map_values(|p: String| p@), sep@),
{
    let ghost pv = parts@.map_values(|p: String| p@);
    let mut r = String::new();
    let mut i: usize = 0;
    while i < parts.len()
        invariant
            i <= parts.len(),
            pv == parts@.map_values(|p: String| p@),
            r@ == join_of(pv.take(i as int), sep@),
        decreases parts.len() - i,
    {
        if i > 0 {
            r.append(sep);
        }
        r.append(parts[i].as_str());
        proof {
            assert(pv.take(i + 1).drop_last() =~= pv.take(i as int));
            assert(pv.take(i + 1).last() == pv[i as int]);
            if i == 0 {
                assert(r@ =~= join_of(pv.take(1), sep@));
            }
        }
        i = i + 1;
    }
    proof {
        assert(pv.take(parts@.len() as int) =~= pv);
    }
    r
}

/// The number rendered in decimal, padded with zeros to two digits.
pub open spec fn pad2_of(n: nat) -> Seq<char> {
    if n < 10 {
        seq!['0'] + dec_of(n)
    } else {
        dec_of(n)
    }
}

/// The number rendered in decimal, padded with zeros to four digits.
pub open spec fn pad4_of(n: nat) -> Seq<char> {
    if n < 10 {
        seq!['0', '0', '0'] + dec_of(n)
    } else if n < 100 {
        seq!['0', '0'] + dec_of(n)
    } else if n < 1000 {
        seq!['0'] + dec_of(n)
    } else {
        dec_of(n)
    }
}

/// Renders a number zero-padded to two digits.
pub fn pad2(n: u8) -> (r: String)
    ensures
        r@ == pad2_of(n as nat),
{
    if n < 10 {
        let mut s = "0".to_owned();
        proof {
            reveal_strlit("0");
            assert(s@ =~= seq!['0']);
        }
        s.append(u64_to_string(n as u64).as_str());
        s
    } else {
        u64_to_string(n as u64)
    }
}

/// Renders a number zero-padded to four digits.
pub fn pad4(n: u16) -> (r: String)
    ensures
        r@ == pad4_of(n as nat),
{
    let digits = u64_to_string(n as u64);
    let mut s = if n < 10 {
        "000".to_owned()
    } else if n < 100 {
        "00".to_owned()
    } else if n < 1000 {
        "0".to_owned()
    } else {
        String::new()
    };
    proof {
        reveal_strlit("000");
        reveal_strlit("00");
        reveal_strlit("0");
        if n < 10 {
            assert(s@ =~= seq!['0', '0', '0']);
        } else if n < 100 {
            assert(s@ =~= seq!['0', '0']);
        } else if n < 1000 {
            assert(s@ =~= seq!['0']);
        }
    }
    s.append(digits.as_str());
    proof {
        if n >= 1000 {
            assert(s@ =~= dec_of(n as nat));
        }
    }
    s
}

} // verus!

