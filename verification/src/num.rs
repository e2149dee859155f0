//! Verified decimal formatting and parsing for the numeric identities the
//! bridge embeds in synthetic URLs and reads back out of them, and for the
//! integer fields of introspection records.

use vstd::prelude::*;

verus! {

use vstd::string::StrSliceExecFns;
use vstd::string::StringExecFns;

/// `c` is a decimal digit.
pub open spec fn is_digit(c: char) -> bool {
    48 <= c as u32 <= 57
}

/// Numeric value of a digit character.
pub open spec fn digit_val(c: char) -> nat {
    (c as u32 - 48) as nat
}

/// Every character of `s` is a decimal digit.
pub open spec fn all_digits(s: Seq<char>) -> bool {
    forall|i: int| 0 <= i < s.len() ==> is_digit(s[i])
}

/// The number a sequence of digit characters denotes, most significant
/// digit first.
pub open spec fn dec_val(s: Seq<char>) -> nat
    decreases s.len(),
{
    if s.len() == 0 {
        0
    } else {
        dec_val(s.drop_last()) * 10 + digit_val(s.last())
    }
}

/// Appending one more digit multiplies the value by ten and adds the
/// digit.
pub proof fn lemma_dec_val_snoc(s: Seq<char>, i: int)
    requires
        0 <= i < s.len(),
    ensures
        dec_val(s.subrange(0, i + 1)) == dec_val(s.subrange(0, i)) * 10 + digit_val(s[i]),
{
    let a = s.subrange(0, i + 1);
    assert(a.drop_last() =~= s.subrange(0, i));
    assert(a.last() == s[i]);
}

/// The value of a prefix of a digit string never exceeds the value of the
/// whole string.
pub proof fn lemma_dec_val_prefix_le(s: Seq<char>, i: int)
    requires
        all_digits(s),
        0 <= i <= s.len(),
    ensures
        dec_val(s.subrange(0, i)) <= dec_val(s),
    decreases s.len() - i,
{
    if i == s.len() {
        assert(s.subrange(0, i) =~= s);
    } else {
        lemma_dec_val_snoc(s, i);
        assert(dec_val(s.subrange(0, i)) <= dec_val(s.subrange(0, i)) * 10 + digit_val(s[i]));
        lemma_dec_val_prefix_le(s, i + 1);
    }
}

/// Parse an unsigned decimal number: defined exactly for a non-empty,
/// all-digit string whose value fits, rejecting everything else.
#[verifier::loop_isolation(false)]
pub fn parse_u64(s: &str) -> (r: Option<u64>)
    ensures
        r == (if s@.len() > 0 && all_digits(s@) && dec_val(s@) <= u64::MAX {
            Some(dec_val(s@) as u64)
        } else {
            None::<u64>
        }),
{
    let n = s.unicode_len();
    if n == 0 {
        return None;
    }
    let mut acc: u128 = 0;
    let mut i: usize = 0;
    proof {
        assert(s@.subrange(0, 0) =~= Seq::<char>::empty());
    }
    while i < n
        invariant
            0 <= i <= n,
            acc == dec_val(s@.subrange(0, i as int)),
            acc <= u64::MAX,
            forall|k: int| 0 <= k < i ==> is_digit(s@[k]),
        decreases n - i,
    {
        let c = s.get_char(i);
        let cu = c as u32;
        if cu < 48 || cu > 57 {
            assert(!is_digit(s@[i as int]));
            return None;
        }
        let d: u128 = (cu - 48) as u128;
        let next: u128 = acc * 10 + d;
        proof {
            lemma_dec_val_snoc(s@, i as int);
        }
        if next > u64::MAX as u128 {
            proof {
                if all_digits(s@) {
                    lemma_dec_val_prefix_le(s@, i + 1);
                }
            }
            return None;
        }
        acc = next;
        i += 1;
    }
    proof {
        assert(s@.subrange(0, n as int) =~= s@);
    }
    Some(acc as u64)
}

/// One-character string for a decimal digit.
pub fn digit_str(d: u8) -> (r: &'static str)
    requires
        d < 10,
    ensures
        r@.len() == 1,
        is_digit(r@[0]),
        digit_val(r@[0]) == d,
{
    if d == 0 {
        let s = "0";
        proof {
            reveal_strlit("0");
        }
        s
    } else if d == 1 {
        let s = "1";
        proof {
            reveal_strlit("1");
        }
        s
    } else if d == 2 {
        let s = "2";
        proof {
            reveal_strlit("2");
        }
        s
    } else if d == 3 {
        let s = "3";
        proof {
            reveal_strlit("3");
        }
        s
    } else if d == 4 {
        let s = "4";
        proof {
            reveal_strlit("4");
        }
        s
    } else if d == 5 {
        let s = "5";
        proof {
            reveal_strlit("5");
        }
        s
    } else if d == 6 {
        let s = "6";
        proof {
            reveal_strlit("6");
        }
        s
    } else if d == 7 {
        let s = "7";
        proof {
            reveal_strlit("7");
        }
        s
    } else if d == 8 {
        let s = "8";
        proof {
            reveal_strlit("8");
        }
        s
    } else {
        let s = "9";
        proof {
            reveal_strlit("9");
        }
        s
    }
}

/// Render `n` in decimal, most significant digit first.
pub fn u64_to_dec(n: u64) -> (r: String)
    ensures
        r@.len() > 0,
        all_digits(r@),
        dec_val(r@) == n,
        n > 0 ==> digit_val(r@[0]) != 0,
        n == 0 ==> r@.len() == 1,
    decreases n,
{
    if n < 10 {
        let s = digit_str(n as u8);
        let r = String::from_str(s);
        proof {
            assert(r@.drop_last() =~= Seq::<char>::empty());
            assert(dec_val(r@.drop_last()) == 0);
            assert(dec_val(r@) == digit_val(r@.last()));
        }
        r
    } else {
        let q = n / 10;
        let d = (n % 10) as u8;
        let mut r = u64_to_dec(q);
        let ghost prefix = r@;
        let ds = digit_str(d);
        r.append(ds);
        proof {
            assert(r@.drop_last() =~= prefix);
            assert(r@.last() == ds@[0]);
            assert(dec_val(r@) == dec_val(prefix) * 10 + digit_val(ds@[0]));
        }
        r
    }
}

/// Parse a signed decimal number the way the standard integer parser
/// reads it: an optional single `+` or `-` sign, then at least one digit,
/// rejecting values out of range.
pub open spec fn spec_parse_i64(s: Seq<char>) -> Option<i64> {
    if s.len() == 0 {
        None
    } else if s[0] == '-' {
        let mag = s.subrange(1, s.len() as int);
        if mag.len() > 0 && all_digits(mag) && dec_val(mag) <= 0x8000_0000_0000_0000 {
            Some((-(dec_val(mag) as int)) as i64)
        } else {
            None
        }
    } else if s[0] == '+' {
        let mag = s.subrange(1, s.len() as int);
        if mag.len() > 0 && all_digits(mag) && dec_val(mag) <= i64::MAX {
            Some(dec_val(mag) as i64)
        } else {
            None
        }
    } else {
        if all_digits(s) && dec_val(s) <= i64::MAX {
            Some(dec_val(s) as i64)
        } else {
            None
        }
    }
}

/// Parse a signed decimal number; see [`spec_parse_i64`].
pub fn parse_i64(s: &str) -> (r: Option<i64>)
    ensures
        r == spec_parse_i64(s@),
{
    let n = s.unicode_len();
    if n == 0 {
        return None;
    }
    let c0 = s.get_char(0);
    if c0 == '-' {
        let mag = s.substring_char(1, n);
        match parse_u64(mag) {
            Some(v) => {
                if v < 0x8000_0000_0000_0000 {
                    Some(-(v as i64))
                } else if v == 0x8000_0000_0000_0000 {
                    Some(i64::MIN)
                } else {
                    None
                }
            },
            None => None,
        }
    } else if c0 == '+' {
        let mag = s.substring_char(1, n);
        match parse_u64(mag) {
            Some(v) => {
                if v <= i64::MAX as u64 {
                    Some(v as i64)
                } else {
                    None
                }
            },
            None => None,
        }
    } else {
        match parse_u64(s) {
            Some(v) => {
                if v <= i64::MAX as u64 {
                    Some(v as i64)
                } else {
                    None
                }
            },
            None => None,
        }
    }
}

} // verus!
