//! Plain-text helpers: character-exact string equality, and decimal
//! numerals in both directions (parsing a positive `u32`, rendering a
//! `u64`). These carry the numeric side of the command line: the baud
//! rate is parsed here, and counts and rates are rendered here.

use vstd::prelude::*;

verus! {

/// A decimal digit, `'0'` through `'9'`.
pub open spec fn is_dec_digit(c: char) -> bool {
    48 <= c as u32 <= 57
}

/// The numeric value of one decimal digit character.
pub open spec fn digit_val(c: char) -> nat
    recommends
        is_dec_digit(c),
{
    (c as u32 - 48) as nat
}

/// Every character of `s` is a decimal digit.
pub open spec fn all_dec_digits(s: Seq<char>) -> bool {
    forall|i: int| 0 <= i < s.len() ==> is_dec_digit(#[trigger] s[i])
}

/// The numeric value of a digit string, most significant digit first.
/// Leading zeros are allowed and do not change the value.
pub open spec fn dec_val(s: Seq<char>) -> nat
    decreases s.len(),
{
    if s.len() == 0 {
        0
    } else {
        dec_val(s.drop_last()) * 10 + digit_val(s.last())
    }
}

/// The character for one decimal digit value.
pub open spec fn digit_char(d: nat) -> char {
    if d == 0 {
        '0'
    } else if d == 1 {
        '1'
    } else if d == 2 {
        '2'
    } else if d == 3 {
        '3'
    } else if d == 4 {
        '4'
    } else if d == 5 {
        '5'
    } else if d == 6 {
        '6'
    } else if d == 7 {
        '7'
    } else if d == 8 {
        '8'
    } else {
        '9'
    }
}

/// The canonical decimal rendering of `n`: no sign, no leading zeros
/// (except for `n == 0`, which is the single character `'0'`).
pub open spec fn dec_digits(n: nat) -> Seq<char>
    decreases n,
{
    if n < 10 {
        seq![digit_char(n)]
    } else {
        dec_digits(n / 10).push(digit_char(n % 10))
    }
}

/// Character-exact equality of two string slices.
pub fn str_eq(a: &str, b: &str) -> (r: bool)
    ensures
        r == (a@ == b@),
{
    let alen = a.unicode_len();
    let blen = b.unicode_len();
    if alen != blen {
        return false;
    }
    let mut i: usize = 0;
    while i < alen
        invariant
            alen == a@.len(),
            blen == b@.len(),
            alen == blen,
            0 <= i <= alen,
            forall|j: int| 0 <= j < i ==> a@[j] == b@[j],
        decreases alen - i,
    {
        if a.get_char(i) != b.get_char(i) {
            return false;
        }
        i += 1;
    }
    proof {
        assert(a@ =~= b@);
    }
    true
}

/// `s` denotes a positive integer that fits in a `u32`: nonempty, all
/// decimal digits, value at least 1 and at most `u32::MAX`.
pub open spec fn is_positive_u32_numeral(s: Seq<char>) -> bool {
    &&& s.len() > 0
    &&& all_dec_digits(s)
    &&& 0 < dec_val(s) <= u32::MAX
}

/// Extending a digit string by more digits never lowers its value.
proof fn lemma_dec_val_prefix_le(s: Seq<char>, j: int)
    requires
        0 <= j <= s.len(),
        all_dec_digits(s),
    ensures
        dec_val(s.subrange(0, j)) <= dec_val(s),
    decreases s.len() - j,
{
    if j < s.len() {
        assert(s.subrange(0, j + 1).drop_last() =~= s.subrange(0, j));
        assert(s.subrange(0, j + 1).last() == s[j]);
        lemma_dec_val_prefix_le(s, j + 1);
    } else {
        assert(s.subrange(0, j) =~= s);
    }
}

/// Parse a decimal numeral as a positive `u32`. Returns `Some` exactly
/// when the whole string is a nonempty run of digits whose value lies in
/// `1 ..= u32::MAX`; leading zeros are accepted.
pub fn parse_positive_u32(s: &str) -> (r: Option<u32>)
    ensures
        match r {
            Some(v) => is_positive_u32_numeral(s@) && v == dec_val(s@),
            None => !is_positive_u32_numeral(s@),
        },
{
    let n = s.unicode_len();
    if n == 0 {
        return None;
    }
    let mut acc: u32 = 0;
    let mut i: usize = 0;
    while i < n
        invariant
            n == s@.len(),
            0 <= i <= n,
            all_dec_digits(s@.subrange(0, i as int)),
            acc == dec_val(s@.subrange(0, i as int)),
        decreases n - i,
    {
        let c = s.get_char(i);
        let cu = c as u32;
        if cu < 48 || cu > 57 {
            assert(!is_dec_digit(s@[i as int]));
            return None;
        }
        let d = cu - 48;
        proof {
            assert(s@.subrange(0, i + 1).drop_last() =~= s@.subrange(0, i as int));
            assert(s@.subrange(0, i + 1).last() == s@[i as int]);
            assert(digit_val(s@[i as int]) == d);
        }
        if acc > (u32::MAX - d) / 10 {
            // The value of the digits seen so far already exceeds u32::MAX,
            // and further digits can only raise it.
            proof {
                assert(dec_val(s@.subrange(0, i + 1)) > u32::MAX);
                if all_dec_digits(s@) {
                    lemma_dec_val_prefix_le(s@, i + 1);
                }
            }
            return None;
        }
        acc = acc * 10 + d;
        i += 1;
    }
    proof {
        assert(s@.subrange(0, n as int) =~= s@);
    }
    if acc == 0 {
        return None;
    }
    Some(acc)
}

/// The string slice holding one decimal digit character.
fn digit_str(d: u8) -> (r: &'static str)
    requires
        d < 10,
    ensures
        r@ == seq![digit_char(d as nat)],
{
    if d == 0 {
        let r = "0";
        proof {
            reveal_strlit("0");
            assert(r@ =~= seq![digit_char(0)]);
        }
        r
    } else if d == 1 {
        let r = "1";
        proof {
            reveal_strlit("1");
            assert(r@ =~= seq![digit_char(1)]);
        }
        r
    } else if d == 2 {
        let r = "2";
        proof {
            reveal_strlit("2");
            assert(r@ =~= seq![digit_char(2)]);
        }
        r
    } else if d == 3 {
        let r = "3";
        proof {
            reveal_strlit("3");
            assert(r@ =~= seq![digit_char(3)]);
        }
        r
    } else if d == 4 {
        let r = "4";
        proof {
            reveal_strlit("4");
            assert(r@ =~= seq![digit_char(4)]);
        }
        r
    } else if d == 5 {
        let r = "5";
        proof {
            reveal_strlit("5");
            assert(r@ =~= seq![digit_char(5)]);
        }
        r
    } else if d == 6 {
        let r = "6";
        proof {
            reveal_strlit("6");
            assert(r@ =~= seq![digit_char(6)]);
        }
        r
    } else if d == 7 {
        let r = "7";
        proof {
            reveal_strlit("7");
            assert(r@ =~= seq![digit_char(7)]);
        }
        r
    } else if d == 8 {
        let r = "8";
        proof {
            reveal_strlit("8");
            assert(r@ =~= seq![digit_char(8)]);
        }
        r
    } else {
        let r = "9";
        proof {
            reveal_strlit("9");
            assert(r@ =~= seq![digit_char(9)]);
        }
        r
    }
}

/// A digit value's character is a digit character, and carries that
/// same value back.
proof fn lemma_digit_char_val(d: nat)
    requires
        d < 10,
    ensures
        is_dec_digit(digit_char(d)),
        digit_val(digit_char(d)) == d,
{
}

/// The decimal rendering of `n` is a digit string whose value is `n`
/// again: rendering and parsing agree.
proof fn lemma_dec_digits_val(n: nat)
    ensures
        all_dec_digits(dec_digits(n)),
        dec_val(dec_digits(n)) == n,
    decreases n,
{
    if n < 10 {
        lemma_digit_char_val(n);
        assert(dec_digits(n).drop_last() =~= Seq::<char>::empty());
        assert(dec_digits(n).last() == digit_char(n));
        assert(dec_val(Seq::<char>::empty()) == 0);
        assert(dec_val(dec_digits(n)) == n);
    } else {
        lemma_dec_digits_val(n / 10);
        lemma_digit_char_val(n % 10);
        let s = dec_digits(n / 10);
        let c = digit_char(n % 10);
        assert(s.push(c).drop_last() =~= s);
        assert(s.push(c).last() == c);
        assert(dec_val(s.push(c)) == dec_val(s) * 10 + digit_val(c));
        assert(n / 10 * 10 + n % 10 == n) by {
            vstd::arithmetic::div_mod::lemma_fundamental_div_mod(n as int, 10);
        }
        assert(dec_val(dec_digits(n)) == n);
        assert forall|i: int| 0 <= i < s.push(c).len() implies is_dec_digit(#[trigger] s.push(c)[i]) by {
            if i < s.len() {
                assert(s.push(c)[i] == s[i]);
            } else {
                assert(s.push(c)[i] == c);
            }
        }
    }
}

/// Render `n` in decimal: the canonical numeral of `dec_digits`, all
/// digits, and parsing it back gives `n`.
pub fn u64_to_dec(n: u64) -> (r: String)
    ensures
        r@ == dec_digits(n as nat),
        all_dec_digits(r@),
        dec_val(r@) == n,
    decreases n,
{
    proof {
        lemma_dec_digits_val(n as nat);
    }
    if n < 10 {
        digit_str(n as u8).to_owned()
    } else {
        let mut s = u64_to_dec(n / 10);
        s.append(digit_str((n % 10) as u8));
        proof {
            assert(s@ =~= dec_digits((n / 10) as nat).push(digit_char((n % 10) as nat)));
        }
        s
    }
}

} // verus!
