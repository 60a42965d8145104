//! The GB 11643-1999 weighted modulo-11 checksum of an 18-character
//! identity number.

use vstd::prelude::*;
use crate::digits::digit_val;
use crate::digits::is_digit;
use vstd::arithmetic::div_mod::lemma_add_mod_noop;
use vstd::arithmetic::div_mod::lemma_mod_twice;

verus! {

/// Weight of digit position `i` (0-indexed) in the checksum:
/// the residue of 2^(17-i) modulo 11.
pub open spec fn weight(i: int) -> int {
    if i == 0 {
        7
    } else if i == 1 {
        9
    } else if i == 2 {
        10
    } else if i == 3 {
        5
    } else if i == 4 {
        8
    } else if i == 5 {
        4
    } else if i == 6 {
        2
    } else if i == 7 {
        1
    } else if i == 8 {
        6
    } else if i == 9 {
        3
    } else if i == 10 {
        7
    } else if i == 11 {
        9
    } else if i == 12 {
        10
    } else if i == 13 {
        5
    } else if i == 14 {
        8
    } else if i == 15 {
        4
    } else {
        2
    }
}

/// Value of the trailing check symbol: a digit stands for itself,
/// the letter `'X'` stands for ten.
pub open spec fn check_char_val(b: u8) -> int {
    if b == 88 {
        10
    } else {
        digit_val(b)
    }
}

/// Weighted sum of the first `n` digits of the number.
pub open spec fn weighted_sum(s: Seq<u8>, n: int) -> int
    decreases n,
{
    if n <= 0 {
        0
    } else {
        weighted_sum(s, n - 1) + digit_val(s[n - 1]) * weight(n - 1)
    }
}

/// The check symbol agrees with the first 17 digits: the value of the
/// check symbol plus the weighted sum of the digits leaves residue 1
/// modulo 11.
pub open spec fn checksum_ok(s: Seq<u8>) -> bool {
    (check_char_val(s[17]) + weighted_sum(s, 17)) % 11 == 1
}

/// Two numbers that agree everywhere but at one digit position have
/// weighted sums that differ by the digit difference times the
/// position's weight.
proof fn lemma_weighted_sum_update(s: Seq<u8>, t: Seq<u8>, i: int, n: int)
    requires
        s.len() == t.len(),
        0 <= i < s.len(),
        n <= s.len(),
        forall|j: int| 0 <= j < s.len() && j != i ==> s[j] == #[trigger] t[j],
    ensures
        n <= i ==> weighted_sum(t, n) == weighted_sum(s, n),
        i < n ==> weighted_sum(t, n) == weighted_sum(s, n) + (digit_val(t[i]) - digit_val(s[i]))
            * weight(i),
    decreases n,
{
    if n > 0 {
        lemma_weighted_sum_update(s, t, i, n - 1);
        if n - 1 == i {
            assert((digit_val(t[i]) - digit_val(s[i])) * weight(i) == digit_val(t[i]) * weight(i)
                - digit_val(s[i]) * weight(i)) by (nonlinear_arith);
        }
    }
}

/// Flipping any single digit of a number whose checksum agrees, while
/// holding the check symbol and every other digit fixed, makes the
/// checksum fail: every weight is coprime to the modulus 11.
pub proof fn lemma_single_flip_breaks_checksum(s: Seq<u8>, t: Seq<u8>, i: int)
    requires
        s.len() == 18,
        t.len() == 18,
        0 <= i < 17,
        is_digit(s[i]),
        is_digit(t[i]),
        t[i] != s[i],
        forall|j: int| 0 <= j < 18 && j != i ==> s[j] == #[trigger] t[j],
        checksum_ok(s),
    ensures
        !checksum_ok(t),
{
    lemma_weighted_sum_update(s, t, i, 17);
    let delta = digit_val(t[i]) - digit_val(s[i]);
    let w = weight(i);
    let a = check_char_val(s[17]) + weighted_sum(s, 17);
    assert(check_char_val(t[17]) + weighted_sum(t, 17) == a + delta * w);
    assert(-9 <= delta <= 9 && delta != 0 && 1 <= w <= 10);
    assert(delta * w % 11 != 0);
    lemma_add_mod_noop(a, delta * w, 11);
    assert((a + delta * w) % 11 == (a % 11 + delta * w % 11) % 11);
}

/// Table lookup of the checksum weight of a position.
fn weight_at(i: usize) -> (w: u8)
    requires
        i < 17,
    ensures
        w as int == weight(i as int),
{
    match i {
        0 => 7,
        1 => 9,
        2 => 10,
        3 => 5,
        4 => 8,
        5 => 4,
        6 => 2,
        7 => 1,
        8 => 6,
        9 => 3,
        10 => 7,
        11 => 9,
        12 => 10,
        13 => 5,
        14 => 8,
        15 => 4,
        _ => 2,
    }
}

/// Decides whether the check symbol of an 18-character number agrees
/// with its digits, reducing modulo 11 incrementally.
pub fn validate_checksum(id: &[u8]) -> (r: bool)
    requires
        id@.len() == 18,
        forall|i: int| 0 <= i < 17 ==> is_digit(#[trigger] id@[i]),
        is_digit(id@[17]) || id@[17] == 88,
    ensures
        r == checksum_ok(id@),
{
    let mut sum: u32 = if id[17] == 88 {
        10
    } else {
        (id[17] - 48) as u32
    };
    let mut i: usize = 0;
    while i < 17
        invariant
            i <= 17,
            id@.len() == 18,
            forall|j: int| 0 <= j < 17 ==> is_digit(#[trigger] id@[j]),
            is_digit(id@[17]) || id@[17] == 88,
            sum <= 10,
            i == 0 ==> sum == check_char_val(id@[17]),
            i > 0 ==> sum == (check_char_val(id@[17]) + weighted_sum(id@, i as int)) % 11,
        decreases 17 - i,
    {
        let w = weight_at(i);
        let d = (id[i] - 48) as u32;
        proof {
            assert(d * w <= 90) by {
                assert(d <= 9 && w <= 10);
            }
        }
        sum = sum + d * (w as u32);
        sum = sum % 11;
        proof {
            let ccv = check_char_val(id@[17]);
            let step = digit_val(id@[i as int]) * weight(i as int);
            if i > 0 {
                lemma_add_mod_noop(ccv + weighted_sum(id@, i as int), step, 11);
                lemma_mod_twice(ccv + weighted_sum(id@, i as int), 11);
                lemma_add_mod_noop((ccv + weighted_sum(id@, i as int)) % 11, step, 11);
            }
            assert(sum == (ccv + weighted_sum(id@, i as int + 1)) % 11);
        }
        i = i + 1;
    }
    sum == 1
}

} // verus!
