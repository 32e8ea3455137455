//! Numeric conversion utilities for the display path.

use vstd::prelude::*;
use vstd::arithmetic::div_mod::lemma_div_basics;
use vstd::arithmetic::div_mod::lemma_div_denominator;
use vstd::arithmetic::div_mod::lemma_div_is_ordered_by_denominator;
use vstd::arithmetic::div_mod::lemma_div_pos_is_pos;
use vstd::arithmetic::div_mod::lemma_fundamental_div_mod;
use vstd::arithmetic::div_mod::lemma_fundamental_div_mod_converse;
use vstd::arithmetic::div_mod::lemma_mod_pos_bound;
use vstd::arithmetic::power2::lemma_pow2_pos;
use vstd::arithmetic::power2::lemma_pow2_unfold;
use vstd::arithmetic::power2::lemma2_to64;
use vstd::arithmetic::power2::pow2;

verus! {

/// Packed-decimal (BCD) encoding of a two-digit number: the tens digit in
/// the high nibble, the ones digit in the low nibble.
pub open spec fn spec_bcd(n: int) -> int {
    (n / 10) * 16 + n % 10
}

/// The value of the `i` leading bits of `n`, read as a binary number.
spec fn bit_prefix(n: int, i: int) -> int {
    n / pow2((8 - i) as nat) as int
}

/// One add-3-and-shift step turns the packed-decimal encoding of `v` into
/// the packed-decimal encoding of `2 * v + b`, as long as `v` stays small
/// enough that its doubled value still has two digits.
proof fn lemma_dabble_step(v: int, b: int)
    requires
        0 <= v <= 49,
        0 <= b <= 1,
    ensures
        0 <= spec_bcd(v) <= 73,
        spec_bcd(v) / 16 < 5,
        spec_bcd(2 * v + b) == (if spec_bcd(v) % 16 >= 5 {
            (spec_bcd(v) + 3) * 2 + b
        } else {
            spec_bcd(v) * 2 + b
        }),
{
    let d1 = v / 10;
    let d0 = v % 10;
    lemma_fundamental_div_mod(v, 10);
    lemma_mod_pos_bound(v, 10);
    lemma_div_pos_is_pos(v, 10);
    assert(d1 <= 4) by {
        if d1 >= 5 {
            assert(v == 10 * d1 + d0);
        }
    };
    assert(v == 10 * d1 + d0);
    assert(spec_bcd(v) == d1 * 16 + d0);
    lemma_fundamental_div_mod_converse(d1 * 16 + d0, 16, d1, d0);
    assert(spec_bcd(v) % 16 == d0);
    assert(spec_bcd(v) / 16 == d1);
    if d0 >= 5 {
        lemma_fundamental_div_mod_converse(2 * v + b, 10, 2 * d1 + 1, 2 * d0 + b - 10);
    } else {
        lemma_fundamental_div_mod_converse(2 * v + b, 10, 2 * d1, 2 * d0 + b);
    }
}

/// Consuming one more leading bit doubles the prefix value and adds that bit.
proof fn lemma_prefix_step(n: int, i: int)
    requires
        0 <= n,
        0 <= i < 8,
    ensures
        pow2((7 - i) as nat) > 0,
        bit_prefix(n, i + 1) == 2 * bit_prefix(n, i) + (n / pow2((7 - i) as nat) as int) % 2,
        0 <= (n / pow2((7 - i) as nat) as int) % 2 <= 1,
{
    let w = pow2((7 - i) as nat) as int;
    lemma_pow2_pos((7 - i) as nat);
    lemma_pow2_unfold((8 - i) as nat);
    assert(pow2((8 - i) as nat) as int == 2 * w);
    lemma_div_denominator(n, w, 2);
    assert((n / w) / 2 == bit_prefix(n, i));
    assert(bit_prefix(n, i + 1) == n / w);
    lemma_div_pos_is_pos(n, w);
    lemma_fundamental_div_mod(n / w, 2);
    lemma_mod_pos_bound(n / w, 2);
}

/// Converts a two-digit decimal number into its packed-decimal (BCD)
/// encoding: the tens digit lands in the high nibble, the ones digit in the
/// low nibble. Numbers of three or more digits do not fit the encoding and
/// are rejected.
///
/// Uses the iterative add-3-and-shift (double-dabble) technique: the input's
/// bits are shifted in from the left, and before each shift any decimal
/// digit of 5 or more is bumped by 3 so that the doubling carries into the
/// next digit.
pub fn bin_to_bcd(number: u8) -> (r: Result<u8, ()>)
    ensures
        number > 99 ==> r == Result::<u8, ()>::Err(()),
        number <= 99 ==> r == Result::<u8, ()>::Ok(spec_bcd(number as int) as u8),
{
    if number > 99 {
        return Err(());
    }

    let mut result: u8 = 0;
    // Weight of the next bit to shift in, from the most significant down.
    let mut weight: u8 = 128;
    let mut i: usize = 0;

    proof {
        lemma2_to64();
        lemma_fundamental_div_mod_converse(number as int, 256, 0, number as int);
        assert(bit_prefix(number as int, 0) == 0);
    }

    while i < 8
        invariant
            i <= 8,
            number <= 99,
            i < 8 ==> weight as int == pow2((7 - i) as nat) as int,
            result as int == spec_bcd(bit_prefix(number as int, i as int)),
            0 <= bit_prefix(number as int, i as int) <= 99,
            i < 8 ==> bit_prefix(number as int, i as int) <= 49,
        decreases 8 - i,
    {
        let ghost v = bit_prefix(number as int, i as int);
        proof {
            lemma_dabble_step(v, 0);
            lemma_prefix_step(number as int, i as int);
        }

        // Add 3 to any decimal digit of 5 or more, so the shift carries.
        if result % 16 >= 5 {
            result = result + 3;
        }
        if result / 16 >= 5 {
            result = result + 48;
        }

        let bit = (number / weight) % 2;
        result = result * 2 + bit;

        proof {
            lemma_dabble_step(v, bit as int);
            let v1 = bit_prefix(number as int, i + 1);
            assert(v1 == 2 * v + bit as int);
            assert(result as int == spec_bcd(v1));
            if i + 1 < 8 {
                lemma_pow2_pos((7 - (i + 1)) as nat);
                assert(pow2((8 - (i + 1)) as nat) >= 2) by {
                    lemma_pow2_unfold((8 - (i + 1)) as nat);
                    lemma_pow2_pos((7 - (i + 1)) as nat);
                };
                lemma_div_is_ordered_by_denominator(
                    number as int,
                    2,
                    pow2((8 - (i + 1)) as nat) as int,
                );
                assert(v1 <= number as int / 2);
            } else {
                assert(pow2(0) == 1) by {
                    lemma2_to64();
                };
                lemma_div_basics(number as int);
                assert(v1 == number as int);
            }
            // Halving a power of two gives the next one down.
            if i + 1 < 8 {
                lemma_pow2_unfold((7 - i) as nat);
            }
        }

        weight = weight / 2;
        i = i + 1;
    }

    proof {
        assert(pow2(0) == 1) by {
            lemma2_to64();
        };
        lemma_div_basics(number as int);
        assert(bit_prefix(number as int, 8) == number as int);
    }
    Ok(result)
}

} // verus!
