//! Numbers written as digits, least significant digit first.
//!
//! Storage numbers, tariffs, binary integers and BCD numbers all arrive that
//! way, in bases 2, 4, 16, 100 and 256.
use vstd::arithmetic::div_mod::{lemma_div_denominator, lemma_fundamental_div_mod_converse};
use vstd::arithmetic::power::{lemma_pow_positive, pow};
use vstd::prelude::*;

verus! {

/// The number whose digits in base `base` are `digits`, least significant
/// first.
pub open spec fn le_number(digits: Seq<nat>, base: nat) -> nat
    decreases digits.len(),
{
    if digits.len() == 0 {
        0
    } else {
        digits[0] + base * le_number(digits.drop_first(), base)
    }
}

/// Whether every digit is a digit of base `base`.
pub open spec fn all_below(digits: Seq<nat>, base: nat) -> bool {
    forall|i: int| 0 <= i < digits.len() ==> digits[i] < base
}

/// The field `(b / div) % base` of every byte of `s`.
pub open spec fn byte_fields(s: Seq<u8>, div: nat, base: nat) -> Seq<nat> {
    Seq::new(s.len(), |i: int| ((s[i] as nat) / div) % base)
}

/// `pow(b, e + 1)` is `b * pow(b, e)`.
pub proof fn lemma_pow_step(b: int, e: nat)
    ensures
        pow(b, e + 1) == b * pow(b, e),
{
    reveal(pow);
}

/// A power grows with its base.
pub proof fn lemma_pow_base_increases(b1: nat, b2: nat, e: nat)
    requires
        b1 <= b2,
    ensures
        0 <= pow(b1 as int, e) <= pow(b2 as int, e),
    decreases e,
{
    reveal(pow);
    if e > 0 {
        lemma_pow_base_increases(b1, b2, (e - 1) as nat);
        let p1 = pow(b1 as int, (e - 1) as nat);
        let p2 = pow(b2 as int, (e - 1) as nat);
        assert(0 <= b1 * p1 <= b2 * p2) by (nonlinear_arith)
            requires
                0 <= b1 <= b2,
                0 <= p1 <= p2,
        ;
    }
}

/// A power of a base of one or more grows with its exponent.
pub proof fn lemma_pow_exponent_increases(b: nat, e1: nat, e2: nat)
    requires
        1 <= b,
        e1 <= e2,
    ensures
        1 <= pow(b as int, e1) <= pow(b as int, e2),
    decreases e2,
{
    reveal(pow);
    lemma_pow_positive(b as int, e1);
    if e1 < e2 {
        lemma_pow_exponent_increases(b, e1, (e2 - 1) as nat);
        let p = pow(b as int, (e2 - 1) as nat);
        assert(p <= b * p) by (nonlinear_arith)
            requires
                1 <= b,
                0 <= p,
        ;
    }
}

/// The number takes its least significant digit from the front of the
/// sequence: the digits from `k` on are the digit at `k` and, one place up,
/// the digits from `k + 1` on.
pub proof fn lemma_le_number_from(digits: Seq<nat>, base: nat, k: int)
    requires
        0 <= k < digits.len(),
    ensures
        le_number(digits.subrange(k, digits.len() as int), base) == digits[k] + base * le_number(
            digits.subrange(k + 1, digits.len() as int),
            base,
        ),
{
    let tail = digits.subrange(k, digits.len() as int);
    assert(tail.drop_first() =~= digits.subrange(k + 1, digits.len() as int));
}

/// A number of `n` digits is below the `n`-th power of the base.
pub proof fn lemma_le_number_bound(digits: Seq<nat>, base: nat)
    requires
        all_below(digits, base),
    ensures
        le_number(digits, base) < pow(base as int, digits.len()),
    decreases digits.len(),
{
    reveal(pow);
    if digits.len() > 0 {
        let rest = digits.drop_first();
        assert(all_below(rest, base)) by {
            assert forall|i: int| 0 <= i < rest.len() implies rest[i] < base by {
                assert(rest[i] == digits[i + 1]);
            }
        }
        lemma_le_number_bound(rest, base);
        let r = le_number(rest, base) as int;
        let p = pow(base as int, rest.len());
        let d = digits[0] as int;
        assert(d + base * r < base * p) by (nonlinear_arith)
            requires
                0 <= d < base,
                0 <= r < p,
        ;
    }
}

/// The digit at place `k` of the number is the digit that was written there.
pub proof fn lemma_le_number_digit(digits: Seq<nat>, base: nat, k: int)
    requires
        all_below(digits, base),
        0 <= k < digits.len(),
    ensures
        pow(base as int, k as nat) > 0,
        (le_number(digits, base) as int / pow(base as int, k as nat)) % (base as int)
            == digits[k],
    decreases k,
{
    reveal(pow);
    let x = le_number(digits, base) as int;
    let rest = digits.drop_first();
    let r = le_number(rest, base) as int;
    let d = digits[0] as int;
    assert(base > 0);
    lemma_pow_positive(base as int, k as nat);
    assert(x == r * base + d) by (nonlinear_arith)
        requires
            x == d + base * r,
    ;
    lemma_fundamental_div_mod_converse(x, base as int, r, d);
    if k == 0 {
        assert(pow(base as int, 0) == 1);
        assert(rest.len() >= 0);
        if rest.len() > 0 {
            assert(all_below(rest, base)) by {
                assert forall|i: int| 0 <= i < rest.len() implies rest[i] < base by {
                    assert(rest[i] == digits[i + 1]);
                }
            }
        }
        assert(x / 1 == x);
    } else {
        assert(all_below(rest, base)) by {
            assert forall|i: int| 0 <= i < rest.len() implies rest[i] < base by {
                assert(rest[i] == digits[i + 1]);
            }
        }
        lemma_le_number_digit(rest, base, k - 1);
        let p = pow(base as int, (k - 1) as nat);
        lemma_pow_positive(base as int, (k - 1) as nat);
        lemma_div_denominator(x, base as int, p);
        assert(pow(base as int, k as nat) == base * p);
        assert(rest[k - 1] == digits[k]);
    }
}

/// The numbers of one, two and three digits, written out.
pub proof fn lemma_le_number_short(digits: Seq<nat>, base: nat)
    ensures
        digits.len() == 0 ==> le_number(digits, base) == 0,
        digits.len() == 1 ==> le_number(digits, base) == digits[0],
        digits.len() == 2 ==> le_number(digits, base) == digits[0] + base * digits[1],
        digits.len() == 3 ==> le_number(digits, base) == digits[0] + base * (digits[1] + base
            * digits[2]),
{
    reveal_with_fuel(le_number, 4);
    assert(base * 0 == 0) by (nonlinear_arith);
    if digits.len() >= 1 {
        let one = digits.drop_first();
        if one.len() >= 1 {
            assert(one[0] == digits[1]);
            let two = one.drop_first();
            if two.len() >= 1 {
                assert(two[0] == digits[2]);
            }
        }
    }
}

/// Reads the fields `(b / div) % base` of the `len` bytes at `first` as a
/// number in base `base`, the first byte holding the least significant digit.
pub(crate) fn le_fields(data: &[u8], first: usize, len: usize, div: u8, base: u8) -> (r: u64)
    requires
        first + len <= data@.len(),
        len <= 10,
        1 <= div,
        2 <= base <= 16,
    ensures
        r == le_number(
            byte_fields(data@.subrange(first as int, first + len), div as nat, base as nat),
            base as nat,
        ),
        r < pow(base as int, len as nat),
        pow(base as int, len as nat) <= 0x100_0000_0000,
{
    let total: usize = data.len();
    let ghost fields = byte_fields(
        data@.subrange(first as int, first + len),
        div as nat,
        base as nat,
    );
    let mut r: u64 = 0;
    let mut k: usize = len;
    proof {
        assert(fields.subrange(len as int, len as int) =~= Seq::<nat>::empty());
        reveal(pow);
        lemma_sixteen_to_the_tenth();
        lemma_pow_base_increases(base as nat, 16, len as nat);
        lemma_pow_exponent_increases(16, len as nat, 10);
    }
    while k > 0
        invariant
            0 <= k <= len <= 10,
            first + len <= total == data@.len(),
            1 <= div,
            2 <= base <= 16,
            fields == byte_fields(
                data@.subrange(first as int, first + len),
                div as nat,
                base as nat,
            ),
            r == le_number(fields.subrange(k as int, len as int), base as nat),
            r < pow(base as int, (len - k) as nat),
        decreases k,
    {
        k = k - 1;
        let digit: u8 = (data[first + k] / div) % base;
        proof {
            assert(fields.len() == len);
            assert(fields[k as int] == digit);
            lemma_le_number_from(fields, base as nat, k as int);
            lemma_pow_step(base as int, (len - k - 1) as nat);
            lemma_sixteen_to_the_tenth();
            lemma_pow_base_increases(base as nat, 16, (len - k) as nat);
            lemma_pow_exponent_increases(16, (len - k) as nat, 10);
            let p = pow(base as int, (len - k - 1) as nat);
            assert(r * base + digit < base * p && r * base == base * r) by (nonlinear_arith)
                requires
                    0 <= digit < base,
                    0 <= r < p,
            ;
        }
        r = r * (base as u64) + digit as u64;
    }
    proof {
        assert(fields.subrange(0, len as int) =~= fields);
    }
    r
}

/// Sixteen to the tenth power is two to the fortieth.
pub proof fn lemma_sixteen_to_the_tenth()
    ensures
        pow(16, 10) == 0x100_0000_0000,
{
    reveal_with_fuel(pow, 11);
}

} // verus!
