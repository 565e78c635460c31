//! Decimal numbers of any length, as digits.

use vstd::arithmetic::power::{
    lemma_pow_increases, lemma_pow_positive, lemma_pow_strictly_increases, pow,
};
use vstd::prelude::*;

verus! {

/// The number that decimal digits stand for, lowest digit first.
pub open spec fn digits_value(d: Seq<u8>) -> int
    decreases d.len(),
{
    if d.len() == 0 {
        0
    } else {
        digits_value(d.drop_last()) + d.last() * pow(10, (d.len() - 1) as nat)
    }
}

/// Digits, the highest of which is not zero.
pub open spec fn proper(d: Seq<u8>) -> bool {
    &&& forall|i: int| 0 <= i < d.len() ==> #[trigger] d[i] < 10
    &&& d.len() > 0 ==> d.last() != 0
}

pub proof fn lemma_power_step(n: nat)
    ensures
        pow(10, n + 1) == 10 * pow(10, n),
        pow(2, n + 1) == 2 * pow(2, n),
        pow(10, n) > 0,
{
    reveal(pow);
    lemma_pow_positive(10, n);
}

/// Digits are worth less than a one behind them.
proof fn lemma_below_power(d: Seq<u8>)
    requires
        forall|i: int| 0 <= i < d.len() ==> #[trigger] d[i] < 10,
    ensures
        0 <= digits_value(d) < pow(10, d.len()),
    decreases d.len(),
{
    if d.len() == 0 {
        lemma_power_step(0);
    } else {
        let front = d.drop_last();
        let p = pow(10, front.len());
        assert forall|i: int| 0 <= i < front.len() implies #[trigger] front[i] < 10 by {
            assert(d[i] < 10);
        }
        lemma_below_power(front);
        lemma_power_step(front.len());
        let last = d[d.len() - 1];
        assert(0 <= last * p <= 9 * p) by (nonlinear_arith)
            requires
                last < 10,
                p > 0,
        ;
    }
}

/// Twice a number.
fn doubled(d: &Vec<u8>) -> (r: Vec<u8>)
    requires
        proper(d@),
    ensures
        proper(r@),
        digits_value(r@) == 2 * digits_value(d@),
        r@.len() >= d@.len(),
{
    let mut r: Vec<u8> = Vec::new();
    let mut carry: u8 = 0;
    for i in 0..d.len()
        invariant
            proper(d@),
            r@.len() == i,
            carry <= 1,
            forall|j: int| 0 <= j < i ==> #[trigger] r@[j] < 10,
            digits_value(r@) + carry * pow(10, i as nat) == 2 * digits_value(d@.take(i as int)),
            i > 0 && d@[i - 1] != 0 && carry == 0 ==> r@[i - 1] != 0,
    {
        let ghost before = r@;
        let ghost p = pow(10, i as nat);
        let c: u8 = carry;
        assert(d@[i as int] < 10);
        let t: u8 = 2 * d[i] + carry;
        r.push(t % 10);
        carry = t / 10;
        proof {
            let digit = d@[i as int];
            lemma_power_step(i as nat);
            assert(r@.drop_last() =~= before);
            assert(d@.take(i + 1).drop_last() =~= d@.take(i as int));
            assert(t == 10 * carry + t % 10);
            assert((t % 10) * p + carry * (10 * p) == 2 * (digit * p) + c * p) by (nonlinear_arith)
                requires
                    t == 10 * carry + t % 10,
                    t == 2 * digit + c,
            ;
        }
    }
    assert(d@.take(d@.len() as int) =~= d@);
    if carry > 0 {
        let ghost before = r@;
        r.push(carry);
        assert(r@.drop_last() =~= before);
    }
    proof {
        let p = pow(10, d@.len());
        assert(carry == 0 ==> carry * p == 0) by (nonlinear_arith);
        if carry == 0 && d@.len() > 0 {
            assert(d@[d@.len() - 1] == d@.last());
        }
    }
    r
}

/// A number, doubled `n` times.
fn shifted(d: Vec<u8>, n: u32) -> (r: Vec<u8>)
    requires
        proper(d@),
        d@.len() > 0,
    ensures
        proper(r@),
        r@.len() > 0,
        digits_value(r@) == digits_value(d@) * pow(2, n as nat),
{
    let ghost m = digits_value(d@);
    let mut r: Vec<u8> = d;
    proof {
        reveal(pow);
        assert(m * pow(2, 0) == m) by (nonlinear_arith)
            requires
                pow(2, 0) == 1,
        ;
    }
    for i in 0..n
        invariant
            proper(r@),
            r@.len() > 0,
            digits_value(r@) == m * pow(2, i as nat),
    {
        r = doubled(&r);
        proof {
            lemma_power_step(i as nat);
            let p = pow(2, i as nat);
            assert(m * (2 * p) == 2 * (m * p)) by (nonlinear_arith);
        }
    }
    r
}

proof fn lemma_zero_digits(d: Seq<u8>)
    requires
        forall|i: int| 0 <= i < d.len() ==> #[trigger] d[i] == 0,
    ensures
        digits_value(d) == 0,
    decreases d.len(),
{
    if d.len() > 0 {
        assert forall|i: int| 0 <= i < d.drop_last().len() implies #[trigger] d.drop_last()[i]
            == 0 by {
            assert(d[i] == 0);
        }
        lemma_zero_digits(d.drop_last());
        let p = pow(10, (d.len() - 1) as nat);
        let last = d[d.len() - 1];
        assert(last * p == 0) by (nonlinear_arith)
            requires
                last == 0,
        ;
    }
}

proof fn lemma_nonzero_digit(d: Seq<u8>, i: int)
    requires
        forall|j: int| 0 <= j < d.len() ==> #[trigger] d[j] < 10,
        0 <= i < d.len(),
        d[i] != 0,
    ensures
        digits_value(d) > 0,
    decreases d.len(),
{
    let front = d.drop_last();
    assert forall|j: int| 0 <= j < front.len() implies #[trigger] front[j] < 10 by {
        assert(d[j] < 10);
    }
    let p = pow(10, front.len());
    let last = d[d.len() - 1];
    lemma_power_step(front.len());
    lemma_below_power(front);
    assert(0 <= last * p) by (nonlinear_arith)
        requires
            p > 0,
    ;
    if i < front.len() {
        assert(front[i] != 0);
        lemma_nonzero_digit(front, i);
    } else {
        assert(last * p > 0) by (nonlinear_arith)
            requires
                last > 0,
                p > 0,
        ;
    }
}

/// A number with its highest digit lies between the powers of ten around it.
proof fn lemma_between_powers(d: Seq<u8>)
    requires
        proper(d),
        d.len() > 0,
    ensures
        pow(10, (d.len() - 1) as nat) + digits_value(d.drop_last()) <= digits_value(d) < pow(
            10,
            d.len(),
        ),
        digits_value(d.drop_last()) >= 0,
        d.last() > 1 ==> digits_value(d) > pow(10, (d.len() - 1) as nat),
        d.last() == 1 ==> digits_value(d) == pow(10, (d.len() - 1) as nat) + digits_value(
            d.drop_last(),
        ),
{
    let front = d.drop_last();
    assert forall|j: int| 0 <= j < front.len() implies #[trigger] front[j] < 10 by {
        assert(d[j] < 10);
    }
    lemma_below_power(d);
    lemma_below_power(front);
    lemma_power_step(front.len());
    let p = pow(10, front.len());
    let last = d.last();
    assert(last * p >= p) by (nonlinear_arith)
        requires
            last >= 1,
            p > 0,
    ;
    assert(last > 1 ==> last * p > p) by (nonlinear_arith)
        requires
            p > 0,
    ;
    assert(last == 1 ==> last * p == p) by (nonlinear_arith);
}

/// Whether a number is at most ten to the power `k`.
fn is_at_most_power(d: &Vec<u8>, k: u64) -> (b: bool)
    requires
        proper(d@),
        d@.len() > 0,
    ensures
        b == (digits_value(d@) <= pow(10, k as nat)),
{
    let n: usize = d.len();
    proof {
        lemma_between_powers(d@);
    }
    if k >= n as u64 {
        proof {
            lemma_pow_increases(10, n as nat, k as nat);
        }
        return true;
    }
    if k < (n - 1) as u64 {
        proof {
            lemma_pow_strictly_increases(10, k as nat, (n - 1) as nat);
        }
        return false;
    }
    if d[n - 1] != 1 {
        return false;
    }
    for i in 0..n - 1
        invariant
            n == d@.len(),
            n > 0,
            k == n - 1,
            proper(d@),
            d@.last() == 1,
            digits_value(d@) == pow(10, (n - 1) as nat) + digits_value(d@.drop_last()),
            forall|j: int| 0 <= j < i ==> #[trigger] d@[j] == 0,
    {
        if d[i] != 0 {
            proof {
                let front = d@.drop_last();
                assert forall|j: int| 0 <= j < front.len() implies #[trigger] front[j] < 10 by {
                    assert(d@[j] < 10);
                }
                lemma_nonzero_digit(front, i as int);
            }
            return false;
        }
    }
    proof {
        assert forall|j: int| 0 <= j < d@.drop_last().len() implies #[trigger] d@.drop_last()[j]
            == 0 by {
            assert(d@[j] == 0);
        }
        lemma_zero_digits(d@.drop_last());
    }
    true
}

/// Half of the smallest positive floating-point number of 64 bits is one half to this
/// power.
pub const HALF_OF_SMALLEST: u32 = 1075;

/// Whether `m` times ten to the power `e` is read as zero by a floating-point number
/// of 64 bits: it is no more than half of the smallest positive one. The half itself
/// goes to zero.
pub open spec fn rounds_to_zero(m: int, e: int) -> bool {
    m == 0 || (e < 0 && m * pow(2, HALF_OF_SMALLEST as nat) <= pow(10, (-e) as nat))
}

/// A bound that is large enough for every power of ten that can matter.
proof fn lemma_far_power(d: Seq<u8>, k: nat)
    requires
        proper(d),
        d.len() > 0,
        d.len() <= u64::MAX <= k,
    ensures
        digits_value(d) <= pow(10, k),
        digits_value(d) <= pow(10, u64::MAX as nat),
{
    lemma_between_powers(d);
    lemma_pow_increases(10, d.len(), k);
    lemma_pow_increases(10, d.len(), u64::MAX as nat);
}

/// Whether a number with `places` digits behind the point, and with the exponent
/// `exponent` or its negative, is read as zero. An exponent that does not fit is
/// given as the largest one.
pub(crate) fn is_read_as_zero(
    d: Vec<u8>,
    places: u64,
    negative: bool,
    exponent: u64,
    Ghost(exact): Ghost<nat>,
) -> (b: bool)
    requires
        proper(d@),
        exponent == exact || (exponent == u64::MAX && exact >= u64::MAX),
    ensures
        b == rounds_to_zero(
            digits_value(d@),
            (if negative {
                -(exact as int)
            } else {
                exact as int
            }) - places,
        ),
{
    if d.len() == 0 {
        return true;
    }
    proof {
        lemma_between_powers(d@);
        lemma_pow_positive(10, (d@.len() - 1) as nat);
    }
    let ghost m = digits_value(d@);
    if !negative && exponent >= places {
        return false;
    }
    let room: u64 = u64::MAX - places;
    let ghost k: int = if negative {
        exact + places
    } else {
        places - exact
    };
    if negative && places == 0 && exponent == 0 {
        return false;
    }
    let w: Vec<u8> = shifted(d, HALF_OF_SMALLEST);
    let length: usize = w.len();
    if negative && exponent >= room {
        proof {
            assert(length <= u64::MAX);
            lemma_far_power(w@, k as nat);
        }
        return true;
    }
    let power: u64 = if negative {
        places + exponent
    } else {
        places - exponent
    };
    is_at_most_power(&w, power)
}

} // verus!
