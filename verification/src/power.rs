use vstd::arithmetic::power2::*;
use vstd::prelude::*;

verus! {

/// The binary digits of `m`, least significant first, with no trailing zero
/// digit: the schedule that square-and-multiply exponentiation follows.
pub open spec fn plan_digits(m: nat) -> Seq<bool>
    decreases m,
{
    if m == 0 {
        Seq::empty()
    } else {
        seq![m % 2 == 1] + plan_digits(m / 2)
    }
}

/// The number that a digit sequence (least significant first) denotes.
pub open spec fn digits_value(s: Seq<bool>) -> nat
    decreases s.len(),
{
    if s.len() == 0 {
        0nat
    } else {
        (if s[0] {
            1nat
        } else {
            0nat
        }) + 2 * digits_value(s.drop_first())
    }
}

/// Exponent bookkeeping of a square-and-multiply fold over the digits:
/// `acc` is the exponent gathered so far and `base` the exponent that the
/// running base stands for; a set digit adds `base` into `acc`, and `base`
/// doubles at every step because the running base is squared.
pub open spec fn run_exponents(s: Seq<bool>, acc: nat, base: nat) -> nat
    decreases s.len(),
{
    if s.len() == 0 {
        acc
    } else {
        run_exponents(
            s.drop_first(),
            if s[0] {
                acc + base
            } else {
                acc
            },
            2 * base,
        )
    }
}

/// The magnitude of an integer.
pub open spec fn abs_spec(n: int) -> nat {
    if n < 0 {
        (-n) as nat
    } else {
        n as nat
    }
}

/// How `a` raised to the integer `n` is computed: for a negative exponent
/// the base is first replaced by its reciprocal, then the digits of the
/// magnitude of `n`, least significant first, drive a square-and-multiply
/// fold that starts from the multiplicative identity.
pub struct PowerPlan {
    pub reciprocal_base: bool,
    pub digits: Vec<bool>,
}

/// The schedule for the exponent `n`: the reciprocal flag is set exactly for
/// negative `n`, and the digits are the binary digits of the magnitude.
pub fn power_plan(n: i32) -> (p: PowerPlan)
    ensures
        p.reciprocal_base == (n < 0),
        p.digits@ == plan_digits(abs_spec(n as int)),
{
    let mut m: u32 = if n < 0 {
        (-(n as i64)) as u32
    } else {
        n as u32
    };
    let mut digits: Vec<bool> = Vec::new();
    proof {
        assert(m as nat == abs_spec(n as int));
        assert(plan_digits(abs_spec(n as int)) =~= digits@ + plan_digits(m as nat));
    }
    while m > 0
        invariant
            plan_digits(abs_spec(n as int)) == digits@ + plan_digits(m as nat),
        decreases m,
    {
        let bit: bool = m % 2 == 1;
        let ghost prev = digits@;
        let ghost prev_m = m as nat;
        digits.push(bit);
        m = m / 2;
        proof {
            assert(plan_digits(prev_m) == seq![bit] + plan_digits(m as nat));
            assert(prev + (seq![bit] + plan_digits(m as nat)) =~= (prev + seq![bit]) + plan_digits(
                m as nat,
            ));
            assert(digits@ =~= prev + seq![bit]);
        }
    }
    proof {
        assert(digits@ + plan_digits(0) =~= digits@);
    }
    PowerPlan { reciprocal_base: n < 0, digits }
}

/// The digit sequence of `m` denotes `m` itself.
pub proof fn lemma_plan_digits_value(m: nat)
    ensures
        digits_value(plan_digits(m)) == m,
    decreases m,
{
    if m == 0 {
    } else {
        lemma_plan_digits_value(m / 2);
        let s = plan_digits(m);
        assert(s == seq![m % 2 == 1] + plan_digits(m / 2));
        assert(s.drop_first() =~= plan_digits(m / 2));
        assert(s[0] == (m % 2 == 1));
        assert(m == 2 * (m / 2) + m % 2);
    }
}

/// A square-and-multiply fold gathers exactly the exponent that the digits
/// denote, scaled by the exponent of the running base, on top of what the
/// accumulator already holds.
proof fn lemma_run_exponents(s: Seq<bool>, acc: nat, base: nat)
    ensures
        run_exponents(s, acc, base) == acc + digits_value(s) * base,
    decreases s.len(),
{
    if s.len() == 0 {
        assert(digits_value(s) * base == 0) by (nonlinear_arith)
            requires
                digits_value(s) == 0,
        ;
    } else {
        let acc2: nat = if s[0] {
            acc + base
        } else {
            acc
        };
        lemma_run_exponents(s.drop_first(), acc2, 2 * base);
        let d0: nat = if s[0] {
            1nat
        } else {
            0nat
        };
        let rest: nat = digits_value(s.drop_first());
        assert(digits_value(s) == d0 + 2 * rest);
        assert((d0 + 2 * rest) * base == d0 * base + rest * (2 * base)) by (nonlinear_arith);
        assert(d0 * base == if s[0] {
            base
        } else {
            0nat
        }) by (nonlinear_arith)
            requires
                d0 == if s[0] {
                    1nat
                } else {
                    0nat
                },
        ;
    }
}

/// Folding square-and-multiply over the digit schedule of `m` raises the
/// base to exactly the power `m`: starting from a gathered exponent of zero,
/// with the running base standing for exponent one, the fold ends at `m`.
pub proof fn lemma_plan_computes_power(m: nat)
    ensures
        run_exponents(plan_digits(m), 0, 1) == m,
{
    lemma_run_exponents(plan_digits(m), 0, 1);
    lemma_plan_digits_value(m);
}

/// Negating the exponent keeps the digit schedule of its magnitude and only
/// flips which base is folded: `a` to the power `-n` is the reciprocal of
/// `a`, raised to the power `n`.
pub proof fn lemma_negation_shares_digits(n: int)
    ensures
        plan_digits(abs_spec(-n)) == plan_digits(abs_spec(n)),
        n != 0 ==> ((-n < 0) != (n < 0)),
{
    assert(abs_spec(-n) == abs_spec(n));
}

/// The schedule of exponent zero is empty, so the fold returns its starting
/// accumulator, the multiplicative identity: a zeroth power is one plus
/// zero i, whatever the base, the zero base included.
pub proof fn lemma_zero_exponent_is_identity()
    ensures
        plan_digits(0) == Seq::<bool>::empty(),
        run_exponents(Seq::<bool>::empty(), 0, 1) == 0,
{
}

/// The schedule is logarithmic in the exponent: an exponent below two to
/// the `k` has at most `k` digits, so the fold makes at most `2 * k`
/// multiplications.
pub proof fn lemma_plan_length(m: nat, k: nat)
    requires
        m < pow2(k),
    ensures
        plan_digits(m).len() <= k,
    decreases m,
{
    if m == 0 {
    } else {
        lemma_pow2_pos(0);
        if k == 0 {
            assert(pow2(0) == 1) by {
                lemma2_to64();
            }
        }
        assert(k >= 1);
        assert(pow2(k) == 2 * pow2((k - 1) as nat)) by {
            lemma_pow2_adds(1, (k - 1) as nat);
            lemma2_to64();
        }
        assert(m / 2 < pow2((k - 1) as nat));
        lemma_plan_length(m / 2, (k - 1) as nat);
        assert(plan_digits(m).len() == 1 + plan_digits(m / 2).len());
    }
}

} // verus!
