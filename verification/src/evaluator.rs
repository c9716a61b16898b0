use vstd::prelude::*;

use vstd::arithmetic::div_mod::lemma_fundamental_div_mod;
use vstd::arithmetic::mul::lemma_mul_is_commutative;
use vstd::arithmetic::power::lemma0_pow;
use vstd::arithmetic::power::lemma1_pow;
use vstd::arithmetic::power::lemma_pow0;
use vstd::arithmetic::power::pow;

use crate::math::Math;
use crate::symbol::Symbol;

verus! {

/// Whether the mathematical integer `v` is representable as an `i64`.
pub open spec fn in_i64(v: int) -> bool {
    i64::MIN <= v <= i64::MAX
}

/// The exact sum, when representable.
pub open spec fn spec_fold_add(a: i64, b: i64) -> Option<i64> {
    if in_i64(a + b) {
        Some((a + b) as i64)
    } else {
        None
    }
}

/// The exact difference, when representable.
pub open spec fn spec_fold_sub(a: i64, b: i64) -> Option<i64> {
    if in_i64(a - b) {
        Some((a - b) as i64)
    } else {
        None
    }
}

/// The exact product, when representable.
pub open spec fn spec_fold_mul(a: i64, b: i64) -> Option<i64> {
    if in_i64(a * b) {
        Some((a * b) as i64)
    } else {
        None
    }
}

/// The exact quotient, when the division comes out even and the quotient
/// is representable.
pub open spec fn spec_fold_div(a: i64, b: i64) -> Option<i64> {
    if b != 0 && a as int % b as int == 0 && in_i64(a as int / b as int) {
        Some((a as int / b as int) as i64)
    } else {
        None
    }
}

/// The exact power, when the exponent is not negative and the result is
/// representable.
pub open spec fn spec_fold_pow(a: i64, b: i64) -> Option<i64> {
    if b >= 0 && in_i64(pow(a as int, b as nat)) {
        Some(pow(a as int, b as nat) as i64)
    } else {
        None
    }
}

fn fold_add(a: i64, b: i64) -> (r: Option<i64>)
    ensures
        r == spec_fold_add(a, b),
{
    a.checked_add(b)
}

fn fold_sub(a: i64, b: i64) -> (r: Option<i64>)
    ensures
        r == spec_fold_sub(a, b),
{
    a.checked_sub(b)
}

fn fold_mul(a: i64, b: i64) -> (r: Option<i64>)
    ensures
        r == spec_fold_mul(a, b),
{
    a.checked_mul(b)
}

fn fold_div(a: i64, b: i64) -> (r: Option<i64>)
    ensures
        r == spec_fold_div(a, b),
{
    if b == 0 {
        return None;
    }
    proof {
        lemma_fundamental_div_mod(a as int, b as int);
        lemma_mul_is_commutative(b as int, a as int / b as int);
    }
    match a.checked_div_euclid(b) {
        None => None,
        Some(q) => match q.checked_mul(b) {
            Some(p) => {
                if p == a {
                    Some(q)
                } else {
                    None
                }
            },
            None => None,
        },
    }
}

/// The magnitude of an integer.
pub open spec fn mag(v: int) -> int {
    if v < 0 {
        -v
    } else {
        v
    }
}

proof fn lemma_mag_mul(a: int, x: int)
    requires
        a <= -2 || a >= 2,
    ensures
        mag(a * x) >= 2 * mag(x),
{
    if x >= 0 {
        if a >= 2 {
            assert(a * x >= 2 * x) by (nonlinear_arith)
                requires
                    a >= 2 && x >= 0,
            ;
        } else {
            assert(a * x <= -2 * x) by (nonlinear_arith)
                requires
                    a <= -2 && x >= 0,
            ;
        }
    } else {
        if a >= 2 {
            assert(a * x <= 2 * x) by (nonlinear_arith)
                requires
                    a >= 2 && x < 0,
            ;
        } else {
            assert(a * x >= -2 * x) by (nonlinear_arith)
                requires
                    a <= -2 && x < 0,
            ;
        }
    }
}

proof fn lemma_pow_unfold(a: int, e: nat)
    requires
        e > 0,
    ensures
        pow(a, e) == a * pow(a, (e - 1) as nat),
{
    reveal(pow);
}

proof fn lemma_pow_mag(a: int, i: nat, j: nat)
    requires
        a <= -2 || a >= 2,
        i <= j,
    ensures
        mag(pow(a, j)) >= mag(pow(a, i)),
        i < j ==> mag(pow(a, j)) >= 2 * mag(pow(a, i)),
    decreases j - i,
{
    if i < j {
        lemma_pow_mag(a, i, (j - 1) as nat);
        lemma_pow_unfold(a, j);
        lemma_mag_mul(a, pow(a, (j - 1) as nat));
    }
}

proof fn lemma_neg1_pow(e: nat)
    ensures
        pow(-1, e) == if e % 2 == 0 {
            1int
        } else {
            -1int
        },
    decreases e,
{
    reveal(pow);
    if e > 0 {
        lemma_neg1_pow((e - 1) as nat);
    }
}

fn fold_pow(a: i64, b: i64) -> (r: Option<i64>)
    ensures
        r == spec_fold_pow(a, b),
{
    if b < 0 {
        return None;
    }
    if a == 0 {
        if b == 0 {
            proof {
                lemma_pow0(0);
            }
            return Some(1);
        }
        proof {
            lemma0_pow(b as nat);
        }
        return Some(0);
    }
    if a == 1 {
        proof {
            lemma1_pow(b as nat);
        }
        return Some(1);
    }
    if a == -1 {
        proof {
            lemma_neg1_pow(b as nat);
        }
        if b % 2 == 0 {
            return Some(1);
        }
        return Some(-1);
    }
    let mut acc: i64 = 1;
    let mut i: i64 = 0;
    proof {
        lemma_pow0(a as int);
    }
    while i < b
        invariant
            a as int <= -2 || a as int >= 2,
            0 <= i <= b,
            acc as int == pow(a as int, i as nat),
        decreases b - i,
    {
        match acc.checked_mul(a) {
            Some(next) => {
                proof {
                    lemma_pow_unfold(a as int, (i + 1) as nat);
                    lemma_mul_is_commutative(acc as int, a as int);
                }
                acc = next;
                i = i + 1;
            },
            None => {
                proof {
                    lemma_pow_unfold(a as int, (i + 1) as nat);
                    lemma_mul_is_commutative(acc as int, a as int);
                    if i + 1 < b {
                        lemma_pow_mag(a as int, (i + 1) as nat, b as nat);
                    }
                }
                return None;
            },
        }
    }
    Some(acc)
}

// ---------- one layer of local rewriting ----------
//
// Each `spec_rewrite_*` function says what one local rewrite of a node
// returns, given the node's two children; the rules expect the children to
// be already simplified, but are total either way.  A rule whose folded
// constant would not be representable does not fire.

/// The `c*v + v` and `v + c*v` rule: when the product's children are a
/// constant and the same variable `s`, the sum becomes `(c+1)*v`, keeping
/// the variable leaf from inside the product.
pub open spec fn spec_add_absorb_var(l: Math, r: Math, x: Math, y: Math, s: Symbol) -> Math {
    match (x, y) {
        (Math::Constant(c), Math::Variable(s2)) => if s2 == s && in_i64(c + 1) {
            Math::Multiply(Box::new(Math::Constant((c + 1) as i64)), Box::new(Math::Variable(s2)))
        } else {
            Math::Add(Box::new(l), Box::new(r))
        },
        (Math::Variable(s2), Math::Constant(c)) => if s2 == s && in_i64(c + 1) {
            Math::Multiply(Box::new(Math::Constant((c + 1) as i64)), Box::new(Math::Variable(s2)))
        } else {
            Math::Add(Box::new(l), Box::new(r))
        },
        _ => Math::Add(Box::new(l), Box::new(r)),
    }
}

/// The `v^p * v` and `v * v^p` rule: when the power's base is the very
/// variable it is multiplied by, the variable is absorbed into the
/// exponent; the new exponent is left as a plain `p + 1` sum.
pub open spec fn spec_absorb_into_power(l: Math, r: Math, base: Math, p: Math, s: Symbol) -> Math {
    match base {
        Math::Variable(s2) => if s2 == s {
            Math::Power(
                Box::new(Math::Variable(s2)),
                Box::new(Math::Add(Box::new(p), Box::new(Math::Constant(1)))),
            )
        } else {
            Math::Multiply(Box::new(l), Box::new(r))
        },
        _ => Math::Multiply(Box::new(l), Box::new(r)),
    }
}

/// One local rewrite of `Add(l, r)`: identity elimination, constant
/// folding, and like-term combination.
pub open spec fn spec_rewrite_add(l: Math, r: Math) -> Math
    decreases l.size() + r.size(),
{
    if l == Math::Constant(0) {
        r
    } else if r == Math::Constant(0) {
        l
    } else {
        match (l, r) {
            (Math::Constant(a), Math::Constant(b)) => match spec_fold_add(a, b) {
                Some(c) => Math::Constant(c),
                None => Math::Add(Box::new(l), Box::new(r)),
            },
            (Math::Variable(s1), Math::Variable(s2)) => if s1 == s2 {
                Math::Multiply(Box::new(Math::Constant(2)), Box::new(Math::Variable(s1)))
            } else {
                Math::Add(Box::new(l), Box::new(r))
            },
            (Math::Multiply(x, y), Math::Variable(s)) => spec_add_absorb_var(l, r, *x, *y, s),
            (Math::Variable(s), Math::Multiply(x, y)) => spec_add_absorb_var(l, r, *x, *y, s),
            (Math::Multiply(x1, y1), Math::Multiply(x2, y2)) => match (*x1, *y1) {
                (Math::Constant(c1), v1) => match (*x2, *y2) {
                    (v2, Math::Constant(c2)) => if v1 == v2 && in_i64(c1 + c2) {
                        spec_rewrite_mult(Math::Constant((c1 + c2) as i64), v1)
                    } else {
                        Math::Add(Box::new(l), Box::new(r))
                    },
                    (Math::Constant(c2), v2) => if v1 == v2 && in_i64(c1 + c2) {
                        spec_rewrite_mult(Math::Constant((c1 + c2) as i64), v1)
                    } else {
                        Math::Add(Box::new(l), Box::new(r))
                    },
                    _ => Math::Add(Box::new(l), Box::new(r)),
                },
                (v1, Math::Constant(c1)) => match (*x2, *y2) {
                    (v2, Math::Constant(c2)) => if v1 == v2 && in_i64(c1 + c2) {
                        spec_rewrite_mult(Math::Constant((c1 + c2) as i64), v1)
                    } else {
                        Math::Add(Box::new(l), Box::new(r))
                    },
                    (Math::Constant(c2), v2) => if v1 == v2 && in_i64(c1 + c2) {
                        spec_rewrite_mult(Math::Constant((c1 + c2) as i64), v1)
                    } else {
                        Math::Add(Box::new(l), Box::new(r))
                    },
                    _ => Math::Add(Box::new(l), Box::new(r)),
                },
                _ => Math::Add(Box::new(l), Box::new(r)),
            },
            _ => Math::Add(Box::new(l), Box::new(r)),
        }
    }
}

/// One local rewrite of `Subtract(l, r)`: identity elimination (`x - 0`
/// and `0 - x` both return `x`, dropping the sign, as the rule set has
/// always done), constant folding, and like-term combination.
pub open spec fn spec_rewrite_sub(l: Math, r: Math) -> Math
    decreases l.size() + r.size(),
{
    if l == Math::Constant(0) {
        r
    } else if r == Math::Constant(0) {
        l
    } else {
        match (l, r) {
            (Math::Constant(a), Math::Constant(b)) => match spec_fold_sub(a, b) {
                Some(c) => Math::Constant(c),
                None => Math::Subtract(Box::new(l), Box::new(r)),
            },
            (Math::Multiply(x1, y1), Math::Multiply(x2, y2)) => match (*x1, *y1) {
                (Math::Constant(c1), v1) => match (*x2, *y2) {
                    (v2, Math::Constant(c2)) => if v1 == v2 && in_i64(c1 - c2) {
                        spec_rewrite_mult(Math::Constant((c1 - c2) as i64), v1)
                    } else {
                        Math::Subtract(Box::new(l), Box::new(r))
                    },
                    (Math::Constant(c2), v2) => if v1 == v2 && in_i64(c1 - c2) {
                        spec_rewrite_mult(Math::Constant((c1 - c2) as i64), v1)
                    } else {
                        Math::Subtract(Box::new(l), Box::new(r))
                    },
                    _ => Math::Subtract(Box::new(l), Box::new(r)),
                },
                (v1, Math::Constant(c1)) => match (*x2, *y2) {
                    (v2, Math::Constant(c2)) => if v1 == v2 && in_i64(c1 - c2) {
                        spec_rewrite_mult(Math::Constant((c1 - c2) as i64), v1)
                    } else {
                        Math::Subtract(Box::new(l), Box::new(r))
                    },
                    (Math::Constant(c2), v2) => if v1 == v2 && in_i64(c1 - c2) {
                        spec_rewrite_mult(Math::Constant((c1 - c2) as i64), v1)
                    } else {
                        Math::Subtract(Box::new(l), Box::new(r))
                    },
                    _ => Math::Subtract(Box::new(l), Box::new(r)),
                },
                _ => Math::Subtract(Box::new(l), Box::new(r)),
            },
            _ => Math::Subtract(Box::new(l), Box::new(r)),
        }
    }
}

/// One local rewrite of `Multiply(l, r)`: constant folding, merging of
/// powers over one base, like-term combination, absorbing a variable into
/// a power over it, squaring `v * v`, pulling a stray constant factor out
/// of a nested product, and elimination of the factors zero and one.
pub open spec fn spec_rewrite_mult(l: Math, r: Math) -> Math
    decreases l.size() + r.size(),
{
    match (l, r) {
        (Math::Constant(a), Math::Constant(b)) => match spec_fold_mul(a, b) {
            Some(c) => Math::Constant(c),
            None => Math::Multiply(Box::new(l), Box::new(r)),
        },
        (Math::Power(b1, p1), Math::Power(b2, p2)) => if *b1 == *b2 {
            Math::Power(b1, Box::new(spec_rewrite_add(*p1, *p2)))
        } else {
            Math::Multiply(Box::new(l), Box::new(r))
        },
        (Math::Multiply(x1, y1), Math::Multiply(x2, y2)) => match (*x1, *y1) {
            (Math::Constant(c1), v1) => match (*x2, *y2) {
                (v2, Math::Constant(c2)) => if v1 == v2 && in_i64(c1 * c2) {
                    spec_rewrite_mult(Math::Constant((c1 * c2) as i64), v1)
                } else {
                    Math::Multiply(Box::new(l), Box::new(r))
                },
                (Math::Constant(c2), v2) => if v1 == v2 && in_i64(c1 * c2) {
                    spec_rewrite_mult(Math::Constant((c1 * c2) as i64), v1)
                } else {
                    Math::Multiply(Box::new(l), Box::new(r))
                },
                _ => Math::Multiply(Box::new(l), Box::new(r)),
            },
            (v1, Math::Constant(c1)) => match (*x2, *y2) {
                (v2, Math::Constant(c2)) => if v1 == v2 && in_i64(c1 * c2) {
                    spec_rewrite_mult(Math::Constant((c1 * c2) as i64), v1)
                } else {
                    Math::Multiply(Box::new(l), Box::new(r))
                },
                (Math::Constant(c2), v2) => if v1 == v2 && in_i64(c1 * c2) {
                    spec_rewrite_mult(Math::Constant((c1 * c2) as i64), v1)
                } else {
                    Math::Multiply(Box::new(l), Box::new(r))
                },
                _ => Math::Multiply(Box::new(l), Box::new(r)),
            },
            _ => Math::Multiply(Box::new(l), Box::new(r)),
        },
        (Math::Power(base, p), Math::Variable(s)) => spec_absorb_into_power(l, r, *base, *p, s),
        (Math::Variable(s), Math::Power(base, p)) => spec_absorb_into_power(l, r, *base, *p, s),
        (Math::Variable(s1), Math::Variable(s2)) => if s1 == s2 {
            Math::Power(Box::new(Math::Variable(s1)), Box::new(Math::Constant(2)))
        } else {
            Math::Multiply(Box::new(l), Box::new(r))
        },
        (Math::Constant(c1), Math::Multiply(x1, x2)) => match (*x1, *x2) {
            (Math::Constant(c2), v) => if in_i64(c1 * c2) {
                spec_rewrite_mult(Math::Constant((c1 * c2) as i64), v)
            } else {
                Math::Multiply(Box::new(l), Box::new(r))
            },
            (v, Math::Constant(c2)) => if in_i64(c1 * c2) {
                spec_rewrite_mult(Math::Constant((c1 * c2) as i64), v)
            } else {
                Math::Multiply(Box::new(l), Box::new(r))
            },
            _ => Math::Multiply(Box::new(l), Box::new(r)),
        },
        (Math::Multiply(x1, x2), Math::Constant(c1)) => match (*x1, *x2) {
            (Math::Constant(c2), v) => if in_i64(c1 * c2) {
                spec_rewrite_mult(Math::Constant((c1 * c2) as i64), v)
            } else {
                Math::Multiply(Box::new(l), Box::new(r))
            },
            (v, Math::Constant(c2)) => if in_i64(c1 * c2) {
                spec_rewrite_mult(Math::Constant((c1 * c2) as i64), v)
            } else {
                Math::Multiply(Box::new(l), Box::new(r))
            },
            _ => Math::Multiply(Box::new(l), Box::new(r)),
        },
        (Math::Constant(c), any) => if c == 0 {
            Math::Constant(0)
        } else if c == 1 {
            any
        } else {
            Math::Multiply(Box::new(l), Box::new(r))
        },
        (any, Math::Constant(c)) => if c == 0 {
            Math::Constant(0)
        } else if c == 1 {
            any
        } else {
            Math::Multiply(Box::new(l), Box::new(r))
        },
        _ => Math::Multiply(Box::new(l), Box::new(r)),
    }
}

/// One local rewrite of `Divide(l, r)`: division by one, exact constant
/// folding, merging of powers over one base, and structural self-division
/// `a / a = 1`.
pub open spec fn spec_rewrite_div(l: Math, r: Math) -> Math
    decreases l.size() + r.size(),
{
    if r == Math::Constant(1) {
        l
    } else {
        match (l, r) {
            (Math::Constant(a), Math::Constant(b)) => match spec_fold_div(a, b) {
                Some(c) => Math::Constant(c),
                None => Math::Divide(Box::new(l), Box::new(r)),
            },
            (Math::Power(b1, p1), Math::Power(b2, p2)) => if *b1 == *b2 {
                Math::Power(b1, Box::new(spec_rewrite_sub(*p1, *p2)))
            } else {
                Math::Divide(Box::new(l), Box::new(r))
            },
            _ => if l == r {
                Math::Constant(1)
            } else {
                Math::Divide(Box::new(l), Box::new(r))
            },
        }
    }
}

/// One local rewrite of `Power(l, r)`: the exponents one and zero,
/// constant folding, and flattening a power of a power by multiplying the
/// exponents.
pub open spec fn spec_rewrite_pow(l: Math, r: Math) -> Math
    decreases l.size() + r.size(),
{
    if r == Math::Constant(1) {
        l
    } else if r == Math::Constant(0) {
        Math::Constant(1)
    } else {
        match l {
            Math::Constant(a) => match r {
                Math::Constant(b) => match spec_fold_pow(a, b) {
                    Some(c) => Math::Constant(c),
                    None => Math::Power(Box::new(l), Box::new(r)),
                },
                _ => Math::Power(Box::new(l), Box::new(r)),
            },
            Math::Power(b2, p1) => Math::Power(b2, Box::new(spec_rewrite_mult(*p1, r))),
            _ => Math::Power(Box::new(l), Box::new(r)),
        }
    }
}

/// One local rewrite of the top node, for children already simplified;
/// every node with no matching rule passes through unchanged.
pub open spec fn spec_evaluate(e: Math) -> Math {
    match e {
        Math::Add(l, r) => spec_rewrite_add(*l, *r),
        Math::Subtract(l, r) => spec_rewrite_sub(*l, *r),
        Math::Multiply(l, r) => spec_rewrite_mult(*l, *r),
        Math::Divide(l, r) => spec_rewrite_div(*l, *r),
        Math::Power(l, r) => spec_rewrite_pow(*l, *r),
        _ => e,
    }
}

/// One bottom-up simplification pass: children first, then one local
/// rewrite of the node itself.  A `Log` node is left untouched, argument
/// included.
pub open spec fn spec_simplify(e: Math) -> Math
    decreases e,
{
    match e {
        Math::Add(l, r) => spec_rewrite_add(spec_simplify(*l), spec_simplify(*r)),
        Math::Subtract(l, r) => spec_rewrite_sub(spec_simplify(*l), spec_simplify(*r)),
        Math::Multiply(l, r) => spec_rewrite_mult(spec_simplify(*l), spec_simplify(*r)),
        Math::Divide(l, r) => spec_rewrite_div(spec_simplify(*l), spec_simplify(*r)),
        Math::Power(l, r) => spec_rewrite_pow(spec_simplify(*l), spec_simplify(*r)),
        Math::Ln(a) => Math::Ln(Box::new(spec_simplify(*a))),
        _ => e,
    }
}

pub(crate) fn rewrite_add(l: &Math, r: &Math) -> (res: Math)
    ensures
        res == spec_rewrite_add(*l, *r),
    decreases l.size() + r.size(),
{
    if let Math::Constant(c) = l {
        if *c == 0 {
            return r.duplicate();
        }
    }
    if let Math::Constant(c) = r {
        if *c == 0 {
            return l.duplicate();
        }
    }
    match (l, r) {
        (Math::Constant(a), Math::Constant(b)) => match fold_add(*a, *b) {
            Some(c) => Math::Constant(c),
            None => Math::Add(Box::new(l.duplicate()), Box::new(r.duplicate())),
        },
        (Math::Variable(s1), Math::Variable(s2)) => {
            if s1 == s2 {
                Math::Multiply(Box::new(Math::Constant(2)), Box::new(Math::Variable(*s1)))
            } else {
                Math::Add(Box::new(l.duplicate()), Box::new(r.duplicate()))
            }
        },
        (Math::Multiply(x, y), Math::Variable(s)) => add_absorb_var(l, r, x, y, s),
        (Math::Variable(s), Math::Multiply(x, y)) => add_absorb_var(l, r, x, y, s),
        (Math::Multiply(x1, y1), Math::Multiply(x2, y2)) => match (&**x1, &**y1) {
            (Math::Constant(c1), v1) => match (&**x2, &**y2) {
                (v2, Math::Constant(c2)) => {
                    if v1.equals(v2) {
                        match fold_add(*c1, *c2) {
                            Some(c) => rewrite_mult(&Math::Constant(c), v1),
                            None => Math::Add(
                                Box::new(l.duplicate()),
                                Box::new(r.duplicate()),
                            ),
                        }
                    } else {
                        Math::Add(Box::new(l.duplicate()), Box::new(r.duplicate()))
                    }
                },
                (Math::Constant(c2), v2) => {
                    if v1.equals(v2) {
                        match fold_add(*c1, *c2) {
                            Some(c) => rewrite_mult(&Math::Constant(c), v1),
                            None => Math::Add(
                                Box::new(l.duplicate()),
                                Box::new(r.duplicate()),
                            ),
                        }
                    } else {
                        Math::Add(Box::new(l.duplicate()), Box::new(r.duplicate()))
                    }
                },
                _ => Math::Add(Box::new(l.duplicate()), Box::new(r.duplicate())),
            },
            (v1, Math::Constant(c1)) => match (&**x2, &**y2) {
                (v2, Math::Constant(c2)) => {
                    if v1.equals(v2) {
                        match fold_add(*c1, *c2) {
                            Some(c) => rewrite_mult(&Math::Constant(c), v1),
                            None => Math::Add(
                                Box::new(l.duplicate()),
                                Box::new(r.duplicate()),
                            ),
                        }
                    } else {
                        Math::Add(Box::new(l.duplicate()), Box::new(r.duplicate()))
                    }
                },
                (Math::Constant(c2), v2) => {
                    if v1.equals(v2) {
                        match fold_add(*c1, *c2) {
                            Some(c) => rewrite_mult(&Math::Constant(c), v1),
                            None => Math::Add(
                                Box::new(l.duplicate()),
                                Box::new(r.duplicate()),
                            ),
                        }
                    } else {
                        Math::Add(Box::new(l.duplicate()), Box::new(r.duplicate()))
                    }
                },
                _ => Math::Add(Box::new(l.duplicate()), Box::new(r.duplicate())),
            },
            _ => Math::Add(Box::new(l.duplicate()), Box::new(r.duplicate())),
        },
        _ => Math::Add(Box::new(l.duplicate()), Box::new(r.duplicate())),
    }
}

fn add_absorb_var(l: &Math, r: &Math, x: &Math, y: &Math, s: &Symbol) -> (res: Math)
    ensures
        res == spec_add_absorb_var(*l, *r, *x, *y, *s),
{
    match (x, y) {
        (Math::Constant(c), Math::Variable(s2)) => {
            if s2 == s {
                match (*c).checked_add(1) {
                    Some(c1) => Math::Multiply(
                        Box::new(Math::Constant(c1)),
                        Box::new(Math::Variable(*s2)),
                    ),
                    None => Math::Add(Box::new(l.duplicate()), Box::new(r.duplicate())),
                }
            } else {
                Math::Add(Box::new(l.duplicate()), Box::new(r.duplicate()))
            }
        },
        (Math::Variable(s2), Math::Constant(c)) => {
            if s2 == s {
                match (*c).checked_add(1) {
                    Some(c1) => Math::Multiply(
                        Box::new(Math::Constant(c1)),
                        Box::new(Math::Variable(*s2)),
                    ),
                    None => Math::Add(Box::new(l.duplicate()), Box::new(r.duplicate())),
                }
            } else {
                Math::Add(Box::new(l.duplicate()), Box::new(r.duplicate()))
            }
        },
        _ => Math::Add(Box::new(l.duplicate()), Box::new(r.duplicate())),
    }
}

pub(crate) fn rewrite_sub(l: &Math, r: &Math) -> (res: Math)
    ensures
        res == spec_rewrite_sub(*l, *r),
    decreases l.size() + r.size(),
{
    if let Math::Constant(c) = l {
        if *c == 0 {
            return r.duplicate();
        }
    }
    if let Math::Constant(c) = r {
        if *c == 0 {
            return l.duplicate();
        }
    }
    match (l, r) {
        (Math::Constant(a), Math::Constant(b)) => match fold_sub(*a, *b) {
            Some(c) => Math::Constant(c),
            None => Math::Subtract(Box::new(l.duplicate()), Box::new(r.duplicate())),
        },
        (Math::Multiply(x1, y1), Math::Multiply(x2, y2)) => match (&**x1, &**y1) {
            (Math::Constant(c1), v1) => match (&**x2, &**y2) {
                (v2, Math::Constant(c2)) => {
                    if v1.equals(v2) {
                        match fold_sub(*c1, *c2) {
                            Some(c) => rewrite_mult(&Math::Constant(c), v1),
                            None => Math::Subtract(
                                Box::new(l.duplicate()),
                                Box::new(r.duplicate()),
                            ),
                        }
                    } else {
                        Math::Subtract(Box::new(l.duplicate()), Box::new(r.duplicate()))
                    }
                },
                (Math::Constant(c2), v2) => {
                    if v1.equals(v2) {
                        match fold_sub(*c1, *c2) {
                            Some(c) => rewrite_mult(&Math::Constant(c), v1),
                            None => Math::Subtract(
                                Box::new(l.duplicate()),
                                Box::new(r.duplicate()),
                            ),
                        }
                    } else {
                        Math::Subtract(Box::new(l.duplicate()), Box::new(r.duplicate()))
                    }
                },
                _ => Math::Subtract(Box::new(l.duplicate()), Box::new(r.duplicate())),
            },
            (v1, Math::Constant(c1)) => match (&**x2, &**y2) {
                (v2, Math::Constant(c2)) => {
                    if v1.equals(v2) {
                        match fold_sub(*c1, *c2) {
                            Some(c) => rewrite_mult(&Math::Constant(c), v1),
                            None => Math::Subtract(
                                Box::new(l.duplicate()),
                                Box::new(r.duplicate()),
                            ),
                        }
                    } else {
                        Math::Subtract(Box::new(l.duplicate()), Box::new(r.duplicate()))
                    }
                },
                (Math::Constant(c2), v2) => {
                    if v1.equals(v2) {
                        match fold_sub(*c1, *c2) {
                            Some(c) => rewrite_mult(&Math::Constant(c), v1),
                            None => Math::Subtract(
                                Box::new(l.duplicate()),
                                Box::new(r.duplicate()),
                            ),
                        }
                    } else {
                        Math::Subtract(Box::new(l.duplicate()), Box::new(r.duplicate()))
                    }
                },
                _ => Math::Subtract(Box::new(l.duplicate()), Box::new(r.duplicate())),
            },
            _ => Math::Subtract(Box::new(l.duplicate()), Box::new(r.duplicate())),
        },
        _ => Math::Subtract(Box::new(l.duplicate()), Box::new(r.duplicate())),
    }
}

pub(crate) fn rewrite_mult(l: &Math, r: &Math) -> (res: Math)
    ensures
        res == spec_rewrite_mult(*l, *r),
    decreases l.size() + r.size(),
{
    match (l, r) {
        (Math::Constant(a), Math::Constant(b)) => match fold_mul(*a, *b) {
            Some(c) => Math::Constant(c),
            None => Math::Multiply(Box::new(l.duplicate()), Box::new(r.duplicate())),
        },
        (Math::Power(b1, p1), Math::Power(b2, p2)) => {
            if b1.equals(b2) {
                Math::Power(Box::new(b1.duplicate()), Box::new(rewrite_add(p1, p2)))
            } else {
                Math::Multiply(Box::new(l.duplicate()), Box::new(r.duplicate()))
            }
        },
        (Math::Multiply(x1, y1), Math::Multiply(x2, y2)) => match (&**x1, &**y1) {
            (Math::Constant(c1), v1) => match (&**x2, &**y2) {
                (v2, Math::Constant(c2)) => {
                    if v1.equals(v2) {
                        match fold_mul(*c1, *c2) {
                            Some(c) => rewrite_mult(&Math::Constant(c), v1),
                            None => Math::Multiply(
                                Box::new(l.duplicate()),
                                Box::new(r.duplicate()),
                            ),
                        }
                    } else {
                        Math::Multiply(Box::new(l.duplicate()), Box::new(r.duplicate()))
                    }
                },
                (Math::Constant(c2), v2) => {
                    if v1.equals(v2) {
                        match fold_mul(*c1, *c2) {
                            Some(c) => rewrite_mult(&Math::Constant(c), v1),
                            None => Math::Multiply(
                                Box::new(l.duplicate()),
                                Box::new(r.duplicate()),
                            ),
                        }
                    } else {
                        Math::Multiply(Box::new(l.duplicate()), Box::new(r.duplicate()))
                    }
                },
                _ => Math::Multiply(Box::new(l.duplicate()), Box::new(r.duplicate())),
            },
            (v1, Math::Constant(c1)) => match (&**x2, &**y2) {
                (v2, Math::Constant(c2)) => {
                    if v1.equals(v2) {
                        match fold_mul(*c1, *c2) {
                            Some(c) => rewrite_mult(&Math::Constant(c), v1),
                            None => Math::Multiply(
                                Box::new(l.duplicate()),
                                Box::new(r.duplicate()),
                            ),
                        }
                    } else {
                        Math::Multiply(Box::new(l.duplicate()), Box::new(r.duplicate()))
                    }
                },
                (Math::Constant(c2), v2) => {
                    if v1.equals(v2) {
                        match fold_mul(*c1, *c2) {
                            Some(c) => rewrite_mult(&Math::Constant(c), v1),
                            None => Math::Multiply(
                                Box::new(l.duplicate()),
                                Box::new(r.duplicate()),
                            ),
                        }
                    } else {
                        Math::Multiply(Box::new(l.duplicate()), Box::new(r.duplicate()))
                    }
                },
                _ => Math::Multiply(Box::new(l.duplicate()), Box::new(r.duplicate())),
            },
            _ => Math::Multiply(Box::new(l.duplicate()), Box::new(r.duplicate())),
        },
        (Math::Power(base, p), Math::Variable(s)) => absorb_into_power(l, r, base, p, s),
        (Math::Variable(s), Math::Power(base, p)) => absorb_into_power(l, r, base, p, s),
        (Math::Variable(s1), Math::Variable(s2)) => {
            if s1 == s2 {
                Math::Power(Box::new(Math::Variable(*s1)), Box::new(Math::Constant(2)))
            } else {
                Math::Multiply(Box::new(l.duplicate()), Box::new(r.duplicate()))
            }
        },
        (Math::Constant(c1), Math::Multiply(x1, x2)) => match (&**x1, &**x2) {
            (Math::Constant(c2), v) => match fold_mul(*c1, *c2) {
                Some(c) => rewrite_mult(&Math::Constant(c), v),
                None => Math::Multiply(Box::new(l.duplicate()), Box::new(r.duplicate())),
            },
            (v, Math::Constant(c2)) => match fold_mul(*c1, *c2) {
                Some(c) => rewrite_mult(&Math::Constant(c), v),
                None => Math::Multiply(Box::new(l.duplicate()), Box::new(r.duplicate())),
            },
            _ => Math::Multiply(Box::new(l.duplicate()), Box::new(r.duplicate())),
        },
        (Math::Multiply(x1, x2), Math::Constant(c1)) => match (&**x1, &**x2) {
            (Math::Constant(c2), v) => match fold_mul(*c1, *c2) {
                Some(c) => rewrite_mult(&Math::Constant(c), v),
                None => Math::Multiply(Box::new(l.duplicate()), Box::new(r.duplicate())),
            },
            (v, Math::Constant(c2)) => match fold_mul(*c1, *c2) {
                Some(c) => rewrite_mult(&Math::Constant(c), v),
                None => Math::Multiply(Box::new(l.duplicate()), Box::new(r.duplicate())),
            },
            _ => Math::Multiply(Box::new(l.duplicate()), Box::new(r.duplicate())),
        },
        (Math::Constant(c), any) => {
            if *c == 0 {
                Math::Constant(0)
            } else if *c == 1 {
                any.duplicate()
            } else {
                Math::Multiply(Box::new(l.duplicate()), Box::new(r.duplicate()))
            }
        },
        (any, Math::Constant(c)) => {
            if *c == 0 {
                Math::Constant(0)
            } else if *c == 1 {
                any.duplicate()
            } else {
                Math::Multiply(Box::new(l.duplicate()), Box::new(r.duplicate()))
            }
        },
        _ => Math::Multiply(Box::new(l.duplicate()), Box::new(r.duplicate())),
    }
}

fn absorb_into_power(l: &Math, r: &Math, base: &Math, p: &Math, s: &Symbol) -> (res: Math)
    ensures
        res == spec_absorb_into_power(*l, *r, *base, *p, *s),
{
    match base {
        Math::Variable(s2) => {
            if s2 == s {
                Math::Power(
                    Box::new(Math::Variable(*s2)),
                    Box::new(Math::Add(Box::new(p.duplicate()), Box::new(Math::Constant(1)))),
                )
            } else {
                Math::Multiply(Box::new(l.duplicate()), Box::new(r.duplicate()))
            }
        },
        _ => Math::Multiply(Box::new(l.duplicate()), Box::new(r.duplicate())),
    }
}

pub(crate) fn rewrite_div(l: &Math, r: &Math) -> (res: Math)
    ensures
        res == spec_rewrite_div(*l, *r),
    decreases l.size() + r.size(),
{
    if let Math::Constant(c) = r {
        if *c == 1 {
            return l.duplicate();
        }
    }
    match (l, r) {
        (Math::Constant(a), Math::Constant(b)) => match fold_div(*a, *b) {
            Some(c) => Math::Constant(c),
            None => Math::Divide(Box::new(l.duplicate()), Box::new(r.duplicate())),
        },
        (Math::Power(b1, p1), Math::Power(b2, p2)) => {
            if b1.equals(b2) {
                Math::Power(Box::new(b1.duplicate()), Box::new(rewrite_sub(p1, p2)))
            } else {
                Math::Divide(Box::new(l.duplicate()), Box::new(r.duplicate()))
            }
        },
        _ => {
            if l.equals(r) {
                Math::Constant(1)
            } else {
                Math::Divide(Box::new(l.duplicate()), Box::new(r.duplicate()))
            }
        },
    }
}

pub(crate) fn rewrite_pow(l: &Math, r: &Math) -> (res: Math)
    ensures
        res == spec_rewrite_pow(*l, *r),
    decreases l.size() + r.size(),
{
    if let Math::Constant(c) = r {
        if *c == 1 {
            return l.duplicate();
        }
        if *c == 0 {
            return Math::Constant(1);
        }
    }
    match l {
        Math::Constant(a) => match r {
            Math::Constant(b) => match fold_pow(*a, *b) {
                Some(c) => Math::Constant(c),
                None => Math::Power(Box::new(l.duplicate()), Box::new(r.duplicate())),
            },
            _ => Math::Power(Box::new(l.duplicate()), Box::new(r.duplicate())),
        },
        Math::Power(b2, p1) => Math::Power(
            Box::new(b2.duplicate()),
            Box::new(rewrite_mult(p1, r)),
        ),
        _ => Math::Power(Box::new(l.duplicate()), Box::new(r.duplicate())),
    }
}

/// One local rewrite of the top node of the given tree, for children that
/// are already simplified; any node with no matching rule comes back as a
/// structural copy, unchanged.
pub fn evaluate(math: &Math) -> (res: Math)
    ensures
        res == spec_evaluate(*math),
{
    match math {
        Math::Add(l, r) => rewrite_add(l, r),
        Math::Subtract(l, r) => rewrite_sub(l, r),
        Math::Multiply(l, r) => rewrite_mult(l, r),
        Math::Divide(l, r) => rewrite_div(l, r),
        Math::Power(l, r) => rewrite_pow(l, r),
        _ => math.duplicate(),
    }
}

} // verus!
