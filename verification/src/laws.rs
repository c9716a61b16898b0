use vstd::prelude::*;

use vstd::arithmetic::power::lemma_pow0;
use vstd::arithmetic::power::lemma_pow1;
use vstd::arithmetic::power::pow;

use crate::derivative::spec_derive;
use crate::evaluator::in_i64;
use crate::evaluator::spec_rewrite_add;
use crate::evaluator::spec_rewrite_div;
use crate::evaluator::spec_rewrite_mult;
use crate::evaluator::spec_rewrite_pow;
use crate::evaluator::spec_rewrite_sub;
use crate::evaluator::spec_simplify;
use crate::math::spec_solve;
use crate::math::Math;
use crate::symbol::Symbol;

verus! {

/// A canonical form: every child is canonical and no local rewrite
/// applies to the node itself.  `simplify` returns such trees unchanged,
/// so on them it is idempotent.
pub open spec fn is_canonical(e: Math) -> bool
    decreases e,
{
    match e {
        Math::Constant(_) => true,
        Math::Variable(_) => true,
        Math::Add(l, r) => is_canonical(*l) && is_canonical(*r) && spec_rewrite_add(*l, *r) == e,
        Math::Subtract(l, r) => is_canonical(*l) && is_canonical(*r) && spec_rewrite_sub(*l, *r)
            == e,
        Math::Multiply(l, r) => is_canonical(*l) && is_canonical(*r) && spec_rewrite_mult(*l, *r)
            == e,
        Math::Divide(l, r) => is_canonical(*l) && is_canonical(*r) && spec_rewrite_div(*l, *r)
            == e,
        Math::Power(l, r) => is_canonical(*l) && is_canonical(*r) && spec_rewrite_pow(*l, *r) == e,
        Math::Log(_, _) => true,
        Math::Ln(a) => is_canonical(*a),
    }
}

/// One simplification pass leaves a canonical expression unchanged.
pub proof fn lemma_simplify_canonical(e: Math)
    requires
        is_canonical(e),
    ensures
        spec_simplify(e) == e,
    decreases e,
{
    match e {
        Math::Add(l, r) => {
            lemma_simplify_canonical(*l);
            lemma_simplify_canonical(*r);
        },
        Math::Subtract(l, r) => {
            lemma_simplify_canonical(*l);
            lemma_simplify_canonical(*r);
        },
        Math::Multiply(l, r) => {
            lemma_simplify_canonical(*l);
            lemma_simplify_canonical(*r);
        },
        Math::Divide(l, r) => {
            lemma_simplify_canonical(*l);
            lemma_simplify_canonical(*r);
        },
        Math::Power(l, r) => {
            lemma_simplify_canonical(*l);
            lemma_simplify_canonical(*r);
        },
        Math::Ln(a) => {
            lemma_simplify_canonical(*a);
        },
        _ => {},
    }
}

/// Idempotence of `simplify` on canonical forms: simplifying twice gives
/// the same tree as simplifying once.
pub proof fn lemma_simplify_idempotent_on_canonical(e: Math)
    requires
        is_canonical(e),
    ensures
        spec_simplify(spec_simplify(e)) == spec_simplify(e),
{
    lemma_simplify_canonical(e);
}

/// Constant folding of a sum: whenever the exact sum is representable,
/// simplifying `Constant(a) + Constant(b)` gives `Constant(a + b)`.
pub proof fn lemma_fold_add_constants(a: i64, b: i64)
    requires
        in_i64(a + b),
    ensures
        spec_simplify(Math::Add(Box::new(Math::Constant(a)), Box::new(Math::Constant(b))))
            == Math::Constant((a + b) as i64),
{
    reveal_with_fuel(spec_simplify, 2);
    reveal_with_fuel(spec_rewrite_add, 2);
}

/// Constant folding of a difference, whenever it is representable.  A
/// zero on the left is excluded: the `0 - x = x` rule fires first and
/// returns `x` with its sign dropped, as the rule set has always done.
pub proof fn lemma_fold_sub_constants(a: i64, b: i64)
    requires
        in_i64(a - b),
        !(a == 0 && b != 0),
    ensures
        spec_simplify(Math::Subtract(Box::new(Math::Constant(a)), Box::new(Math::Constant(b))))
            == Math::Constant((a - b) as i64),
{
    reveal_with_fuel(spec_simplify, 2);
}

/// Constant folding of a product, whenever it is representable.
pub proof fn lemma_fold_mul_constants(a: i64, b: i64)
    requires
        in_i64(a * b),
    ensures
        spec_simplify(Math::Multiply(Box::new(Math::Constant(a)), Box::new(Math::Constant(b))))
            == Math::Constant((a * b) as i64),
{
    reveal_with_fuel(spec_simplify, 2);
    reveal_with_fuel(spec_rewrite_mult, 2);
}

/// Constant folding of a quotient: whenever the division comes out even
/// and the quotient is representable.
pub proof fn lemma_fold_div_constants(a: i64, b: i64)
    requires
        b != 0,
        a as int % b as int == 0,
        in_i64(a as int / b as int),
    ensures
        spec_simplify(Math::Divide(Box::new(Math::Constant(a)), Box::new(Math::Constant(b))))
            == Math::Constant((a as int / b as int) as i64),
{
    reveal_with_fuel(spec_simplify, 2);
}

/// Constant folding of a power: whenever the exponent is not negative and
/// the exact power is representable.
pub proof fn lemma_fold_pow_constants(a: i64, b: i64)
    requires
        b >= 0,
        in_i64(pow(a as int, b as nat)),
    ensures
        spec_simplify(Math::Power(Box::new(Math::Constant(a)), Box::new(Math::Constant(b))))
            == Math::Constant(pow(a as int, b as nat) as i64),
{
    reveal_with_fuel(spec_simplify, 2);
    if b == 0 {
        lemma_pow0(a as int);
    } else if b == 1 {
        lemma_pow1(a as int);
    }
}

/// Identity elimination: a variable times one is the variable, and a
/// variable times zero is zero.
pub proof fn lemma_identity_elimination(s: Symbol)
    ensures
        spec_simplify(Math::Multiply(Box::new(Math::Variable(s)), Box::new(Math::Constant(1))))
            == Math::Variable(s),
        spec_simplify(Math::Multiply(Box::new(Math::Variable(s)), Box::new(Math::Constant(0))))
            == Math::Constant(0),
{
    reveal_with_fuel(spec_simplify, 2);
    reveal_with_fuel(spec_rewrite_mult, 2);
}

/// Like-term combination: a variable plus itself simplifies to twice the
/// variable.
pub proof fn lemma_like_terms(s: Symbol)
    ensures
        spec_simplify(Math::Add(Box::new(Math::Variable(s)), Box::new(Math::Variable(s))))
            == Math::Multiply(Box::new(Math::Constant(2)), Box::new(Math::Variable(s))),
{
    reveal_with_fuel(spec_simplify, 2);
    reveal_with_fuel(spec_rewrite_add, 2);
}

/// The derivative of a monomial `v^n` with a constant exponent of three
/// or more, once simplified, is `n * v^(n-1)`.
pub proof fn lemma_derive_monomial(s: Symbol, n: i64)
    requires
        3 <= n,
    ensures
        spec_simplify(
            spec_derive(Math::Power(Box::new(Math::Variable(s)), Box::new(Math::Constant(n)))),
        ) == Math::Multiply(
            Box::new(Math::Constant(n)),
            Box::new(
                Math::Power(Box::new(Math::Variable(s)), Box::new(Math::Constant((n - 1) as i64))),
            ),
        ),
{
    let v = Math::Variable(s);
    let cn = Math::Constant(n);
    let c1 = Math::Constant(1);
    let cm = Math::Constant((n - 1) as i64);
    let low = Math::Subtract(Box::new(cn), Box::new(c1));
    let pw = Math::Power(Box::new(v), Box::new(low));
    let pwm = Math::Power(Box::new(v), Box::new(cm));
    let inner = Math::Multiply(Box::new(pw), Box::new(c1));
    let d = Math::Multiply(Box::new(cn), Box::new(inner));
    assert(spec_derive(Math::Power(Box::new(v), Box::new(cn))) == d) by {
        reveal_with_fuel(spec_derive, 2);
    }
    assert(spec_simplify(low) == cm) by {
        reveal_with_fuel(spec_simplify, 2);
    }
    assert(spec_simplify(pw) == pwm) by {
        reveal_with_fuel(spec_simplify, 2);
    }
    assert(spec_simplify(c1) == c1);
    assert(spec_simplify(inner) == pwm) by {
        reveal_with_fuel(spec_simplify, 1);
    }
    assert(spec_simplify(cn) == cn);
    assert(spec_simplify(d) == Math::Multiply(Box::new(cn), Box::new(pwm))) by {
        reveal_with_fuel(spec_simplify, 1);
    }
}

/// Substitution: solving a bare variable returns its binding when there
/// is one, and the variable itself when there is none.
pub proof fn lemma_substitution(s: Symbol, m: Map<Symbol, Math>)
    ensures
        m.dom().contains(s) ==> spec_solve(Math::Variable(s), m) == m[s],
        !m.dom().contains(s) ==> spec_solve(Math::Variable(s), m) == Math::Variable(s),
{
}

} // verus!
