use symbolic_math::derivative::Derivative;
use symbolic_math::math::constant;
use symbolic_math::math::div;
use symbolic_math::math::ln;
use symbolic_math::math::log;
use symbolic_math::math::mult;
use symbolic_math::math::pow;
use symbolic_math::math::var;
use symbolic_math::math::Math;
use symbolic_math::symbol::Symbol;

#[test]
fn derivative_of_a_constant_is_zero() {
    assert_eq!(Derivative::of(&Math::Constant(5)), Math::Constant(0));
}

#[test]
fn derivative_of_a_variable_is_one() {
    let x = var(Symbol::of_character('x'));
    assert_eq!(Derivative::of(&x), Math::Constant(1));
}

#[test]
fn derivative_of_a_monomial() {
    let x_symbol = Symbol::of_character('x');
    let operation = Derivative::of(&pow(var(x_symbol), constant(3))).simplify();
    let expected = mult(constant(3), pow(var(x_symbol), constant(2)));
    assert_eq!(operation, *expected);
}

#[test]
fn derivative_distributes_over_sums() {
    let x_symbol = Symbol::of_character('x');
    let operation = Derivative::of(&symbolic_math::math::add(
        var(x_symbol),
        constant(7),
    ));
    let expected = symbolic_math::math::add(constant(1), constant(0));
    assert_eq!(operation, *expected);
}

#[test]
fn derivative_uses_the_product_rule() {
    let x_symbol = Symbol::of_character('x');
    let y_symbol = Symbol::of_character('y');
    let operation = Derivative::of(&mult(var(x_symbol), var(y_symbol)));
    let expected = symbolic_math::math::add(
        mult(var(x_symbol), constant(1)),
        mult(var(y_symbol), constant(1)),
    );
    assert_eq!(operation, *expected);
}

#[test]
fn derivative_of_a_natural_log_omits_the_chain_rule() {
    let x_symbol = Symbol::of_character('x');
    let operation = Derivative::of(&ln(var(x_symbol)));
    let expected = div(constant(1), var(x_symbol));
    assert_eq!(operation, *expected);
}

#[test]
fn derivative_of_a_logarithm() {
    let x_symbol = Symbol::of_character('x');
    let operation = Derivative::of(&log(2, var(x_symbol)));
    let expected = div(constant(1), mult(var(x_symbol), ln(constant(2))));
    assert_eq!(operation, *expected);
}

#[test]
fn quotient_rule_end_to_end() {
    let x_symbol = Symbol::of_character('x');
    let operation = div(
        symbolic_math::math::sub(
            mult(
                pow(var(x_symbol), constant(3)),
                pow(var(x_symbol), constant(3)),
            ),
            symbolic_math::math::add(mult(constant(2), var(x_symbol)), var(x_symbol)),
        ),
        pow(var(x_symbol), constant(2)),
    );
    assert_eq!(operation.render(), "(((x^3 * x^3) - (2x + x))/x^2)");

    let simple = operation.simplify();
    assert_eq!(simple.render(), "((x^6 - 3x)/x^2)");

    let derived = Derivative::of(&simple).simplify();
    assert_eq!(
        derived.render(),
        "(((x^2 * (6x^5 - 3)) - ((x^6 - 3x) * 2x))/x^4)"
    );
}
