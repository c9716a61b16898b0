use symbolic_math::math::constant;
use symbolic_math::math::div;
use symbolic_math::math::ln;
use symbolic_math::math::log;
use symbolic_math::math::mult;
use symbolic_math::math::pow;
use symbolic_math::math::var;
use symbolic_math::symbol::Symbol;

#[test]
fn constant_times_variable_renders_as_concatenation() {
    let x = var(Symbol::of_character('x'));
    assert_eq!(mult(constant(2), x).render(), "2x");
}

#[test]
fn variable_product_renders_parenthesized() {
    let x = var(Symbol::of_character('x'));
    let y = var(Symbol::of_character('y'));
    assert_eq!(mult(x, y).render(), "(x * y)");
}

#[test]
fn the_constant_comes_first_whatever_the_order() {
    let x = var(Symbol::of_character('x'));
    assert_eq!(mult(x, constant(2)).render(), "2x");
}

#[test]
fn constant_times_power_renders_as_concatenation() {
    let x = var(Symbol::of_character('x'));
    assert_eq!(mult(constant(3), pow(x, constant(2))).render(), "3x^2");
}

#[test]
fn power_with_exponent_one_renders_as_the_base() {
    let x = var(Symbol::of_character('x'));
    assert_eq!(pow(x, constant(1)).render(), "x");
}

#[test]
fn power_with_constant_exponent_renders_bare() {
    let x = var(Symbol::of_character('x'));
    assert_eq!(pow(x, constant(3)).render(), "x^3");
}

#[test]
fn power_with_other_exponent_renders_parenthesized() {
    let x = var(Symbol::of_character('x'));
    let y = var(Symbol::of_character('y'));
    assert_eq!(pow(x, y).render(), "x^(y)");
}

#[test]
fn negative_constants_render_with_a_sign() {
    assert_eq!(constant(-5).render(), "-5");
}

#[test]
fn large_constants_render_every_digit() {
    assert_eq!(constant(1234567890).render(), "1234567890");
}

#[test]
fn the_smallest_constant_renders() {
    assert_eq!(constant(i64::MIN).render(), "-9223372036854775808");
}

#[test]
fn sums_and_differences_render_parenthesized() {
    let x = var(Symbol::of_character('x'));
    let y = var(Symbol::of_character('y'));
    assert_eq!(
        symbolic_math::math::add(x, symbolic_math::math::sub(y, constant(1))).render(),
        "(x + (y - 1))"
    );
}

#[test]
fn quotients_render_with_a_slash() {
    let x = var(Symbol::of_character('x'));
    let y = var(Symbol::of_character('y'));
    assert_eq!(div(x, y).render(), "(x/y)");
}

#[test]
fn logarithms_render_with_their_base() {
    let x = var(Symbol::of_character('x'));
    assert_eq!(log(12, x).render(), "log12(x)");
}

#[test]
fn natural_logs_render_with_ln() {
    let x = var(Symbol::of_character('x'));
    assert_eq!(ln(x).render(), "ln(x)");
}

#[test]
fn derivatives_render_with_a_d() {
    let x = var(Symbol::of_character('x'));
    let derivative = symbolic_math::derivative::Derivative(pow(x, constant(2)));
    assert_eq!(derivative.render(), "d(x^2)");
}
