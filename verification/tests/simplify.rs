use symbolic_math::math::constant;
use symbolic_math::math::div;
use symbolic_math::math::ln;
use symbolic_math::math::log;
use symbolic_math::math::mult;
use symbolic_math::math::pow;
use symbolic_math::math::var;
use symbolic_math::math::Math;
use symbolic_math::symbol::Symbol;

#[test]
fn simplifies_powers() {
    let x_symbol = Symbol::of_character('x');
    let x = var(x_symbol);

    let operation = pow(pow(x, constant(2)), constant(3)).simplify();

    let expected = pow(var(x_symbol), constant(6));
    assert_eq!(operation, *expected);
}

#[test]
fn folds_constant_sum() {
    let operation = symbolic_math::math::add(constant(20), constant(22)).simplify();
    assert_eq!(operation, Math::Constant(42));
}

#[test]
fn folds_constant_difference() {
    let operation = symbolic_math::math::sub(constant(7), constant(10)).simplify();
    assert_eq!(operation, Math::Constant(-3));
}

#[test]
fn folds_constant_product() {
    let operation = mult(constant(-6), constant(7)).simplify();
    assert_eq!(operation, Math::Constant(-42));
}

#[test]
fn folds_exact_constant_quotient() {
    let operation = div(constant(84), constant(-2)).simplify();
    assert_eq!(operation, Math::Constant(-42));
}

#[test]
fn folds_constant_power() {
    let operation = pow(constant(2), constant(10)).simplify();
    assert_eq!(operation, Math::Constant(1024));
}

#[test]
fn sum_past_the_largest_value_stays() {
    let operation = symbolic_math::math::add(constant(i64::MAX), constant(1)).simplify();
    let expected = symbolic_math::math::add(constant(i64::MAX), constant(1));
    assert_eq!(operation, *expected);
}

#[test]
fn inexact_quotient_stays() {
    let operation = div(constant(7), constant(2)).simplify();
    let expected = div(constant(7), constant(2));
    assert_eq!(operation, *expected);
}

#[test]
fn negative_exponent_stays() {
    let operation = pow(constant(2), constant(-1)).simplify();
    let expected = pow(constant(2), constant(-1));
    assert_eq!(operation, *expected);
}

#[test]
fn multiplying_by_one_gives_the_variable() {
    let x = var(Symbol::of_character('x'));
    let operation = mult(x, constant(1)).simplify();
    assert_eq!(operation, Math::Variable(Symbol::of_character('x')));
}

#[test]
fn multiplying_by_zero_gives_zero() {
    let x = var(Symbol::of_character('x'));
    let operation = mult(x, constant(0)).simplify();
    assert_eq!(operation, Math::Constant(0));
}

#[test]
fn adding_zero_gives_the_variable() {
    let x = var(Symbol::of_character('x'));
    let operation = symbolic_math::math::add(x, constant(0)).simplify();
    assert_eq!(operation, Math::Variable(Symbol::of_character('x')));
}

#[test]
fn subtracting_from_zero_drops_the_sign() {
    let x = var(Symbol::of_character('x'));
    let operation = symbolic_math::math::sub(constant(0), x).simplify();
    assert_eq!(operation, Math::Variable(Symbol::of_character('x')));
}

#[test]
fn combines_like_variables() {
    let x_symbol = Symbol::of_character('x');
    let operation = symbolic_math::math::add(var(x_symbol), var(x_symbol)).simplify();
    let expected = mult(constant(2), var(x_symbol));
    assert_eq!(operation, *expected);
}

#[test]
fn combines_coefficient_and_variable() {
    let x_symbol = Symbol::of_character('x');
    let operation = symbolic_math::math::add(
        mult(constant(2), var(x_symbol)),
        var(x_symbol),
    )
    .simplify();
    let expected = mult(constant(3), var(x_symbol));
    assert_eq!(operation, *expected);
}

#[test]
fn combines_two_coefficients() {
    let x_symbol = Symbol::of_character('x');
    let operation = symbolic_math::math::add(
        mult(constant(2), var(x_symbol)),
        mult(constant(3), var(x_symbol)),
    )
    .simplify();
    let expected = mult(constant(5), var(x_symbol));
    assert_eq!(operation, *expected);
}

#[test]
fn subtracts_two_coefficients() {
    let x_symbol = Symbol::of_character('x');
    let operation = symbolic_math::math::sub(
        mult(constant(5), var(x_symbol)),
        mult(constant(3), var(x_symbol)),
    )
    .simplify();
    let expected = mult(constant(2), var(x_symbol));
    assert_eq!(operation, *expected);
}

#[test]
fn different_variables_stay_apart() {
    let x = var(Symbol::of_character('x'));
    let y = var(Symbol::of_character('y'));
    let operation = symbolic_math::math::add(x, y).simplify();
    let expected = symbolic_math::math::add(
        var(Symbol::of_character('x')),
        var(Symbol::of_character('y')),
    );
    assert_eq!(operation, *expected);
}

#[test]
fn merges_multiplied_powers() {
    let x_symbol = Symbol::of_character('x');
    let operation = mult(
        pow(var(x_symbol), constant(2)),
        pow(var(x_symbol), constant(3)),
    )
    .simplify();
    let expected = pow(var(x_symbol), constant(5));
    assert_eq!(operation, *expected);
}

#[test]
fn merges_divided_powers() {
    let x_symbol = Symbol::of_character('x');
    let operation = div(
        pow(var(x_symbol), constant(5)),
        pow(var(x_symbol), constant(2)),
    )
    .simplify();
    let expected = pow(var(x_symbol), constant(3));
    assert_eq!(operation, *expected);
}

#[test]
fn squares_a_repeated_variable() {
    let x_symbol = Symbol::of_character('x');
    let operation = mult(var(x_symbol), var(x_symbol)).simplify();
    let expected = pow(var(x_symbol), constant(2));
    assert_eq!(operation, *expected);
}

#[test]
fn absorbs_a_variable_into_its_power() {
    let x_symbol = Symbol::of_character('x');
    let operation = mult(pow(var(x_symbol), constant(2)), var(x_symbol)).simplify();
    let expected = pow(
        var(x_symbol),
        symbolic_math::math::add(constant(2), constant(1)),
    );
    assert_eq!(operation, *expected);
}

#[test]
fn divides_a_tree_by_itself() {
    let x_symbol = Symbol::of_character('x');
    let operation = div(
        symbolic_math::math::add(var(x_symbol), constant(3)),
        symbolic_math::math::add(var(x_symbol), constant(3)),
    )
    .simplify();
    assert_eq!(operation, Math::Constant(1));
}

#[test]
fn dividing_by_one_gives_the_numerator() {
    let x = var(Symbol::of_character('x'));
    let operation = div(x, constant(1)).simplify();
    assert_eq!(operation, Math::Variable(Symbol::of_character('x')));
}

#[test]
fn merges_a_stray_constant_factor() {
    let x_symbol = Symbol::of_character('x');
    let operation = mult(constant(2), mult(constant(3), var(x_symbol))).simplify();
    let expected = mult(constant(6), var(x_symbol));
    assert_eq!(operation, *expected);
}

#[test]
fn power_of_zero_is_one() {
    let x = var(Symbol::of_character('x'));
    let operation = pow(x, constant(0)).simplify();
    assert_eq!(operation, Math::Constant(1));
}

#[test]
fn power_of_one_is_the_base() {
    let x = var(Symbol::of_character('x'));
    let operation = pow(x, constant(1)).simplify();
    assert_eq!(operation, Math::Variable(Symbol::of_character('x')));
}

#[test]
fn simplify_leaves_logarithms_alone() {
    let operation = log(2, symbolic_math::math::add(constant(1), constant(2))).simplify();
    let expected = log(2, symbolic_math::math::add(constant(1), constant(2)));
    assert_eq!(operation, *expected);
}

#[test]
fn simplify_recurses_into_natural_log() {
    let operation = ln(symbolic_math::math::add(constant(1), constant(2))).simplify();
    let expected = ln(constant(3));
    assert_eq!(operation, *expected);
}

#[test]
fn simplify_is_idempotent_on_a_simplified_quotient() {
    let x_symbol = Symbol::of_character('x');
    let operation = div(
        symbolic_math::math::sub(
            mult(
                pow(var(x_symbol), constant(3)),
                pow(var(x_symbol), constant(3)),
            ),
            symbolic_math::math::add(mult(constant(2), var(x_symbol)), var(x_symbol)),
        ),
        pow(var(x_symbol), constant(2)),
    );
    let once = operation.simplify();
    let twice = once.simplify();
    assert_eq!(twice, once);
}

#[test]
fn evaluate_rewrites_one_layer() {
    let operation = symbolic_math::evaluator::evaluate(&Math::Add(
        Box::new(Math::Constant(1)),
        Box::new(Math::Constant(2)),
    ));
    assert_eq!(operation, Math::Constant(3));
}

#[test]
fn map_rebuilds_recursive_variants() {
    let operation = Math::Add(Box::new(Math::Constant(1)), Box::new(Math::Constant(2)));
    let mapped = operation.map(&|_e: &Math| Math::Constant(9));
    let expected = Math::Add(Box::new(Math::Constant(9)), Box::new(Math::Constant(9)));
    assert_eq!(mapped, expected);
}

#[test]
fn map_leaves_logarithms_alone() {
    let operation = Math::Log(2, Box::new(Math::Constant(1)));
    let mapped = operation.map(&|_e: &Math| Math::Constant(9));
    assert_eq!(mapped, Math::Log(2, Box::new(Math::Constant(1))));
}
