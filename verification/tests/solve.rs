use symbolic_math::math::constant;
use symbolic_math::math::ln;
use symbolic_math::math::log;
use symbolic_math::math::var;
use symbolic_math::math::Bindings;
use symbolic_math::math::Math;
use symbolic_math::symbol::Symbol;

#[test]
fn solve_replaces_a_bound_variable() {
    let x_symbol = Symbol::of_character('x');
    let mut mappings = Bindings::new();
    mappings.bind(x_symbol, Math::Constant(2));
    let operation = var(x_symbol).solve(&mappings);
    assert_eq!(operation, Math::Constant(2));
}

#[test]
fn solve_leaves_an_unbound_variable() {
    let x_symbol = Symbol::of_character('x');
    let y_symbol = Symbol::of_character('y');
    let mut mappings = Bindings::new();
    mappings.bind(y_symbol, Math::Constant(2));
    let operation = var(x_symbol).solve(&mappings);
    assert_eq!(operation, Math::Variable(x_symbol));
}

#[test]
fn solve_recurses_into_children() {
    let x_symbol = Symbol::of_character('x');
    let y_symbol = Symbol::of_character('y');
    let mut mappings = Bindings::new();
    mappings.bind(x_symbol, Math::Constant(2));
    let operation = symbolic_math::math::add(var(x_symbol), var(y_symbol)).solve(&mappings);
    let expected = symbolic_math::math::add(constant(2), var(y_symbol));
    assert_eq!(operation, *expected);
}

#[test]
fn solve_substitutes_by_value_without_simplifying() {
    let x_symbol = Symbol::of_character('x');
    let mut mappings = Bindings::new();
    mappings.bind(
        x_symbol,
        Math::Add(Box::new(Math::Constant(1)), Box::new(Math::Constant(1))),
    );
    let operation = var(x_symbol).solve(&mappings);
    let expected = symbolic_math::math::add(constant(1), constant(1));
    assert_eq!(operation, *expected);
}

#[test]
fn solve_leaves_logarithm_arguments_alone() {
    let x_symbol = Symbol::of_character('x');
    let mut mappings = Bindings::new();
    mappings.bind(x_symbol, Math::Constant(2));
    let operation = log(10, var(x_symbol)).solve(&mappings);
    let expected = log(10, var(x_symbol));
    assert_eq!(operation, *expected);
}

#[test]
fn solve_recurses_into_natural_log_arguments() {
    let x_symbol = Symbol::of_character('x');
    let mut mappings = Bindings::new();
    mappings.bind(x_symbol, Math::Constant(2));
    let operation = ln(var(x_symbol)).solve(&mappings);
    let expected = ln(constant(2));
    assert_eq!(operation, *expected);
}

#[test]
fn the_binding_made_last_wins() {
    let x_symbol = Symbol::of_character('x');
    let mut mappings = Bindings::new();
    mappings.bind(x_symbol, Math::Constant(1));
    mappings.bind(x_symbol, Math::Constant(2));
    let operation = var(x_symbol).solve(&mappings);
    assert_eq!(operation, Math::Constant(2));
}

#[test]
fn solve_then_simplify_evaluates_the_tree() {
    let x_symbol = Symbol::of_character('x');
    let mut mappings = Bindings::new();
    mappings.bind(x_symbol, Math::Constant(2));
    let operation = symbolic_math::math::add(
        symbolic_math::math::pow(var(x_symbol), constant(3)),
        constant(1),
    )
    .solve(&mappings)
    .simplify();
    assert_eq!(operation, Math::Constant(9));
}
