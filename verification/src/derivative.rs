use vstd::prelude::*;

use vstd::string::StringExecFns;

use crate::math::spec_render;
use crate::math::Math;

verus! {

/// The structural single-variable differentiation rules.  Every variable
/// is treated as the one free variable; the result is not simplified, so
/// callers pass it through `simplify` themselves.
///
/// Two long-standing quirks of the rule set are kept on purpose: the
/// power rule multiplies in the derivative of the base but treats the
/// exponent as a constant, and the natural-log rule omits the chain-rule
/// factor for its argument.
pub open spec fn spec_derive(e: Math) -> Math
    decreases e,
{
    match e {
        Math::Constant(_) => Math::Constant(0),
        Math::Variable(_) => Math::Constant(1),
        Math::Power(b, p) => Math::Multiply(
            p,
            Box::new(Math::Multiply(
                Box::new(Math::Power(b, Box::new(Math::Subtract(p, Box::new(Math::Constant(1)))))),
                Box::new(spec_derive(*b)),
            )),
        ),
        Math::Multiply(l, r) => Math::Add(
            Box::new(Math::Multiply(l, Box::new(spec_derive(*r)))),
            Box::new(Math::Multiply(r, Box::new(spec_derive(*l)))),
        ),
        Math::Divide(t, b) => Math::Divide(
            Box::new(Math::Subtract(
                Box::new(Math::Multiply(b, Box::new(spec_derive(*t)))),
                Box::new(Math::Multiply(t, Box::new(spec_derive(*b)))),
            )),
            Box::new(Math::Power(b, Box::new(Math::Constant(2)))),
        ),
        Math::Add(l, r) => Math::Add(Box::new(spec_derive(*l)), Box::new(spec_derive(*r))),
        Math::Subtract(l, r) => Math::Subtract(
            Box::new(spec_derive(*l)),
            Box::new(spec_derive(*r)),
        ),
        Math::Log(base, arg) => Math::Divide(
            Box::new(Math::Constant(1)),
            Box::new(Math::Multiply(
                arg,
                Box::new(Math::Ln(Box::new(Math::Constant(base as i64)))),
            )),
        ),
        Math::Ln(arg) => Math::Divide(Box::new(Math::Constant(1)), arg),
    }
}

/// The symbolic-derivative generator: holds the expression to derive.
#[derive(Debug, PartialEq)]
pub struct Derivative(pub Box<Math>);

impl Derivative {
    /// The symbolic derivative of the given expression, unsimplified.
    pub fn of(math: &Math) -> (r: Math)
        ensures
            r == spec_derive(*math),
        decreases math.size(), 1nat,
    {
        Derivative(Box::new(math.duplicate())).derive()
    }

    /// The held expression, rendered as `d(...)`.
    pub fn render(&self) -> (out: String)
        ensures
            out@ == seq!['d', '('] + spec_render(*self.0) + seq![')'],
    {
        let mut out = String::new();
        out.append("d(");
        let body = self.0.render();
        out.append(body.as_str());
        out.append(")");
        proof {
            reveal_strlit("d(");
            reveal_strlit(")");
            assert(out@ =~= seq!['d', '('] + spec_render(*self.0) + seq![')']);
        }
        out
    }

    /// The symbolic derivative of the held expression, unsimplified.
    pub fn derive(&self) -> (r: Math)
        ensures
            r == spec_derive(*self.0),
        decreases self.0.size(), 0nat,
    {
        match &*self.0 {
            Math::Constant(_) => Math::Constant(0),
            Math::Variable(_) => Math::Constant(1),
            Math::Power(expr, power) => {
                let new_power = Math::Subtract(
                    Box::new(power.duplicate()),
                    Box::new(Math::Constant(1)),
                );
                let new_expr = Derivative::of(expr);
                let inner = Math::Power(Box::new(expr.duplicate()), Box::new(new_power));
                Math::Multiply(
                    Box::new(power.duplicate()),
                    Box::new(Math::Multiply(Box::new(inner), Box::new(new_expr))),
                )
            },
            Math::Multiply(left, right) => Math::Add(
                Box::new(Math::Multiply(
                    Box::new(left.duplicate()),
                    Box::new(Derivative::of(right)),
                )),
                Box::new(Math::Multiply(
                    Box::new(right.duplicate()),
                    Box::new(Derivative::of(left)),
                )),
            ),
            Math::Divide(top, bottom) => {
                let left = Math::Multiply(
                    Box::new(bottom.duplicate()),
                    Box::new(Derivative::of(top)),
                );
                let right = Math::Multiply(
                    Box::new(top.duplicate()),
                    Box::new(Derivative::of(bottom)),
                );
                Math::Divide(
                    Box::new(Math::Subtract(Box::new(left), Box::new(right))),
                    Box::new(Math::Power(Box::new(bottom.duplicate()), Box::new(Math::Constant(2)))),
                )
            },
            Math::Add(left, right) => Math::Add(
                Box::new(Derivative::of(left)),
                Box::new(Derivative::of(right)),
            ),
            Math::Subtract(left, right) => Math::Subtract(
                Box::new(Derivative::of(left)),
                Box::new(Derivative::of(right)),
            ),
            Math::Log(base, expr) => Math::Divide(
                Box::new(Math::Constant(1)),
                Box::new(Math::Multiply(
                    Box::new(expr.duplicate()),
                    Box::new(Math::Ln(Box::new(Math::Constant(*base as i64)))),
                )),
            ),
            Math::Ln(expr) => Math::Divide(
                Box::new(Math::Constant(1)),
                Box::new(expr.duplicate()),
            ),
        }
    }
}

} // verus!
