use vstd::prelude::*;

use crate::evaluator::rewrite_add;
use crate::evaluator::rewrite_div;
use crate::evaluator::rewrite_mult;
use crate::evaluator::rewrite_pow;
use crate::evaluator::rewrite_sub;
use crate::evaluator::spec_simplify;
use crate::symbol::Symbol;

verus! {

/// An immutable recursive tree representing an algebraic formula.
///
/// Constants are exact integers: a rewrite that would need a value outside
/// the range of `i64` (or a quotient that is not exact) simply does not
/// fire, and the node passes through unchanged.
///
/// `Log` holds its base as a plain integer, not as a child expression, so
/// the generic traversal `map` leaves a `Log` node (argument included)
/// untouched; so do `simplify` and `solve`.
#[derive(Debug, PartialEq)]
pub enum Math {
    Constant(i64),
    Variable(Symbol),
    Power(Box<Math>, Box<Math>),
    Multiply(Box<Math>, Box<Math>),
    Add(Box<Math>, Box<Math>),
    Subtract(Box<Math>, Box<Math>),
    Divide(Box<Math>, Box<Math>),
    Log(u32, Box<Math>),
    Ln(Box<Math>),
}

pub fn constant(c: i64) -> (r: Box<Math>)
    ensures
        *r == Math::Constant(c),
{
    Box::new(Math::Constant(c))
}

pub fn var(s: Symbol) -> (r: Box<Math>)
    ensures
        *r == Math::Variable(s),
{
    Box::new(Math::Variable(s))
}

pub fn pow(left: Box<Math>, right: Box<Math>) -> (r: Box<Math>)
    ensures
        *r == Math::Power(left, right),
{
    Box::new(Math::Power(left, right))
}

pub fn mult(left: Box<Math>, right: Box<Math>) -> (r: Box<Math>)
    ensures
        *r == Math::Multiply(left, right),
{
    Box::new(Math::Multiply(left, right))
}

pub fn add(left: Box<Math>, right: Box<Math>) -> (r: Box<Math>)
    ensures
        *r == Math::Add(left, right),
{
    Box::new(Math::Add(left, right))
}

pub fn sub(left: Box<Math>, right: Box<Math>) -> (r: Box<Math>)
    ensures
        *r == Math::Subtract(left, right),
{
    Box::new(Math::Subtract(left, right))
}

pub fn div(left: Box<Math>, right: Box<Math>) -> (r: Box<Math>)
    ensures
        *r == Math::Divide(left, right),
{
    Box::new(Math::Divide(left, right))
}

pub fn ln(expr: Box<Math>) -> (r: Box<Math>)
    ensures
        *r == Math::Ln(expr),
{
    Box::new(Math::Ln(expr))
}

pub fn log(base: u32, expr: Box<Math>) -> (r: Box<Math>)
    ensures
        *r == Math::Log(base, expr),
{
    Box::new(Math::Log(base, expr))
}

impl Math {
    /// The number of nodes in the tree; a termination measure for the
    /// rewrite rules.
    pub open spec fn size(self) -> nat
        decreases self,
    {
        match self {
            Math::Constant(_) => 1,
            Math::Variable(_) => 1,
            Math::Power(l, r) => 1 + l.size() + r.size(),
            Math::Multiply(l, r) => 1 + l.size() + r.size(),
            Math::Add(l, r) => 1 + l.size() + r.size(),
            Math::Subtract(l, r) => 1 + l.size() + r.size(),
            Math::Divide(l, r) => 1 + l.size() + r.size(),
            Math::Log(_, e) => 1 + e.size(),
            Math::Ln(e) => 1 + e.size(),
        }
    }

    /// Deep structural equality, usable from verified code.
    pub fn equals(&self, other: &Math) -> (r: bool)
        ensures
            r <==> (*self == *other),
        decreases self,
    {
        match (self, other) {
            (Math::Constant(a), Math::Constant(b)) => a == b,
            (Math::Variable(a), Math::Variable(b)) => a == b,
            (Math::Power(l1, r1), Math::Power(l2, r2)) => l1.equals(l2) && r1.equals(r2),
            (Math::Multiply(l1, r1), Math::Multiply(l2, r2)) => l1.equals(l2) && r1.equals(r2),
            (Math::Add(l1, r1), Math::Add(l2, r2)) => l1.equals(l2) && r1.equals(r2),
            (Math::Subtract(l1, r1), Math::Subtract(l2, r2)) => l1.equals(l2) && r1.equals(r2),
            (Math::Divide(l1, r1), Math::Divide(l2, r2)) => l1.equals(l2) && r1.equals(r2),
            (Math::Log(b1, e1), Math::Log(b2, e2)) => b1 == b2 && e1.equals(e2),
            (Math::Ln(e1), Math::Ln(e2)) => e1.equals(e2),
            _ => false,
        }
    }

    /// A structural copy of the tree, known to equal the original.
    pub fn duplicate(&self) -> (r: Math)
        ensures
            r == *self,
        decreases self,
    {
        match self {
            Math::Constant(c) => Math::Constant(*c),
            Math::Variable(s) => Math::Variable(*s),
            Math::Power(l, r) => Math::Power(Box::new(l.duplicate()), Box::new(r.duplicate())),
            Math::Multiply(l, r) => Math::Multiply(
                Box::new(l.duplicate()),
                Box::new(r.duplicate()),
            ),
            Math::Add(l, r) => Math::Add(Box::new(l.duplicate()), Box::new(r.duplicate())),
            Math::Subtract(l, r) => Math::Subtract(
                Box::new(l.duplicate()),
                Box::new(r.duplicate()),
            ),
            Math::Divide(l, r) => Math::Divide(Box::new(l.duplicate()), Box::new(r.duplicate())),
            Math::Log(b, e) => Math::Log(*b, Box::new(e.duplicate())),
            Math::Ln(e) => Math::Ln(Box::new(e.duplicate())),
        }
    }

    /// One bottom-up simplification pass: every child is simplified first,
    /// then one layer of local rewrite rules is applied to the node.  A
    /// caller that rearranges the tree afterwards (differentiation, say)
    /// must call `simplify` again: the pass does not iterate to a fixed
    /// point on its own.
    pub fn simplify(&self) -> (r: Math)
        ensures
            r == spec_simplify(*self),
        decreases self,
    {
        match self {
            Math::Add(l, x) => {
                let ls = l.simplify();
                let xs = x.simplify();
                rewrite_add(&ls, &xs)
            },
            Math::Subtract(l, x) => {
                let ls = l.simplify();
                let xs = x.simplify();
                rewrite_sub(&ls, &xs)
            },
            Math::Multiply(l, x) => {
                let ls = l.simplify();
                let xs = x.simplify();
                rewrite_mult(&ls, &xs)
            },
            Math::Divide(l, x) => {
                let ls = l.simplify();
                let xs = x.simplify();
                rewrite_div(&ls, &xs)
            },
            Math::Power(l, x) => {
                let ls = l.simplify();
                let xs = x.simplify();
                rewrite_pow(&ls, &xs)
            },
            Math::Ln(a) => Math::Ln(Box::new(a.simplify())),
            _ => self.duplicate(),
        }
    }

    /// Solves an expression by replacing every variable bound in
    /// `mappings` with its replacement expression, by value: replacements
    /// are not simplified or solved further, unbound variables stay, and a
    /// `Log` node is left untouched, argument included.
    pub fn solve(&self, mappings: &Bindings) -> (r: Math)
        ensures
            r == spec_solve(*self, mappings@),
        decreases self,
    {
        match self {
            Math::Variable(s) => match mappings.lookup(s) {
                Some(e) => e.duplicate(),
                None => Math::Variable(*s),
            },
            Math::Add(l, x) => Math::Add(
                Box::new(l.solve(mappings)),
                Box::new(x.solve(mappings)),
            ),
            Math::Subtract(l, x) => Math::Subtract(
                Box::new(l.solve(mappings)),
                Box::new(x.solve(mappings)),
            ),
            Math::Multiply(l, x) => Math::Multiply(
                Box::new(l.solve(mappings)),
                Box::new(x.solve(mappings)),
            ),
            Math::Divide(l, x) => Math::Divide(
                Box::new(l.solve(mappings)),
                Box::new(x.solve(mappings)),
            ),
            Math::Power(l, x) => Math::Power(
                Box::new(l.solve(mappings)),
                Box::new(x.solve(mappings)),
            ),
            Math::Ln(a) => Math::Ln(Box::new(a.solve(mappings))),
            _ => self.duplicate(),
        }
    }

    /// Applies `f` to each immediate child of a recursive variant and
    /// rebuilds the same variant with the results; the leaves and `Log`
    /// (whose base is not an expression) come back unchanged, `Log`'s
    /// argument included.
    pub fn map<F: Fn(&Math) -> Math>(&self, f: &F) -> (r: Math)
        requires
            forall|x: &Math| #[trigger] call_requires(*f, (x,)),
        ensures
            (match *self {
                Math::Add(l, x) => r matches Math::Add(a, b) && call_ensures(*f, (&*l,), *a)
                    && call_ensures(*f, (&*x,), *b),
                Math::Subtract(l, x) => r matches Math::Subtract(a, b) && call_ensures(
                    *f,
                    (&*l,),
                    *a,
                ) && call_ensures(*f, (&*x,), *b),
                Math::Multiply(l, x) => r matches Math::Multiply(a, b) && call_ensures(
                    *f,
                    (&*l,),
                    *a,
                ) && call_ensures(*f, (&*x,), *b),
                Math::Divide(l, x) => r matches Math::Divide(a, b) && call_ensures(*f, (&*l,), *a)
                    && call_ensures(*f, (&*x,), *b),
                Math::Power(l, x) => r matches Math::Power(a, b) && call_ensures(*f, (&*l,), *a)
                    && call_ensures(*f, (&*x,), *b),
                Math::Ln(a0) => r matches Math::Ln(b) && call_ensures(*f, (&*a0,), *b),
                _ => r == *self,
            }),
    {
        match self {
            Math::Add(l, x) => Math::Add(Box::new(f(l)), Box::new(f(x))),
            Math::Subtract(l, x) => Math::Subtract(Box::new(f(l)), Box::new(f(x))),
            Math::Multiply(l, x) => Math::Multiply(Box::new(f(l)), Box::new(f(x))),
            Math::Divide(l, x) => Math::Divide(Box::new(f(l)), Box::new(f(x))),
            Math::Power(l, x) => Math::Power(Box::new(f(l)), Box::new(f(x))),
            Math::Ln(a0) => Math::Ln(Box::new(f(a0))),
            _ => self.duplicate(),
        }
    }
}

// ---------- rendering ----------

/// The character for one decimal digit.
pub open spec fn spec_digit(d: nat) -> char {
    if d == 0 {
        '0'
    } else if d == 1 {
        '1'
    } else if d == 2 {
        '2'
    } else if d == 3 {
        '3'
    } else if d == 4 {
        '4'
    } else if d == 5 {
        '5'
    } else if d == 6 {
        '6'
    } else if d == 7 {
        '7'
    } else if d == 8 {
        '8'
    } else {
        '9'
    }
}

/// The decimal digits of `n`, most significant first.
pub open spec fn spec_dec_digits(n: nat) -> Seq<char>
    decreases n,
{
    if n < 10 {
        seq![spec_digit(n)]
    } else {
        spec_dec_digits(n / 10) + seq![spec_digit(n % 10)]
    }
}

/// The decimal form of `v`, with a leading minus sign when negative.
pub open spec fn spec_int_string(v: int) -> Seq<char> {
    if v < 0 {
        seq!['-'] + spec_dec_digits((-v) as nat)
    } else {
        spec_dec_digits(v as nat)
    }
}

/// The human-readable infix form: a power with exponent one is its base
/// alone, a power with a constant exponent is `base^exponent` and any
/// other power is `base^(exponent)`; a product of a constant with a power
/// or a variable is written as concatenation with the constant first,
/// whatever the operand order; every other binary node is fully
/// parenthesized; logarithms are `log<base>(arg)` and `ln(arg)`.
pub open spec fn spec_render(e: Math) -> Seq<char>
    decreases e,
{
    match e {
        Math::Constant(c) => spec_int_string(c as int),
        Math::Variable(s) => seq![s@],
        Math::Power(b, p) => match *p {
            Math::Constant(c) => if c == 1 {
                spec_render(*b)
            } else {
                spec_render(*b) + seq!['^'] + spec_render(*p)
            },
            _ => spec_render(*b) + seq!['^', '('] + spec_render(*p) + seq![')'],
        },
        Math::Subtract(l, r) => seq!['('] + spec_render(*l) + seq![' ', '-', ' '] + spec_render(*r)
            + seq![')'],
        Math::Add(l, r) => seq!['('] + spec_render(*l) + seq![' ', '+', ' '] + spec_render(*r)
            + seq![')'],
        Math::Multiply(l, r) => match (*l, *r) {
            (Math::Constant(c), Math::Power(b, p)) => spec_render(*l) + spec_render(*r),
            (Math::Constant(c), Math::Variable(s)) => spec_render(*l) + spec_render(*r),
            (Math::Power(b, p), Math::Constant(c)) => spec_render(*r) + spec_render(*l),
            (Math::Variable(s), Math::Constant(c)) => spec_render(*r) + spec_render(*l),
            _ => seq!['('] + spec_render(*l) + seq![' ', '*', ' '] + spec_render(*r) + seq![')'],
        },
        Math::Divide(l, r) => seq!['('] + spec_render(*l) + seq!['/'] + spec_render(*r) + seq![')'],
        Math::Log(base, a) => seq!['l', 'o', 'g'] + spec_dec_digits(base as nat) + seq!['(']
            + spec_render(*a) + seq![')'],
        Math::Ln(a) => seq!['l', 'n', '('] + spec_render(*a) + seq![')'],
    }
}

/// Relies on `String::push`: appends the one character to the end of the
/// string.
#[verifier::external_body]
fn push_char(out: &mut String, c: char)
    ensures
        final(out)@ == old(out)@ + seq![c],
{
    out.push(c)
}

fn digit_char(d: u64) -> (c: char)
    requires
        d < 10,
    ensures
        c == spec_digit(d as nat),
{
    if d == 0 {
        '0'
    } else if d == 1 {
        '1'
    } else if d == 2 {
        '2'
    } else if d == 3 {
        '3'
    } else if d == 4 {
        '4'
    } else if d == 5 {
        '5'
    } else if d == 6 {
        '6'
    } else if d == 7 {
        '7'
    } else if d == 8 {
        '8'
    } else {
        '9'
    }
}

fn push_digits(n: u64, out: &mut String)
    ensures
        final(out)@ == old(out)@ + spec_dec_digits(n as nat),
    decreases n,
{
    if n < 10 {
        push_char(out, digit_char(n));
    } else {
        push_digits(n / 10, out);
        push_char(out, digit_char(n % 10));
        proof {
            assert(out@ =~= old(out)@ + spec_dec_digits(n as nat));
        }
    }
}

impl Math {
    /// Produces the human-readable infix form of the tree.
    pub fn render(&self) -> (out: String)
        ensures
            out@ == spec_render(*self),
    {
        let mut out = String::new();
        self.render_into(&mut out);
        proof {
            assert(out@ =~= spec_render(*self));
        }
        out
    }

    fn render_into(&self, out: &mut String)
        ensures
            final(out)@ == old(out)@ + spec_render(*self),
        decreases self,
    {
        match self {
            Math::Constant(c) => {
                if *c < 0 {
                    push_char(out, '-');
                    let m: u64 = ((-(*c + 1)) as u64) + 1;
                    push_digits(m, out);
                } else {
                    push_digits(*c as u64, out);
                }
                proof {
                    assert(out@ =~= old(out)@ + spec_render(*self));
                }
            },
            Math::Variable(s) => {
                push_char(out, s.character());
            },
            Math::Power(b, p) => {
                match &**p {
                    Math::Constant(c) => {
                        if *c == 1 {
                            b.render_into(out);
                        } else {
                            b.render_into(out);
                            push_char(out, '^');
                            p.render_into(out);
                        }
                    },
                    _ => {
                        b.render_into(out);
                        push_char(out, '^');
                        push_char(out, '(');
                        p.render_into(out);
                        push_char(out, ')');
                    },
                }
                proof {
                    assert(out@ =~= old(out)@ + spec_render(*self));
                }
            },
            Math::Subtract(l, r) => {
                push_char(out, '(');
                l.render_into(out);
                push_char(out, ' ');
                push_char(out, '-');
                push_char(out, ' ');
                r.render_into(out);
                push_char(out, ')');
                proof {
                    assert(out@ =~= old(out)@ + spec_render(*self));
                }
            },
            Math::Add(l, r) => {
                push_char(out, '(');
                l.render_into(out);
                push_char(out, ' ');
                push_char(out, '+');
                push_char(out, ' ');
                r.render_into(out);
                push_char(out, ')');
                proof {
                    assert(out@ =~= old(out)@ + spec_render(*self));
                }
            },
            Math::Multiply(l, r) => {
                match (&**l, &**r) {
                    (Math::Constant(_), Math::Power(_, _)) => {
                        l.render_into(out);
                        r.render_into(out);
                    },
                    (Math::Constant(_), Math::Variable(_)) => {
                        l.render_into(out);
                        r.render_into(out);
                    },
                    (Math::Power(_, _), Math::Constant(_)) => {
                        r.render_into(out);
                        l.render_into(out);
                    },
                    (Math::Variable(_), Math::Constant(_)) => {
                        r.render_into(out);
                        l.render_into(out);
                    },
                    _ => {
                        push_char(out, '(');
                        l.render_into(out);
                        push_char(out, ' ');
                        push_char(out, '*');
                        push_char(out, ' ');
                        r.render_into(out);
                        push_char(out, ')');
                    },
                }
                proof {
                    assert(out@ =~= old(out)@ + spec_render(*self));
                }
            },
            Math::Divide(l, r) => {
                push_char(out, '(');
                l.render_into(out);
                push_char(out, '/');
                r.render_into(out);
                push_char(out, ')');
                proof {
                    assert(out@ =~= old(out)@ + spec_render(*self));
                }
            },
            Math::Log(base, a) => {
                push_char(out, 'l');
                push_char(out, 'o');
                push_char(out, 'g');
                push_digits(*base as u64, out);
                push_char(out, '(');
                a.render_into(out);
                push_char(out, ')');
                proof {
                    assert(out@ =~= old(out)@ + spec_render(*self));
                }
            },
            Math::Ln(a) => {
                push_char(out, 'l');
                push_char(out, 'n');
                push_char(out, '(');
                a.render_into(out);
                push_char(out, ')');
                proof {
                    assert(out@ =~= old(out)@ + spec_render(*self));
                }
            },
        }
    }
}

/// What a substitution map holds, read from its list of entries: a later
/// binding for the same symbol wins.
pub open spec fn spec_bindings_map(s: Seq<(Symbol, Math)>) -> Map<Symbol, Math>
    decreases s.len(),
{
    if s.len() == 0 {
        Map::empty()
    } else {
        spec_bindings_map(s.drop_last()).insert(s.last().0, s.last().1)
    }
}

/// Substitution of variables during `solve`: replaces every variable
/// bound here with its replacement expression.  When a substitution binds
/// one symbol twice, the binding made last wins.
pub struct Bindings {
    entries: Vec<(Symbol, Math)>,
}

impl View for Bindings {
    type V = Map<Symbol, Math>;

    closed spec fn view(&self) -> Map<Symbol, Math> {
        spec_bindings_map(self.entries@)
    }
}

impl Bindings {
    /// An empty substitution.
    pub fn new() -> (b: Bindings)
        ensures
            b@ == Map::<Symbol, Math>::empty(),
    {
        Bindings { entries: Vec::new() }
    }

    /// Binds `s` to the replacement expression `e`.
    pub fn bind(&mut self, s: Symbol, e: Math)
        ensures
            final(self)@ == old(self)@.insert(s, e),
    {
        self.entries.push((s, e));
        proof {
            assert(self.entries@.drop_last() =~= old(self).entries@);
        }
    }

    /// The expression bound to `s`, when there is one.
    pub fn lookup(&self, s: &Symbol) -> (r: Option<&Math>)
        ensures
            match r {
                Some(e) => self@.dom().contains(*s) && *e == self@[*s],
                None => !self@.dom().contains(*s),
            },
    {
        let mut i: usize = self.entries.len();
        proof {
            assert(self.entries@.take(i as int) =~= self.entries@);
        }
        while i > 0
            invariant
                0 <= i <= self.entries.len(),
                spec_bindings_map(self.entries@).dom().contains(*s) == spec_bindings_map(
                    self.entries@.take(i as int),
                ).dom().contains(*s),
                spec_bindings_map(self.entries@).dom().contains(*s)
                    ==> spec_bindings_map(self.entries@.take(i as int))[*s] == spec_bindings_map(
                    self.entries@,
                )[*s],
            decreases i,
        {
            let pair = &self.entries[i - 1];
            proof {
                assert(self.entries@.take(i as int).drop_last() =~= self.entries@.take(i - 1));
                assert(self.entries@.take(i as int).last() == self.entries@[i - 1]);
            }
            if pair.0 == *s {
                return Some(&pair.1);
            }
            i = i - 1;
        }
        proof {
            assert(self.entries@.take(0) =~= Seq::<(Symbol, Math)>::empty());
        }
        None
    }
}

/// Substitution, node by node: every variable bound in `m` is replaced by
/// its expression, by value; everything else is rebuilt unchanged, except
/// a `Log` node, which is left entirely untouched.
pub open spec fn spec_solve(e: Math, m: Map<Symbol, Math>) -> Math
    decreases e,
{
    match e {
        Math::Variable(s) => if m.dom().contains(s) {
            m[s]
        } else {
            e
        },
        Math::Add(l, r) => Math::Add(Box::new(spec_solve(*l, m)), Box::new(spec_solve(*r, m))),
        Math::Subtract(l, r) => Math::Subtract(
            Box::new(spec_solve(*l, m)),
            Box::new(spec_solve(*r, m)),
        ),
        Math::Multiply(l, r) => Math::Multiply(
            Box::new(spec_solve(*l, m)),
            Box::new(spec_solve(*r, m)),
        ),
        Math::Divide(l, r) => Math::Divide(
            Box::new(spec_solve(*l, m)),
            Box::new(spec_solve(*r, m)),
        ),
        Math::Power(l, r) => Math::Power(Box::new(spec_solve(*l, m)), Box::new(spec_solve(*r, m))),
        Math::Ln(a) => Math::Ln(Box::new(spec_solve(*a, m))),
        _ => e,
    }
}

} // verus!
