//! The abstract syntax of the SIMPLE language.
//!
//! A term of the language is an `Element` tree. A term is *terminal* when no
//! rewrite rule applies to it: exactly the `Number`, `Boolean` and `DoNothing`
//! variants are terminal, every other variant is reducible.

use vstd::prelude::*;

verus! {

/// A term of the SIMPLE language: both the syntax of a program and, once fully
/// reduced, its resulting value.
#[derive(Debug)]
pub enum Element {
    /// A number literal; terminal.
    Number(i64),
    /// Addition of two terms; reducible until both sides are terminal.
    Add(Box<Element>, Box<Element>),
    /// Multiplication of two terms; reducible until both sides are terminal.
    Multiply(Box<Element>, Box<Element>),
    /// A boolean literal; terminal.
    Boolean(bool),
    /// A less-than comparison of two terms; produces a `Boolean`.
    LessThan(Box<Element>, Box<Element>),
    /// A variable, replaced by its stored value when reduced.
    Variable(String),
    /// An assignment; the value is fully reduced before the store is updated.
    Assign(String, Box<Element>),
    /// Two terms in sequence; the first runs to `DoNothing` before the second starts.
    Sequence(Box<Element>, Box<Element>),
    /// A conditional; the condition must reduce to a `Boolean`.
    IfElse(Box<Element>, Box<Element>, Box<Element>),
    /// A loop; rewrites by one-step unrolling into an `IfElse`.
    While(Box<Element>, Box<Element>),
    /// The no-op statement; terminal.
    DoNothing,
}

impl Element {
    /// Whether some rewrite rule applies to this term: true for every variant
    /// except the terminal ones (`Number`, `Boolean`, `DoNothing`).
    pub open spec fn spec_reducible(&self) -> bool {
        match *self {
            Element::Number(_) => false,
            Element::Boolean(_) => false,
            Element::DoNothing => false,
            Element::Add(_, _) => true,
            Element::Multiply(_, _) => true,
            Element::LessThan(_, _) => true,
            Element::Variable(_) => true,
            Element::Assign(_, _) => true,
            Element::Sequence(_, _) => true,
            Element::IfElse(_, _, _) => true,
            Element::While(_, _) => true,
        }
    }

    /// Whether this term can be reduced further.
    pub fn is_reducible(&self) -> (r: bool)
        ensures
            r == self.spec_reducible(),
    {
        match *self {
            Element::Number(_) => false,
            Element::Boolean(_) => false,
            Element::DoNothing => false,
            Element::Add(_, _) => true,
            Element::Multiply(_, _) => true,
            Element::LessThan(_, _) => true,
            Element::Variable(_) => true,
            Element::Assign(_, _) => true,
            Element::Sequence(_, _) => true,
            Element::IfElse(_, _, _) => true,
            Element::While(_, _) => true,
        }
    }

    /// The numeric content of a `Number` or `Boolean` term, with booleans read
    /// as integers (`true` is 1, `false` is 0).
    pub open spec fn spec_value(&self) -> int
        recommends
            *self is Number || *self is Boolean,
    {
        match *self {
            Element::Number(n) => n as int,
            Element::Boolean(b) => if b {
                1
            } else {
                0
            },
            _ => vstd::pervasive::arbitrary(),
        }
    }

    /// Get the numeric value of a `Number`, or of a `Boolean` read as an
    /// integer (`true` is 1, `false` is 0). Any other term has no value, so the
    /// caller must not ask for one.
    pub fn value(&self) -> (r: i64)
        requires
            *self is Number || *self is Boolean,
        ensures
            r as int == self.spec_value(),
    {
        match *self {
            Element::Number(n) => n,
            Element::Boolean(true) => 1,
            Element::Boolean(false) => 0,
            _ => vstd::pervasive::unreached(),
        }
    }
}

/// Structural equality of two terms, with variable and assignment names
/// compared by their characters.
pub open spec fn deep_eq(a: Element, b: Element) -> bool
    decreases a,
{
    match (a, b) {
        (Element::Number(x), Element::Number(y)) => x == y,
        (Element::Boolean(x), Element::Boolean(y)) => x == y,
        (Element::DoNothing, Element::DoNothing) => true,
        (Element::Variable(x), Element::Variable(y)) => x@ == y@,
        (Element::Add(l1, r1), Element::Add(l2, r2)) => deep_eq(*l1, *l2) && deep_eq(*r1, *r2),
        (Element::Multiply(l1, r1), Element::Multiply(l2, r2)) => deep_eq(*l1, *l2) && deep_eq(
            *r1,
            *r2,
        ),
        (Element::LessThan(l1, r1), Element::LessThan(l2, r2)) => deep_eq(*l1, *l2) && deep_eq(
            *r1,
            *r2,
        ),
        (Element::Assign(n1, v1), Element::Assign(n2, v2)) => n1@ == n2@ && deep_eq(*v1, *v2),
        (Element::Sequence(f1, s1), Element::Sequence(f2, s2)) => deep_eq(*f1, *f2) && deep_eq(
            *s1,
            *s2,
        ),
        (Element::IfElse(c1, t1, e1), Element::IfElse(c2, t2, e2)) => deep_eq(*c1, *c2) && deep_eq(
            *t1,
            *t2,
        ) && deep_eq(*e1, *e2),
        (Element::While(c1, b1), Element::While(c2, b2)) => deep_eq(*c1, *c2) && deep_eq(*b1, *b2),
        _ => false,
    }
}

/// Decide structural equality of two terms.
fn elements_equal(a: &Element, b: &Element) -> (r: bool)
    ensures
        r == deep_eq(*a, *b),
    decreases *a,
{
    match (a, b) {
        (Element::Number(x), Element::Number(y)) => *x == *y,
        (Element::Boolean(x), Element::Boolean(y)) => *x == *y,
        (Element::DoNothing, Element::DoNothing) => true,
        (Element::Variable(x), Element::Variable(y)) => *x == *y,
        (Element::Add(l1, r1), Element::Add(l2, r2)) => elements_equal(l1, l2) && elements_equal(
            r1,
            r2,
        ),
        (Element::Multiply(l1, r1), Element::Multiply(l2, r2)) => elements_equal(l1, l2)
            && elements_equal(r1, r2),
        (Element::LessThan(l1, r1), Element::LessThan(l2, r2)) => elements_equal(l1, l2)
            && elements_equal(r1, r2),
        (Element::Assign(n1, v1), Element::Assign(n2, v2)) => *n1 == *n2 && elements_equal(v1, v2),
        (Element::Sequence(f1, s1), Element::Sequence(f2, s2)) => elements_equal(f1, f2)
            && elements_equal(s1, s2),
        (Element::IfElse(c1, t1, e1), Element::IfElse(c2, t2, e2)) => elements_equal(c1, c2)
            && elements_equal(t1, t2) && elements_equal(e1, e2),
        (Element::While(c1, b1), Element::While(c2, b2)) => elements_equal(c1, c2)
            && elements_equal(b1, b2),
        _ => false,
    }
}

impl PartialEq for Element {
    /// Structural equality, with names compared by their characters.
    fn eq(&self, other: &Element) -> bool {
        elements_equal(self, other)
    }
}

impl vstd::std_specs::cmp::PartialEqSpecImpl for Element {
    open spec fn obeys_eq_spec() -> bool {
        true
    }

    open spec fn eq_spec(&self, other: &Element) -> bool {
        deep_eq(*self, *other)
    }
}

impl Clone for Element {
    /// A deep copy: the clone is equal to the original term.
    fn clone(&self) -> (res: Self)
        ensures
            res == *self,
        decreases *self,
    {
        match self {
            Element::Number(n) => Element::Number(*n),
            Element::Boolean(b) => Element::Boolean(*b),
            Element::DoNothing => Element::DoNothing,
            Element::Variable(name) => Element::Variable(name.clone()),
            Element::Add(l, r) => Element::Add(Box::new((**l).clone()), Box::new((**r).clone())),
            Element::Multiply(l, r) => Element::Multiply(
                Box::new((**l).clone()),
                Box::new((**r).clone()),
            ),
            Element::LessThan(l, r) => Element::LessThan(
                Box::new((**l).clone()),
                Box::new((**r).clone()),
            ),
            Element::Assign(name, value) => Element::Assign(
                name.clone(),
                Box::new((**value).clone()),
            ),
            Element::Sequence(first, second) => Element::Sequence(
                Box::new((**first).clone()),
                Box::new((**second).clone()),
            ),
            Element::IfElse(cond, cons, alt) => Element::IfElse(
                Box::new((**cond).clone()),
                Box::new((**cons).clone()),
                Box::new((**alt).clone()),
            ),
            Element::While(cond, body) => Element::While(
                Box::new((**cond).clone()),
                Box::new((**body).clone()),
            ),
        }
    }
}

} // verus!
