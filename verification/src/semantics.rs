//! The one-step rewrite relation of the SIMPLE language.
//!
//! [`spec_step`] is the mathematical rewrite relation: for a term and a store
//! it gives either the unique successor configuration or the fatal error that
//! reducing the term raises. [`Element::reduce`] is the executable reducer,
//! proved to perform exactly one `spec_step`.

use vstd::prelude::*;

use crate::element::Element;
use crate::store::Store;

verus! {

/// A fatal condition met while reducing a term: a malformed program, or a
/// result beyond what a number can hold. The reducer neither retries nor
/// recovers; the caller should treat any of these as a defect and abort.
#[derive(Clone, Copy, PartialEq, Eq, Structural, Debug)]
pub enum EvalError {
    /// A position that needs a numeric or boolean term held another terminal:
    /// an operand of `Add`, `Multiply` or `LessThan` was `DoNothing`, or the
    /// condition of an `IfElse` was terminal but not a `Boolean`.
    TypeMismatch,
    /// `reduce` was invoked on a term shape no rewrite rule covers, that is on
    /// the terminals `Number` and `Boolean`.
    UnhandledForm,
    /// An `Add` or `Multiply` result does not fit the number representation.
    Overflow,
}

/// A configuration: the term under reduction together with the store.
pub type Config = (Element, Map<Seq<char>, Element>);

/// Whether a terminal term can be read as a number: true for `Number` and
/// `Boolean` (booleans count as integers), false for `DoNothing`.
pub open spec fn has_value(t: Element) -> bool {
    t is Number || t is Boolean
}

/// The one-step rewrite relation. For a reducible term it yields the unique
/// successor configuration, or the error that the step raises; evaluation is
/// left to right, innermost first, and each application is exactly one rewrite.
/// Of the terminal terms, `DoNothing` rewrites to itself with the store kept,
/// and `Number` and `Boolean` are covered by no rule at all.
pub open spec fn spec_step(t: Element, env: Map<Seq<char>, Element>) -> Result<Config, EvalError>
    decreases t,
{
    match t {
        Element::Add(l, r) => {
            if l.spec_reducible() {
                match spec_step(*l, env) {
                    Ok((l2, env2)) => Ok((Element::Add(Box::new(l2), r), env2)),
                    Err(e) => Err(e),
                }
            } else if r.spec_reducible() {
                match spec_step(*r, env) {
                    Ok((r2, env2)) => Ok((Element::Add(l, Box::new(r2)), env2)),
                    Err(e) => Err(e),
                }
            } else if has_value(*l) && has_value(*r) {
                let sum = l.spec_value() + r.spec_value();
                if i64::MIN <= sum <= i64::MAX {
                    Ok((Element::Number(sum as i64), env))
                } else {
                    Err(EvalError::Overflow)
                }
            } else {
                Err(EvalError::TypeMismatch)
            }
        },
        Element::Multiply(l, r) => {
            if l.spec_reducible() {
                match spec_step(*l, env) {
                    Ok((l2, env2)) => Ok((Element::Multiply(Box::new(l2), r), env2)),
                    Err(e) => Err(e),
                }
            } else if r.spec_reducible() {
                match spec_step(*r, env) {
                    Ok((r2, env2)) => Ok((Element::Multiply(l, Box::new(r2)), env2)),
                    Err(e) => Err(e),
                }
            } else if has_value(*l) && has_value(*r) {
                let product = l.spec_value() * r.spec_value();
                if i64::MIN <= product <= i64::MAX {
                    Ok((Element::Number(product as i64), env))
                } else {
                    Err(EvalError::Overflow)
                }
            } else {
                Err(EvalError::TypeMismatch)
            }
        },
        Element::LessThan(l, r) => {
            if l.spec_reducible() {
                match spec_step(*l, env) {
                    Ok((l2, env2)) => Ok((Element::LessThan(Box::new(l2), r), env2)),
                    Err(e) => Err(e),
                }
            } else if r.spec_reducible() {
                match spec_step(*r, env) {
                    Ok((r2, env2)) => Ok((Element::LessThan(l, Box::new(r2)), env2)),
                    Err(e) => Err(e),
                }
            } else if has_value(*l) && has_value(*r) {
                Ok((Element::Boolean(l.spec_value() < r.spec_value()), env))
            } else {
                Err(EvalError::TypeMismatch)
            }
        },
        Element::Variable(name) => {
            if env.contains_key(name@) {
                Ok((env[name@], env))
            } else {
                Ok((Element::DoNothing, env))
            }
        },
        Element::Assign(name, value) => {
            if value.spec_reducible() {
                match spec_step(*value, env) {
                    Ok((v2, env2)) => Ok((Element::Assign(name, Box::new(v2)), env2)),
                    Err(e) => Err(e),
                }
            } else {
                Ok((Element::DoNothing, env.insert(name@, *value)))
            }
        },
        Element::Sequence(first, second) => {
            if *first is DoNothing {
                Ok((*second, env))
            } else {
                match spec_step(*first, env) {
                    Ok((f2, env2)) => Ok((Element::Sequence(Box::new(f2), second), env2)),
                    Err(e) => Err(e),
                }
            }
        },
        Element::IfElse(cond, cons, alt) => {
            if *cond == Element::Boolean(true) {
                Ok((*cons, env))
            } else if *cond == Element::Boolean(false) {
                Ok((*alt, env))
            } else if cond.spec_reducible() {
                match spec_step(*cond, env) {
                    Ok((c2, env2)) => Ok((Element::IfElse(Box::new(c2), cons, alt), env2)),
                    Err(e) => Err(e),
                }
            } else {
                Err(EvalError::TypeMismatch)
            }
        },
        Element::While(cond, body) => Ok(
            (
                Element::IfElse(
                    cond,
                    Box::new(Element::Sequence(body, Box::new(Element::While(cond, body)))),
                    Box::new(Element::DoNothing),
                ),
                env,
            ),
        ),
        Element::DoNothing => Ok((Element::DoNothing, env)),
        Element::Number(_) => Err(EvalError::UnhandledForm),
        Element::Boolean(_) => Err(EvalError::UnhandledForm),
    }
}

/// Read a terminal operand as a number, or report the type mismatch that an
/// operand with no numeric reading raises.
fn operand_value(t: &Element) -> (r: Result<i64, EvalError>)
    requires
        !t.spec_reducible(),
    ensures
        match r {
            Ok(v) => has_value(*t) && v as int == t.spec_value(),
            Err(e) => !has_value(*t) && e == EvalError::TypeMismatch,
        },
{
    match t {
        Element::Number(n) => Ok(*n),
        Element::Boolean(true) => Ok(1),
        Element::Boolean(false) => Ok(0),
        _ => Err(EvalError::TypeMismatch),
    }
}

impl Element {
    /// Perform exactly one rewrite step on this term against `environment`,
    /// following [`spec_step`]: the result and the store afterwards are
    /// exactly the successor configuration, and a failing step reports the
    /// error with the store unchanged.
    pub fn reduce(&self, environment: &mut Store) -> (r: Result<Element, EvalError>)
        ensures
            match spec_step(*self, old(environment)@) {
                Ok((t2, env2)) => r matches Ok(t) && t == t2 && final(environment)@ == env2,
                Err(e) => r == Result::<Element, EvalError>::Err(e) && final(environment)@ == old(
                    environment,
                )@,
            },
        decreases *self,
    {
        match self {
            Element::Add(l, r) => {
                if l.is_reducible() {
                    match l.reduce(environment) {
                        Ok(l2) => Ok(Element::Add(Box::new(l2), Box::new((**r).clone()))),
                        Err(e) => Err(e),
                    }
                } else if r.is_reducible() {
                    match r.reduce(environment) {
                        Ok(r2) => Ok(Element::Add(Box::new((**l).clone()), Box::new(r2))),
                        Err(e) => Err(e),
                    }
                } else {
                    let lv = operand_value(l)?;
                    let rv = operand_value(r)?;
                    match lv.checked_add(rv) {
                        Some(sum) => Ok(Element::Number(sum)),
                        None => Err(EvalError::Overflow),
                    }
                }
            },
            Element::Multiply(l, r) => {
                if l.is_reducible() {
                    match l.reduce(environment) {
                        Ok(l2) => Ok(Element::Multiply(Box::new(l2), Box::new((**r).clone()))),
                        Err(e) => Err(e),
                    }
                } else if r.is_reducible() {
                    match r.reduce(environment) {
                        Ok(r2) => Ok(Element::Multiply(Box::new((**l).clone()), Box::new(r2))),
                        Err(e) => Err(e),
                    }
                } else {
                    let lv = operand_value(l)?;
                    let rv = operand_value(r)?;
                    match lv.checked_mul(rv) {
                        Some(product) => Ok(Element::Number(product)),
                        None => Err(EvalError::Overflow),
                    }
                }
            },
            Element::LessThan(l, r) => {
                if l.is_reducible() {
                    match l.reduce(environment) {
                        Ok(l2) => Ok(Element::LessThan(Box::new(l2), Box::new((**r).clone()))),
                        Err(e) => Err(e),
                    }
                } else if r.is_reducible() {
                    match r.reduce(environment) {
                        Ok(r2) => Ok(Element::LessThan(Box::new((**l).clone()), Box::new(r2))),
                        Err(e) => Err(e),
                    }
                } else {
                    let lv = operand_value(l)?;
                    let rv = operand_value(r)?;
                    Ok(Element::Boolean(lv < rv))
                }
            },
            Element::Variable(name) => {
                match environment.get(name) {
                    Some(value) => Ok(value.clone()),
                    None => Ok(Element::DoNothing),
                }
            },
            Element::Assign(name, value) => {
                if value.is_reducible() {
                    match value.reduce(environment) {
                        Ok(v2) => Ok(Element::Assign(name.clone(), Box::new(v2))),
                        Err(e) => Err(e),
                    }
                } else {
                    environment.insert(name.clone(), (**value).clone());
                    Ok(Element::DoNothing)
                }
            },
            Element::Sequence(first, second) => {
                if matches!(&**first, Element::DoNothing) {
                    Ok((**second).clone())
                } else {
                    match first.reduce(environment) {
                        Ok(f2) => Ok(Element::Sequence(Box::new(f2), Box::new((**second).clone()))),
                        Err(e) => Err(e),
                    }
                }
            },
            Element::IfElse(cond, cons, alt) => {
                match &**cond {
                    Element::Boolean(true) => Ok((**cons).clone()),
                    Element::Boolean(false) => Ok((**alt).clone()),
                    _ => {
                        if cond.is_reducible() {
                            match cond.reduce(environment) {
                                Ok(c2) => Ok(
                                    Element::IfElse(
                                        Box::new(c2),
                                        Box::new((**cons).clone()),
                                        Box::new((**alt).clone()),
                                    ),
                                ),
                                Err(e) => Err(e),
                            }
                        } else {
                            Err(EvalError::TypeMismatch)
                        }
                    },
                }
            },
            Element::While(cond, body) => Ok(
                Element::IfElse(
                    Box::new((**cond).clone()),
                    Box::new(
                        Element::Sequence(
                            Box::new((**body).clone()),
                            Box::new(
                                Element::While(
                                    Box::new((**cond).clone()),
                                    Box::new((**body).clone()),
                                ),
                            ),
                        ),
                    ),
                    Box::new(Element::DoNothing),
                ),
            ),
            Element::DoNothing => Ok(Element::DoNothing),
            Element::Number(_) => Err(EvalError::UnhandledForm),
            Element::Boolean(_) => Err(EvalError::UnhandledForm),
        }
    }
}

/// Whether an outcome of [`run_within`] can go no further: an error, or a
/// configuration whose term is terminal.
pub open spec fn is_halted(outcome: Result<Config, EvalError>) -> bool {
    match outcome {
        Ok((t, _)) => !t.spec_reducible(),
        Err(_) => true,
    }
}

/// Up to `n` rewrite steps from a configuration: the configuration reached
/// when the term becomes terminal or the fuel runs out, or the error met on
/// the way.
pub open spec fn run_within(t: Element, env: Map<Seq<char>, Element>, n: nat) -> Result<
    Config,
    EvalError,
>
    decreases n,
{
    if !t.spec_reducible() || n == 0 {
        Ok((t, env))
    } else {
        match spec_step(t, env) {
            Ok((t2, env2)) => run_within(t2, env2, (n - 1) as nat),
            Err(e) => Err(e),
        }
    }
}

/// Whether reduction from a configuration comes to rest at all: some number of
/// steps reaches a terminal term or an error. A program that loops forever
/// (a `While` whose condition never becomes false) halts nowhere.
pub open spec fn halts(t: Element, env: Map<Seq<char>, Element>) -> bool {
    exists|n: nat| is_halted(run_within(t, env, n))
}

/// Once reduction has come to rest, more fuel changes nothing.
pub proof fn lemma_run_within_stable(t: Element, env: Map<Seq<char>, Element>, n: nat, m: nat)
    requires
        is_halted(run_within(t, env, n)),
        n <= m,
    ensures
        run_within(t, env, m) == run_within(t, env, n),
    decreases n,
{
    if t.spec_reducible() && n > 0 {
        match spec_step(t, env) {
            Ok((t2, env2)) => {
                lemma_run_within_stable(t2, env2, (n - 1) as nat, (m - 1) as nat);
            },
            Err(_) => {},
        }
    }
}

/// One more unit of fuel performs one more step: if `n` steps reach a still
/// reducible configuration, `n + 1` steps reach its successor (or its error).
pub proof fn lemma_run_within_snoc(
    t: Element,
    env: Map<Seq<char>, Element>,
    n: nat,
    t2: Element,
    env2: Map<Seq<char>, Element>,
)
    requires
        run_within(t, env, n) == Ok::<Config, EvalError>((t2, env2)),
        t2.spec_reducible(),
    ensures
        run_within(t, env, n + 1) == (match spec_step(t2, env2) {
            Ok(c) => Ok::<Config, EvalError>(c),
            Err(e) => Err::<Config, EvalError>(e),
        }),
    decreases n,
{
    if !t.spec_reducible() {
        // then the configuration at n is (t, env) itself, which is terminal,
        // contradicting the requirement that t2 is reducible
    } else if n == 0 {
        // t2 == t and env2 == env, and one unit of fuel performs exactly the step
        match spec_step(t, env) {
            Ok((ta, enva)) => {
                assert(run_within(ta, enva, 0) == Ok::<Config, EvalError>((ta, enva)));
                assert(run_within(t, env, 1) == Ok::<Config, EvalError>((ta, enva)));
            },
            Err(e) => {
                assert(run_within(t, env, 1) == Err::<Config, EvalError>(e));
            },
        }
    } else {
        match spec_step(t, env) {
            Ok((ta, enva)) => {
                lemma_run_within_snoc(ta, enva, (n - 1) as nat, t2, env2);
                assert(run_within(t, env, n + 1) == run_within(ta, enva, n));
            },
            Err(_) => {},
        }
    }
}

/// Determinism over whole runs: wherever reduction from a configuration comes
/// to rest, it is the same place — there is one final configuration or one
/// error, however much fuel is spent finding it.
pub proof fn lemma_halting_outcome_unique(
    t: Element,
    env: Map<Seq<char>, Element>,
    n: nat,
    m: nat,
)
    requires
        is_halted(run_within(t, env, n)),
        is_halted(run_within(t, env, m)),
    ensures
        run_within(t, env, n) == run_within(t, env, m),
{
    if n <= m {
        lemma_run_within_stable(t, env, n, m);
    } else {
        lemma_run_within_stable(t, env, m, n);
    }
}

/// Determinism: the rewrite relation is a function of the configuration. One
/// term and one store have exactly one successor configuration, or one error.
pub proof fn lemma_step_deterministic(
    t1: Element,
    env1: Map<Seq<char>, Element>,
    t2: Element,
    env2: Map<Seq<char>, Element>,
)
    requires
        t1 == t2,
        env1 == env2,
    ensures
        spec_step(t1, env1) == spec_step(t2, env2),
{
}

/// A terminal term is never rewritten: stepping `DoNothing` returns the term
/// itself with the store untouched, and stepping a `Number` or `Boolean`
/// fails; neither alters the store.
pub proof fn lemma_step_on_terminal(t: Element, env: Map<Seq<char>, Element>)
    requires
        !t.spec_reducible(),
    ensures
        t is DoNothing ==> spec_step(t, env) == Ok::<Config, EvalError>((t, env)),
        (t is Number || t is Boolean) ==> spec_step(t, env) == Err::<Config, EvalError>(
            EvalError::UnhandledForm,
        ),
{
}

/// The unresolved-variable policy: a variable the store does not know reduces
/// to `DoNothing` rather than failing, and the store is kept as it is.
pub proof fn lemma_unbound_variable(name: String, env: Map<Seq<char>, Element>)
    requires
        !env.contains_key(name@),
    ensures
        spec_step(Element::Variable(name), env) == Ok::<Config, EvalError>(
            (Element::DoNothing, env),
        ),
{
}

} // verus!
