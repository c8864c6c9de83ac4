//! The machine that drives a term to its normal form.
//!
//! A machine owns one term (the current configuration) and one store; `step`
//! replaces the term by its one-step reduct, mutating the store when an
//! assignment completes, and `run` steps until the term is terminal.

use vstd::prelude::*;

use crate::element::Element;
use crate::semantics::{
    halts, is_halted, lemma_run_within_snoc, run_within, spec_step, Config, EvalError,
};
use crate::store::Store;

verus! {

/// A virtual machine: one term under reduction and the store it runs against.
pub struct Machine {
    expression: Box<Element>,
    environment: Store,
}

impl Machine {
    /// The term the machine currently holds.
    pub closed spec fn term(&self) -> Element {
        *self.expression
    }

    /// The map the machine's store currently denotes.
    pub closed spec fn env(&self) -> Map<Seq<char>, Element> {
        self.environment@
    }

    /// Create a machine holding `expression` and the given store.
    pub fn new(expression: Box<Element>, map: Store) -> (m: Machine)
        ensures
            m.term() == *expression,
            m.env() == map@,
    {
        Machine { expression, environment: map }
    }

    /// Create a machine holding `expression` and an empty store.
    pub fn new_with_empty_env(expression: Box<Element>) -> (m: Machine)
        ensures
            m.term() == *expression,
            m.env() == Map::<Seq<char>, Element>::empty(),
    {
        let map: Store = Store::new();
        Machine { expression, environment: map }
    }

    /// A copy of the current store, for reading results after a run.
    pub fn clone_env(&self) -> (r: Store)
        ensures
            r@ == self.env(),
    {
        self.environment.clone()
    }

    /// The current configuration's term.
    pub fn current_term(&self) -> (r: &Element)
        ensures
            *r == self.term(),
    {
        &self.expression
    }

    /// Replace the held term by its one-step reduct, following the rewrite
    /// relation; a failing step reports the error and leaves the machine as it
    /// was.
    pub fn step(&mut self) -> (r: Result<(), EvalError>)
        ensures
            match spec_step(old(self).term(), old(self).env()) {
                Ok((t2, env2)) => r == Ok::<(), EvalError>(()) && final(self).term() == t2
                    && final(self).env() == env2,
                Err(e) => r == Err::<(), EvalError>(e) && final(self).term() == old(self).term()
                    && final(self).env() == old(self).env(),
            },
    {
        match self.expression.reduce(&mut self.environment) {
            Ok(t2) => {
                self.expression = Box::new(t2);
                Ok(())
            },
            Err(e) => Err(e),
        }
    }

    /// Step until the held term is terminal. The machine then holds a
    /// configuration that the rewrite relation reaches from the starting one;
    /// on success its term is terminal, and on failure it is the configuration
    /// whose step raises the reported error. Only a halting program can be
    /// driven this way: one that never comes to rest would run forever.
    #[verifier::loop_isolation(false)]
    pub fn run(&mut self) -> (r: Result<(), EvalError>)
        requires
            halts(old(self).term(), old(self).env()),
        ensures
            exists|n: nat|
                run_within(old(self).term(), old(self).env(), n) == Ok::<Config, EvalError>(
                    (final(self).term(), final(self).env()),
                ),
            r matches Ok(()) ==> !final(self).term().spec_reducible(),
            r matches Err(e) ==> spec_step(final(self).term(), final(self).env()) == Err::<
                Config,
                EvalError,
            >(e),
            r matches Err(e) ==> exists|n: nat|
                run_within(old(self).term(), old(self).env(), n) == Err::<Config, EvalError>(e),
    {
        let ghost init_t = self.term();
        let ghost init_e = self.env();
        let ghost fuel: nat = choose|n: nat| is_halted(run_within(init_t, init_e, n));
        let ghost mut k: nat = 0;
        proof {
            assert(run_within(init_t, init_e, 0) == Ok::<Config, EvalError>((init_t, init_e)));
        }
        while self.current_term().is_reducible()
            invariant
                is_halted(run_within(init_t, init_e, fuel)),
                k <= fuel,
                run_within(init_t, init_e, k) == Ok::<Config, EvalError>(
                    (self.term(), self.env()),
                ),
            decreases fuel - k,
        {
            let ghost cur_t = self.term();
            let ghost cur_e = self.env();
            proof {
                // k has not reached the halting fuel: the configuration after
                // k steps is still reducible, the outcome at `fuel` is halted
                assert(k < fuel) by {
                    if k == fuel {
                        assert(!is_halted(run_within(init_t, init_e, fuel)));
                    }
                }
                lemma_run_within_snoc(init_t, init_e, k, cur_t, cur_e);
            }
            match self.step() {
                Ok(()) => {
                    proof {
                        k = k + 1;
                    }
                },
                Err(e) => {
                    return Err(e);
                },
            }
        }
        Ok(())
    }
}

} // verus!
