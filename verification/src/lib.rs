//! A small-step operational semantics for the SIMPLE imperative language.
//!
//! A program is an [`Element`] tree built directly from the constructors (there
//! is no concrete syntax). The one-step rewrite relation over terms is
//! implemented by [`Element::reduce`], which consults and updates a variable
//! [`Store`], and a [`Machine`] drives the rewriting of one term against one
//! store until the term is terminal.

pub mod element;
pub mod machine;
pub mod render;
pub mod semantics;
pub mod store;
pub mod typed;

pub use element::Element;
pub use machine::Machine;
pub use semantics::EvalError;
pub use store::Store;
