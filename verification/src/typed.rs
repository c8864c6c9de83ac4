//! Statically typed expression nodes.
//!
//! An alternative to the dynamic [`crate::element::Element`] tree: each node
//! kind is its own type, composed through the [`Element`] trait, so the shape
//! of an expression is fixed at compile time. A rewrite cannot change a node's
//! type here, so `reduce` is specified by what it preserves: the number the
//! node denotes, with booleans out of scope in this representation.

use vstd::prelude::*;
use vstd::string::StringExecFns;

use crate::render::{i64_to_string, int_chars};

verus! {

/// An expression node: it denotes a number, renders canonically, and rewrites
/// to a node of the same type denoting the same number.
pub trait Element: Sized {
    /// The number the node denotes.
    spec fn denotes(&self) -> int;

    /// The canonical rendering of the node.
    spec fn rendered(&self) -> Seq<char>;

    /// Whether some rewrite applies to the node.
    spec fn spec_reducible(&self) -> bool;

    /// The canonical textual form of the node.
    fn to_s(&self) -> (s: String)
        ensures
            s@ == self.rendered(),
    ;

    /// Whether the node can be rewritten further.
    fn is_reducible(&self) -> (r: bool)
        ensures
            r == self.spec_reducible(),
    ;

    /// Rewrite within the node's own type, preserving what it denotes.
    fn reduce(&self) -> (r: Self)
        ensures
            r.denotes() == self.denotes(),
    ;
}

/// A number literal.
pub struct Number {
    value: i64,
}

impl Number {
    /// Create a literal denoting `n`.
    pub fn new(n: i64) -> (r: Number)
        ensures
            r.denotes() == n as int,
            r.rendered() == int_chars(n as int),
    {
        Number { value: n }
    }
}

impl Element for Number {
    closed spec fn denotes(&self) -> int {
        self.value as int
    }

    closed spec fn rendered(&self) -> Seq<char> {
        int_chars(self.value as int)
    }

    closed spec fn spec_reducible(&self) -> bool {
        false
    }

    fn to_s(&self) -> (s: String)
        ensures
            s@ == self.rendered(),
    {
        i64_to_string(self.value)
    }

    fn is_reducible(&self) -> (r: bool)
        ensures
            r == self.spec_reducible(),
    {
        false
    }

    fn reduce(&self) -> (r: Self)
        ensures
            r.denotes() == self.denotes(),
    {
        Number { value: self.value }
    }
}

/// The sum of two nodes.
pub struct Add<L, R> {
    left: L,
    right: R,
}

impl<L: Element, R: Element> Add<L, R> {
    /// Create a sum node over two operands.
    pub fn new(l: L, r: R) -> (a: Add<L, R>)
        ensures
            a.denotes() == l.denotes() + r.denotes(),
            a.rendered() == l.rendered() + " + "@ + r.rendered(),
    {
        Add { left: l, right: r }
    }
}

impl<L: Element, R: Element> Element for Add<L, R> {
    closed spec fn denotes(&self) -> int {
        self.left.denotes() + self.right.denotes()
    }

    closed spec fn rendered(&self) -> Seq<char> {
        self.left.rendered() + " + "@ + self.right.rendered()
    }

    closed spec fn spec_reducible(&self) -> bool {
        true
    }

    fn to_s(&self) -> (s: String)
        ensures
            s@ == self.rendered(),
    {
        let mut s = self.left.to_s();
        s.append(" + ");
        s.append(self.right.to_s().as_str());
        s
    }

    fn is_reducible(&self) -> (r: bool)
        ensures
            r == self.spec_reducible(),
    {
        true
    }

    fn reduce(&self) -> (r: Self)
        ensures
            r.denotes() == self.denotes(),
    {
        Add { left: self.left.reduce(), right: self.right.reduce() }
    }
}

/// The product of two nodes.
pub struct Multiply<L, R> {
    left: L,
    right: R,
}

impl<L: Element, R: Element> Multiply<L, R> {
    /// Create a product node over two operands.
    pub fn new(l: L, r: R) -> (m: Multiply<L, R>)
        ensures
            m.denotes() == l.denotes() * r.denotes(),
            m.rendered() == l.rendered() + " * "@ + r.rendered(),
    {
        Multiply { left: l, right: r }
    }
}

impl<L: Element, R: Element> Element for Multiply<L, R> {
    closed spec fn denotes(&self) -> int {
        self.left.denotes() * self.right.denotes()
    }

    closed spec fn rendered(&self) -> Seq<char> {
        self.left.rendered() + " * "@ + self.right.rendered()
    }

    closed spec fn spec_reducible(&self) -> bool {
        true
    }

    fn to_s(&self) -> (s: String)
        ensures
            s@ == self.rendered(),
    {
        let mut s = self.left.to_s();
        s.append(" * ");
        s.append(self.right.to_s().as_str());
        s
    }

    fn is_reducible(&self) -> (r: bool)
        ensures
            r == self.spec_reducible(),
    {
        true
    }

    fn reduce(&self) -> (r: Self)
        ensures
            r.denotes() == self.denotes(),
    {
        Multiply { left: self.left.reduce(), right: self.right.reduce() }
    }
}

/// The rendering of a node between guillemets, the form the nodes print as.
pub fn quoted<E: Element>(e: &E) -> (s: String)
    ensures
        s@ == seq!['«'] + e.rendered() + seq!['»'],
{
    let mut s = "«".to_owned();
    s.append(e.to_s().as_str());
    s.append("»");
    proof {
        reveal_strlit("«");
        reveal_strlit("»");
        assert("«"@ + e.rendered() + "»"@ =~= seq!['«'] + e.rendered() + seq!['»']);
    }
    s
}

} // verus!
