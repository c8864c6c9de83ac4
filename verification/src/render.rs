//! The canonical textual form of a term.
//!
//! Every term has one human-readable rendering, used to observe intermediate
//! configurations: `Add(Number(1), Number(2))` renders as `1 + 2`, `IfElse` as
//! `if (C) [ T ] else [ F ]`, `Sequence` as `A; B` and `While` as
//! `while (C) [ B ]`. The rendering is specified character by character.

use vstd::prelude::*;
use vstd::string::StringExecFns;

use crate::element::Element;

verus! {

/// The character for one decimal digit.
pub open spec fn dec_digit_char(d: nat) -> char
    recommends
        d < 10,
{
    if d == 0 {
        '0'
    } else if d == 1 {
        '1'
    } else if d == 2 {
        '2'
    } else if d == 3 {
        '3'
    } else if d == 4 {
        '4'
    } else if d == 5 {
        '5'
    } else if d == 6 {
        '6'
    } else if d == 7 {
        '7'
    } else if d == 8 {
        '8'
    } else {
        '9'
    }
}

/// The decimal digits of a natural number, most significant first, with no
/// leading zero except for the number zero itself.
pub open spec fn dec_chars(n: nat) -> Seq<char>
    decreases n,
{
    if n < 10 {
        seq![dec_digit_char(n)]
    } else {
        dec_chars(n / 10).push(dec_digit_char(n % 10))
    }
}

/// The decimal form of an integer: a minus sign before the digits of its
/// magnitude when negative.
pub open spec fn int_chars(i: int) -> Seq<char> {
    if i < 0 {
        seq!['-'] + dec_chars((-i) as nat)
    } else {
        dec_chars(i as nat)
    }
}

/// The canonical rendering of a term.
pub open spec fn spec_render(t: Element) -> Seq<char>
    decreases t,
{
    match t {
        Element::Number(n) => int_chars(n as int),
        Element::Add(l, r) => spec_render(*l) + " + "@ + spec_render(*r),
        Element::Multiply(l, r) => spec_render(*l) + " * "@ + spec_render(*r),
        Element::LessThan(l, r) => spec_render(*l) + " < "@ + spec_render(*r),
        Element::Boolean(b) => if b {
            "true"@
        } else {
            "false"@
        },
        Element::Variable(name) => name@,
        Element::Assign(name, value) => name@ + " = "@ + spec_render(*value),
        Element::Sequence(first, second) => spec_render(*first) + "; "@ + spec_render(*second),
        Element::IfElse(cond, cons, alt) => "if ("@ + spec_render(*cond) + ") [ "@ + spec_render(
            *cons,
        ) + " ] else [ "@ + spec_render(*alt) + " ]"@,
        Element::While(cond, body) => "while ("@ + spec_render(*cond) + ") [ "@ + spec_render(
            *body,
        ) + " ]"@,
        Element::DoNothing => "do-nothing"@,
    }
}

/// Append the character of one decimal digit.
fn push_digit(d: u64, out: &mut String)
    requires
        d < 10,
    ensures
        final(out)@ == old(out)@ + seq![dec_digit_char(d as nat)],
{
    match d {
        0 => {
            out.append("0");
            proof {
                reveal_strlit("0");
                assert("0"@ =~= seq![dec_digit_char(0)]);
            }
        },
        1 => {
            out.append("1");
            proof {
                reveal_strlit("1");
                assert("1"@ =~= seq![dec_digit_char(1)]);
            }
        },
        2 => {
            out.append("2");
            proof {
                reveal_strlit("2");
                assert("2"@ =~= seq![dec_digit_char(2)]);
            }
        },
        3 => {
            out.append("3");
            proof {
                reveal_strlit("3");
                assert("3"@ =~= seq![dec_digit_char(3)]);
            }
        },
        4 => {
            out.append("4");
            proof {
                reveal_strlit("4");
                assert("4"@ =~= seq![dec_digit_char(4)]);
            }
        },
        5 => {
            out.append("5");
            proof {
                reveal_strlit("5");
                assert("5"@ =~= seq![dec_digit_char(5)]);
            }
        },
        6 => {
            out.append("6");
            proof {
                reveal_strlit("6");
                assert("6"@ =~= seq![dec_digit_char(6)]);
            }
        },
        7 => {
            out.append("7");
            proof {
                reveal_strlit("7");
                assert("7"@ =~= seq![dec_digit_char(7)]);
            }
        },
        8 => {
            out.append("8");
            proof {
                reveal_strlit("8");
                assert("8"@ =~= seq![dec_digit_char(8)]);
            }
        },
        9 => {
            out.append("9");
            proof {
                reveal_strlit("9");
                assert("9"@ =~= seq![dec_digit_char(9)]);
            }
        },
        _ => {
            vstd::pervasive::unreached()
        },
    }
}

/// Append the decimal digits of a natural number.
fn push_dec(n: u64, out: &mut String)
    ensures
        final(out)@ == old(out)@ + dec_chars(n as nat),
    decreases n,
{
    if n >= 10 {
        push_dec(n / 10, out);
        push_digit(n % 10, out);
        proof {
            assert(old(out)@ + dec_chars((n / 10) as nat) + seq![
                dec_digit_char((n % 10) as nat),
            ] =~= old(out)@ + dec_chars(n as nat));
        }
    } else {
        push_digit(n, out);
    }
}

/// The decimal form of a number, sign included.
pub fn i64_to_string(n: i64) -> (s: String)
    ensures
        s@ == int_chars(n as int),
{
    let mut s = String::new();
    if n < 0 {
        s.append("-");
        let magnitude: u64 = ((-(n + 1)) as u64) + 1;
        proof {
            reveal_strlit("-");
            assert(magnitude as int == -(n as int));
            assert("-"@ =~= seq!['-']);
        }
        push_dec(magnitude, &mut s);
        proof {
            assert(Seq::<char>::empty() + seq!['-'] + dec_chars(magnitude as nat) =~= int_chars(
                n as int,
            ));
        }
    } else {
        push_dec(n as u64, &mut s);
        proof {
            assert(Seq::<char>::empty() + dec_chars(n as nat) =~= int_chars(n as int));
        }
    }
    s
}

impl Element {
    /// The canonical textual form of this term.
    pub fn to_s(&self) -> (s: String)
        ensures
            s@ == spec_render(*self),
        decreases *self,
    {
        match self {
            Element::Number(n) => i64_to_string(*n),
            Element::Add(l, r) => {
                let mut s = l.to_s();
                s.append(" + ");
                s.append(r.to_s().as_str());
                s
            },
            Element::Multiply(l, r) => {
                let mut s = l.to_s();
                s.append(" * ");
                s.append(r.to_s().as_str());
                s
            },
            Element::LessThan(l, r) => {
                let mut s = l.to_s();
                s.append(" < ");
                s.append(r.to_s().as_str());
                s
            },
            Element::Boolean(b) => {
                if *b {
                    "true".to_owned()
                } else {
                    "false".to_owned()
                }
            },
            Element::Variable(name) => name.clone(),
            Element::Assign(name, value) => {
                let mut s = name.clone();
                s.append(" = ");
                s.append(value.to_s().as_str());
                s
            },
            Element::Sequence(first, second) => {
                let mut s = first.to_s();
                s.append("; ");
                s.append(second.to_s().as_str());
                s
            },
            Element::IfElse(cond, cons, alt) => {
                let mut s = "if (".to_owned();
                s.append(cond.to_s().as_str());
                s.append(") [ ");
                s.append(cons.to_s().as_str());
                s.append(" ] else [ ");
                s.append(alt.to_s().as_str());
                s.append(" ]");
                s
            },
            Element::While(cond, body) => {
                let mut s = "while (".to_owned();
                s.append(cond.to_s().as_str());
                s.append(") [ ");
                s.append(body.to_s().as_str());
                s.append(" ]");
                s
            },
            Element::DoNothing => "do-nothing".to_owned(),
        }
    }
}

} // verus!
