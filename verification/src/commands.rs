//! Ready-made commands with a one-argument schema.
//!
//! [`Give`] and [`Heal`] each take one required positional argument,
//! `amount`, a decimal `u32`. They exercise the whole pipeline and serve
//! as a template for declaring further command types.

use vstd::prelude::*;

use crate::command::{ConsoleCommand, Descriptor, DescriptorView};
use crate::numeric::{parse_u32, spec_parse_u32};

verus! {

/// What parsing a one-argument `amount` schema means: exactly one
/// argument after the command token, a decimal `u32`.
pub open spec fn spec_parse_amount(tokens: Seq<Seq<char>>) -> Result<u32, Seq<char>> {
    if tokens.len() < 2 {
        Err("missing required argument: amount"@)
    } else if tokens.len() > 2 {
        Err("unexpected extra argument"@)
    } else {
        match spec_parse_u32(tokens[1]) {
            Some(v) => Ok(v),
            None => Err("invalid value for argument: amount"@),
        }
    }
}

/// Parses the one-argument `amount` schema, exactly as
/// [`spec_parse_amount`] describes.
pub fn parse_amount(tokens: &Vec<String>) -> (r: Result<u32, String>)
    ensures
        match spec_parse_amount(tokens.deep_view()) {
            Ok(v) => r matches Ok(w) && w == v,
            Err(m) => r matches Err(msg) && msg@ == m,
        },
{
    if tokens.len() < 2 {
        Err(String::from_str("missing required argument: amount"))
    } else if tokens.len() > 2 {
        Err(String::from_str("unexpected extra argument"))
    } else {
        proof {
            assert(tokens.deep_view()[1] == tokens@[1]@);
        }
        match parse_u32(tokens[1].as_str()) {
            Some(v) => Ok(v),
            None => Err(String::from_str("invalid value for argument: amount")),
        }
    }
}

/// The `amount` schema reads nothing but the count of tokens and the
/// token after the command token.
proof fn lemma_amount_ignores_argv0(t1: Seq<Seq<char>>, t2: Seq<Seq<char>>)
    requires
        t1.len() >= 1,
        t2.len() >= 1,
        t1.drop_first() == t2.drop_first(),
    ensures
        spec_parse_amount(t1) == spec_parse_amount(t2),
{
    assert(t1.drop_first().len() == t1.len() - 1);
    assert(t2.drop_first().len() == t2.len() - 1);
    if t1.len() == 2 {
        assert(t1[1] == t1.drop_first()[0]);
        assert(t2[1] == t2.drop_first()[0]);
    }
}

/// Gives the operator an amount of something: `give <amount>`, also
/// reachable as `g <amount>`.
#[derive(Debug, Clone, Copy, PartialEq, Eq, Structural)]
pub struct Give {
    pub amount: u32,
}

impl ConsoleCommand for Give {
    open spec fn spec_descriptor() -> DescriptorView {
        DescriptorView { name: "give"@, alias: Some("g"@) }
    }

    open spec fn spec_parse(tokens: Seq<Seq<char>>) -> Result<Give, Seq<char>> {
        match spec_parse_amount(tokens) {
            Ok(v) => Ok(Give { amount: v }),
            Err(m) => Err(m),
        }
    }

    proof fn lemma_parse_ignores_argv0(t1: Seq<Seq<char>>, t2: Seq<Seq<char>>) {
        lemma_amount_ignores_argv0(t1, t2);
    }

    fn descriptor() -> (d: Descriptor) {
        Descriptor { name: String::from_str("give"), alias: Some(String::from_str("g")) }
    }

    fn parse(tokens: &Vec<String>) -> (r: Result<Give, String>) {
        match parse_amount(tokens) {
            Ok(v) => Ok(Give { amount: v }),
            Err(m) => Err(m),
        }
    }
}

/// Restores an amount of health: `heal <amount>`, no alias.
#[derive(Debug, Clone, Copy, PartialEq, Eq, Structural)]
pub struct Heal {
    pub amount: u32,
}

impl ConsoleCommand for Heal {
    open spec fn spec_descriptor() -> DescriptorView {
        DescriptorView { name: "heal"@, alias: None }
    }

    open spec fn spec_parse(tokens: Seq<Seq<char>>) -> Result<Heal, Seq<char>> {
        match spec_parse_amount(tokens) {
            Ok(v) => Ok(Heal { amount: v }),
            Err(m) => Err(m),
        }
    }

    proof fn lemma_parse_ignores_argv0(t1: Seq<Seq<char>>, t2: Seq<Seq<char>>) {
        lemma_amount_ignores_argv0(t1, t2);
    }

    fn descriptor() -> (d: Descriptor) {
        Descriptor { name: String::from_str("heal"), alias: None }
    }

    fn parse(tokens: &Vec<String>) -> (r: Result<Heal, String>) {
        match parse_amount(tokens) {
            Ok(v) => Ok(Heal { amount: v }),
            Err(m) => Err(m),
        }
    }
}

} // verus!
