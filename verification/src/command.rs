//! Command metadata and the matching/parsing contract.
//!
//! Each command type declares a [`Descriptor`] — a canonical name and an
//! optional alias — and an argument schema through [`ConsoleCommand`].
//! [`match_and_parse`] is the one step of the pipeline that turns a token
//! sequence into a typed command value: a first token naming neither the
//! name nor the alias is a `NoMatch` (so another command may claim the
//! input), while a name hit with bad arguments is a terminal
//! `ParseFailure`.

use vstd::prelude::*;

use crate::errors::ConsoleError;

verus! {

/// The static metadata of one registered command: its unique canonical
/// name and an optional alias.
pub struct Descriptor {
    pub name: String,
    pub alias: Option<String>,
}

/// The mathematical shape of a [`Descriptor`]: name and alias as
/// character sequences.
pub struct DescriptorView {
    pub name: Seq<char>,
    pub alias: Option<Seq<char>>,
}

impl View for Descriptor {
    type V = DescriptorView;

    open spec fn view(&self) -> DescriptorView {
        DescriptorView {
            name: self.name@,
            alias: match self.alias {
                Some(a) => Some(a@),
                None => None,
            },
        }
    }
}

impl DescriptorView {
    /// Whether this descriptor claims `tok`: `tok` is exactly its name,
    /// or exactly its alias. Case-sensitive, no prefix matching.
    pub open spec fn claims(self, tok: Seq<char>) -> bool {
        tok == self.name || (self.alias matches Some(a) && tok == a)
    }

    /// Whether this descriptor and `other` claim some common token.
    pub open spec fn conflicts_with(self, other: DescriptorView) -> bool {
        ||| self.name == other.name
        ||| (other.alias matches Some(a) && self.name == a)
        ||| (self.alias matches Some(a) && a == other.name)
        ||| (self.alias matches Some(a) && other.alias matches Some(b) && a == b)
    }
}

/// Two descriptors claiming one common token conflict.
pub proof fn lemma_claims_overlap_is_conflict(d1: DescriptorView, d2: DescriptorView, tok: Seq<char>)
    requires
        d1.claims(tok),
        d2.claims(tok),
    ensures
        d1.conflicts_with(d2),
{
}

/// A typed console command: a declared descriptor and an argument schema
/// that turns a token sequence into a value of the command type.
pub trait ConsoleCommand: Sized {
    /// The name/alias metadata this command type declares.
    spec fn spec_descriptor() -> DescriptorView;

    /// What parsing a token sequence into this command means: the parsed
    /// value, or the message describing the schema violation. The first
    /// token is the matched name or alias itself (argv[0]).
    spec fn spec_parse(tokens: Seq<Seq<char>>) -> Result<Self, Seq<char>>;

    /// Parsing never depends on which of the name or the alias stood as
    /// the first token: only the arguments after it matter.
    proof fn lemma_parse_ignores_argv0(t1: Seq<Seq<char>>, t2: Seq<Seq<char>>)
        requires
            t1.len() >= 1,
            t2.len() >= 1,
            t1.drop_first() == t2.drop_first(),
        ensures
            Self::spec_parse(t1) == Self::spec_parse(t2),
    ;

    /// The declared descriptor.
    fn descriptor() -> (d: Descriptor)
        ensures
            d@ == Self::spec_descriptor(),
    ;

    /// Parses `tokens` (the matched first token included) into a command
    /// value per this command's argument schema.
    fn parse(tokens: &Vec<String>) -> (r: Result<Self, String>)
        requires
            tokens@.len() >= 1,
        ensures
            match Self::spec_parse(tokens.deep_view()) {
                Ok(v) => r matches Ok(w) && w == v,
                Err(m) => r matches Err(msg) && msg@ == m,
            },
    ;
}

/// Whether the first token of `toks` names the command `T`.
pub open spec fn matches_first<T: ConsoleCommand>(toks: Seq<Seq<char>>) -> bool {
    toks.len() > 0 && T::spec_descriptor().claims(toks[0])
}

/// Matches the token sequence against `T`'s name and alias and, on a
/// hit, parses it into a `T` value.
///
/// A miss — an empty sequence, or a first token that is neither the name
/// nor the alias — is `NoMatch`, so the caller may try further command
/// types; a hit with tokens violating `T`'s schema is a terminal
/// `ParseFailure` carrying the schema's message.
pub fn match_and_parse<T: ConsoleCommand>(tokens: &Vec<String>) -> (r: Result<T, ConsoleError>)
    ensures
        !matches_first::<T>(tokens.deep_view()) ==> r == Err::<T, ConsoleError>(
            ConsoleError::NoMatch,
        ),
        matches_first::<T>(tokens.deep_view()) ==> match T::spec_parse(tokens.deep_view()) {
            Ok(v) => r matches Ok(w) && w == v,
            Err(m) => r matches Err(e) && e matches ConsoleError::ParseFailure(msg) && msg@ == m,
        },
{
    if tokens.len() == 0 {
        return Err(ConsoleError::NoMatch);
    }
    let d = T::descriptor();
    let hit = if tokens[0] == d.name {
        true
    } else {
        match &d.alias {
            Some(a) => tokens[0] == *a,
            None => false,
        }
    };
    proof {
        assert(tokens.deep_view()[0] == tokens@[0]@);
        assert(hit == T::spec_descriptor().claims(tokens.deep_view()[0]));
    }
    if !hit {
        return Err(ConsoleError::NoMatch);
    }
    match T::parse(tokens) {
        Ok(v) => Ok(v),
        Err(m) => Err(ConsoleError::ParseFailure(m)),
    }
}

/// A command reached through its name and through its alias parses
/// identically: with the arguments after the first token equal, the two
/// token sequences match the command and yield the same result.
pub proof fn lemma_name_and_alias_parse_identically<T: ConsoleCommand>(
    t1: Seq<Seq<char>>,
    t2: Seq<Seq<char>>,
)
    requires
        t1.len() >= 1,
        t2.len() >= 1,
        t1.drop_first() == t2.drop_first(),
        T::spec_descriptor().claims(t1[0]),
        T::spec_descriptor().claims(t2[0]),
    ensures
        matches_first::<T>(t1),
        matches_first::<T>(t2),
        T::spec_parse(t1) == T::spec_parse(t2),
{
    T::lemma_parse_ignores_argv0(t1, t2);
}

} // verus!
