//! The command registry: the descriptors declared so far, with the
//! invariant that no two of them claim a common name or alias.
//!
//! The invariant is what makes dispatch predictable: however many
//! pipeline instances inspect the same input, at most one of them can
//! report a match ([`lemma_at_most_one_match`]).

use vstd::prelude::*;

use crate::command::{lemma_claims_overlap_is_conflict, Descriptor, DescriptorView};
use crate::errors::ConsoleError;

verus! {

/// The ordered collection of registered command descriptors.
pub struct Registry {
    descs: Vec<Descriptor>,
}

impl View for Registry {
    type V = Seq<DescriptorView>;

    closed spec fn view(&self) -> Seq<DescriptorView> {
        Seq::new(self.descs@.len(), |i: int| self.descs@[i]@)
    }
}

/// Whether `d` conflicts with none of the descriptors of `s`.
pub open spec fn fresh_in(d: DescriptorView, s: Seq<DescriptorView>) -> bool {
    forall|i: int| 0 <= i < s.len() ==> !(#[trigger] s[i]).conflicts_with(d)
}

impl Registry {
    /// No two registered descriptors claim a common token.
    pub open spec fn wf(self) -> bool {
        forall|i: int, j: int|
            0 <= i < self@.len() && 0 <= j < self@.len() && i != j ==> !(
            #[trigger] self@[i].conflicts_with(#[trigger] self@[j]))
    }

    /// An empty registry.
    pub fn new() -> (r: Registry)
        ensures
            r@ == Seq::<DescriptorView>::empty(),
            r.wf(),
    {
        let r = Registry { descs: Vec::new() };
        proof {
            assert(r@ =~= Seq::<DescriptorView>::empty());
        }
        r
    }

    /// Appends `d`, unless its name or alias collides with an earlier
    /// registration: then nothing changes and the result is
    /// `DuplicateName`. Success if and only if `d` is fresh.
    pub fn register(&mut self, d: Descriptor) -> (r: Result<(), ConsoleError>)
        requires
            old(self).wf(),
        ensures
            final(self).wf(),
            r is Ok <==> fresh_in(d@, old(self)@),
            r is Ok ==> final(self)@ == old(self)@.push(d@),
            r is Err ==> final(self)@ == old(self)@ && r == Err::<(), ConsoleError>(
                ConsoleError::DuplicateName,
            ),
    {
        let n = self.descs.len();
        let mut i: usize = 0;
        while i < n
            invariant
                *self == *old(self),
                self.wf(),
                n == self.descs.len(),
                i <= n,
                self@.len() == self.descs@.len(),
                forall|k: int| 0 <= k < self@.len() ==> self@[k] == self.descs@[k]@,
                forall|k: int| 0 <= k < i ==> !(#[trigger] self@[k]).conflicts_with(d@),
            decreases n - i,
        {
            if conflicts(&self.descs[i], &d) {
                proof {
                    assert(self@[i as int].conflicts_with(d@));
                    assert(!fresh_in(d@, self@));
                }
                return Err(ConsoleError::DuplicateName);
            }
            i = i + 1;
        }
        let ghost pre = self@;
        self.descs.push(d);
        proof {
            assert(self@ =~= pre.push(d@));
            assert forall|a: int, b: int|
                0 <= a < self@.len() && 0 <= b < self@.len() && a != b implies !(
            #[trigger] self@[a].conflicts_with(#[trigger] self@[b])) by {
                if a == pre.len() {
                    assert(!self@[b].conflicts_with(d@));
                } else if b == pre.len() {
                    assert(!self@[a].conflicts_with(d@));
                }
            }
        }
        Ok(())
    }

    /// How many commands are registered.
    pub fn len(&self) -> (n: usize)
        ensures
            n == self@.len(),
    {
        self.descs.len()
    }
}

/// Decides whether two descriptors claim some common token.
fn conflicts(a: &Descriptor, b: &Descriptor) -> (r: bool)
    ensures
        r == a@.conflicts_with(b@),
{
    if a.name == b.name {
        return true;
    }
    if match &b.alias {
        Some(x) => a.name == *x,
        None => false,
    } {
        return true;
    }
    match &a.alias {
        Some(x) => {
            if *x == b.name {
                true
            } else {
                match &b.alias {
                    Some(y) => *x == *y,
                    None => false,
                }
            }
        },
        None => false,
    }
}

/// With a well-formed registry, any token is claimed by at most one
/// registered descriptor: at most one command can match a given input.
pub proof fn lemma_at_most_one_match(r: Registry, tok: Seq<char>, i: int, j: int)
    requires
        r.wf(),
        0 <= i < r@.len(),
        0 <= j < r@.len(),
        r@[i].claims(tok),
        r@[j].claims(tok),
    ensures
        i == j,
{
    if i != j {
        lemma_claims_overlap_is_conflict(r@[i], r@[j], tok);
    }
}

} // verus!
