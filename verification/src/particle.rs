//! The bookkeeping half of the particle engine: which force generator acts
//! on which particle.
//!
//! Particles live in an arena owned by the host, and a registration pairs a
//! particle's index with a force generator's index. The registry keeps the
//! pairings in insertion order, which is the order forces are applied in.

use vstd::prelude::*;

verus! {

/// A pairing of one particle with one force generator, both named by their
/// index in arenas the host owns.
#[derive(Clone, Copy, Debug, PartialEq, Eq, Structural)]
pub struct ParticleRegistration {
    pub particle: usize,
    pub force_generator: usize,
}

/// The force generator that pulls particles down with constant gravity.
/// The arithmetic itself is the host's: this is the tag a registration's
/// generator index refers to.
#[derive(Clone, Copy, Debug)]
pub struct ParticleGravityForceGenerator;

/// An ordered collection of (particle, force generator) pairings.
pub struct ParticleRegistry {
    pub registrations: Vec<ParticleRegistration>,
}

/// `s` with its first occurrence of `r` taken out, and `s` itself when `r`
/// does not occur.
pub open spec fn remove_first(s: Seq<ParticleRegistration>, r: ParticleRegistration) -> Seq<
    ParticleRegistration,
>
    decreases s.len(),
{
    if s.len() == 0 {
        s
    } else if s[0] == r {
        s.drop_first()
    } else {
        seq![s[0]] + remove_first(s.drop_first(), r)
    }
}

impl ParticleRegistry {
    /// An empty registry.
    pub fn new() -> (r: Self)
        ensures
            r.registrations@ == Seq::<ParticleRegistration>::empty(),
    {
        ParticleRegistry { registrations: Vec::new() }
    }

    /// Appends a pairing; it will be applied after every pairing already held.
    pub fn add_registration(&mut self, registration: ParticleRegistration)
        ensures
            final(self).registrations@ == old(self).registrations@.push(registration),
    {
        self.registrations.push(registration);
    }

    /// Takes out the first pairing equal to `registration`; a registry that
    /// does not hold it is left as it was.
    pub fn remove_registration(&mut self, registration: ParticleRegistration)
        ensures
            final(self).registrations@ == remove_first(old(self).registrations@, registration),
    {
        let n: usize = self.registrations.len();
        let mut idx: usize = 0;
        while idx < n
            invariant
                n == self.registrations@.len(),
                idx <= n,
                self == old(self),
                forall|j: int| 0 <= j < idx ==> self.registrations@[j] != registration,
            decreases n - idx,
        {
            if self.registrations[idx] == registration {
                self.registrations.remove(idx);
                proof {
                    lemma_remove_first_at(old(self).registrations@, registration, idx as int);
                }
                return ;
            }
            idx += 1;
        }
        proof {
            lemma_remove_first_absent(self.registrations@, registration);
        }
    }

    /// Drops every pairing; no particle or generator is touched.
    pub fn clear_registry(&mut self)
        ensures
            final(self).registrations@ == Seq::<ParticleRegistration>::empty(),
    {
        self.registrations.clear()
    }
}

/// Taking out a pairing that a sequence holds nowhere leaves the sequence as
/// it was: removal of an absent registration changes neither the registry's
/// size nor its contents, and raises no failure.
pub proof fn lemma_remove_first_absent(s: Seq<ParticleRegistration>, r: ParticleRegistration)
    requires
        forall|j: int| 0 <= j < s.len() ==> s[j] != r,
    ensures
        remove_first(s, r) == s,
    decreases s.len(),
{
    if s.len() == 0 {
    } else {
        assert(s[0] != r);
        lemma_remove_first_absent(s.drop_first(), r);
        assert(seq![s[0]] + s.drop_first() =~= s);
    }
}

/// When the first occurrence of `r` in `s` stands at `i`, taking out the
/// first occurrence is taking out the element at `i`.
proof fn lemma_remove_first_at(s: Seq<ParticleRegistration>, r: ParticleRegistration, i: int)
    requires
        0 <= i < s.len(),
        s[i] == r,
        forall|j: int| 0 <= j < i ==> s[j] != r,
    ensures
        remove_first(s, r) == s.remove(i),
    decreases i,
{
    if i == 0 {
        assert(remove_first(s, r) == s.drop_first());
        assert(s.drop_first() =~= s.remove(0));
    } else {
        assert(s[0] != r);
        lemma_remove_first_at(s.drop_first(), r, i - 1);
        assert(s.drop_first()[i - 1] == s[i]);
        assert(seq![s[0]] + s.drop_first().remove(i - 1) =~= s.remove(i));
    }
}

} // verus!

