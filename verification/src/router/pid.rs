//! The discrete core of the route weight controller.
//!
//! The controller turns a routing error into a weight. Its gains, its
//! integral and its output are real-valued and live with the caller. What is
//! decided here is whether an update is admitted at all, and which jitter step
//! perturbs the damping of an admitted one. The steps come from a generator
//! that is seeded once, so a seed fixes the whole sequence.

use vstd::prelude::*;
use rand_chacha::ChaCha8Rng;
use crate::error::AeonError;
use crate::router::rng::{rng_from_seed, rng_next_u32, seeded_word, upcoming_word};

verus! {

/// The number of jitter steps. Step `s` stands for a jitter of `s` hundredths
/// less one tenth.
pub const JITTER_STEPS: u32 = 20;

/// The jitter step of admitted update number `n`, counting from zero, of a
/// controller made with `seed`.
pub open spec fn jitter_step(seed: u64, n: nat) -> u32 {
    seeded_word(seed, n) % JITTER_STEPS
}

/// What an update returns: a rejection when the time step is not positive,
/// else the jitter step that is due.
pub open spec fn update_outcome(seed: u64, admitted: nat, dt_positive: bool) -> Result<
    u32,
    AeonError,
> {
    if dt_positive {
        Ok(jitter_step(seed, admitted))
    } else {
        Err(AeonError::InvalidInput)
    }
}

/// How many updates have been admitted after one more call.
pub open spec fn admitted_after(admitted: nat, dt_positive: bool) -> nat {
    if dt_positive {
        admitted + 1
    } else {
        admitted
    }
}

/// The outcomes of a run of updates, given for each whether its time step was
/// positive, on a controller that has admitted `admitted` updates so far.
pub open spec fn run_outcomes(seed: u64, admitted: nat, calls: Seq<bool>) -> Seq<
    Result<u32, AeonError>,
>
    decreases calls.len(),
{
    if calls.len() == 0 {
        Seq::empty()
    } else {
        seq![update_outcome(seed, admitted, calls.first())] + run_outcomes(
            seed,
            admitted_after(admitted, calls.first()),
            calls.drop_first(),
        )
    }
}

/// The controller of one route: its jitter generator, with the seed it was
/// made with and the count of updates it has admitted.
pub struct RouteWeightController {
    rng: ChaCha8Rng,
    seed: Ghost<u64>,
    admitted: Ghost<nat>,
}

impl RouteWeightController {
    /// The seed that the controller was made with.
    pub closed spec fn seed(&self) -> u64 {
        self.seed@
    }

    /// How many updates the controller has admitted.
    pub closed spec fn admitted(&self) -> nat {
        self.admitted@
    }

    /// The generator stands where the seed and the count of admitted updates
    /// say.
    pub closed spec fn wf(&self) -> bool {
        forall|k: nat| #[trigger]
            upcoming_word(self.rng, k) == seeded_word(self.seed@, self.admitted@ + k)
    }

    /// A controller whose jitter is fixed by `seed`.
    pub fn new(seed: u64) -> (controller: Self)
        ensures
            controller.wf(),
            controller.seed() == seed,
            controller.admitted() == 0,
    {
        RouteWeightController { rng: rng_from_seed(seed), seed: Ghost(seed), admitted: Ghost(0) }
    }

    /// One update. `dt_positive` says that the time step is strictly positive.
    ///
    /// An update whose time step is not positive is refused as `InvalidInput`
    /// and leaves the controller as it was. An admitted update draws the next
    /// jitter step, which is below twenty.
    pub fn update(&mut self, dt_positive: bool) -> (result: Result<u32, AeonError>)
        requires
            old(self).wf(),
        ensures
            final(self).wf(),
            final(self).seed() == old(self).seed(),
            final(self).admitted() == admitted_after(old(self).admitted(), dt_positive),
            result == update_outcome(old(self).seed(), old(self).admitted(), dt_positive),
            !dt_positive ==> *final(self) == *old(self),
            result matches Ok(step) ==> step < JITTER_STEPS,
    {
        if !dt_positive {
            return Err(AeonError::InvalidInput);
        }
        let word = rng_next_u32(&mut self.rng);
        proof {
            assert forall|k: nat| #[trigger]
                upcoming_word(self.rng, k) == seeded_word(
                    self.seed@,
                    (self.admitted@ + 1) as nat + k,
                ) by {
                assert(upcoming_word(self.rng, k) == upcoming_word(old(self).rng, k + 1));
            }
            self.admitted = Ghost((self.admitted@ + 1) as nat);
        }
        Ok(word % JITTER_STEPS)
    }
}

/// Jitter is deterministic: two controllers made with the same seed that have
/// admitted equally many updates answer the same run of calls with the same
/// outcomes.
pub proof fn lemma_same_seed_same_outcomes(
    a: RouteWeightController,
    b: RouteWeightController,
    calls: Seq<bool>,
)
    requires
        a.seed() == b.seed(),
        a.admitted() == b.admitted(),
    ensures
        run_outcomes(a.seed(), a.admitted(), calls) == run_outcomes(
            b.seed(),
            b.admitted(),
            calls,
        ),
{
}

} // verus!
