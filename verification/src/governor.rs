use vstd::prelude::*;

verus! {

/// What a governor is, as a mathematical value: the bound it was made with
/// and the number of `start` calls it has seen.
pub struct GovernorView {
    pub max: nat,
    pub calls: nat,
}

impl GovernorView {
    /// The state after one more call.
    pub open spec fn next(self) -> GovernorView {
        GovernorView { max: self.max, calls: self.calls + 1 }
    }

    /// Whether the next call is one that samples.
    pub open spec fn allows(self) -> bool {
        self.calls < self.max
    }

    /// The state after `n` more calls.
    pub open spec fn after(self, n: nat) -> GovernorView {
        GovernorView { max: self.max, calls: self.calls + n }
    }

    /// How many of the calls made so far were sampling ones.
    pub open spec fn sampled(self) -> nat {
        if self.calls <= self.max {
            self.calls
        } else {
            self.max
        }
    }
}

/// The bound that applies where none is configured.
pub const DEFAULT_MAX_ITERATIONS: usize = 2;

/// The bound for a configured number of iterations: one more than the
/// number, and at most what the machine can count. Without a configured
/// number it is the default.
pub open spec fn spec_max_iterations(configured: Option<usize>) -> nat {
    match configured {
        Some(iterations) => if iterations < usize::MAX {
            iterations as nat + 1
        } else {
            usize::MAX as nat
        },
        None => DEFAULT_MAX_ITERATIONS as nat,
    }
}

/// The bound for a configured number of iterations.
pub fn max_iterations_for(configured: Option<usize>) -> (max: usize)
    ensures
        max as nat == spec_max_iterations(configured),
{
    match configured {
        Some(iterations) => if iterations < usize::MAX {
            iterations + 1
        } else {
            usize::MAX
        },
        None => DEFAULT_MAX_ITERATIONS,
    }
}

/// Counts the calls that ask for a sample and lets the first `max` of them
/// through. Later calls are turned away without any other effect.
pub struct IterationGovernor {
    max_iterations: usize,
    sampled: usize,
    calls: Ghost<nat>,
}

impl View for IterationGovernor {
    type V = GovernorView;

    closed spec fn view(&self) -> GovernorView {
        GovernorView { max: self.max_iterations as nat, calls: self.calls@ }
    }
}

impl IterationGovernor {
    #[verifier::type_invariant]
    spec fn inv(self) -> bool {
        self.sampled as nat == self@.sampled()
    }

    /// A governor that has seen no call yet.
    pub fn new(max_iterations: usize) -> (governor: IterationGovernor)
        ensures
            governor@ == (GovernorView { max: max_iterations as nat, calls: 0 }),
    {
        IterationGovernor { max_iterations, sampled: 0, calls: Ghost(0) }
    }

    /// The bound this governor was made with.
    pub fn max_iterations(&self) -> (max: usize)
        ensures
            max as nat == self@.max,
    {
        self.max_iterations
    }

    /// The number of sampling calls let through so far.
    pub fn sampled(&self) -> (count: usize)
        ensures
            count as nat == self@.sampled(),
    {
        proof {
            use_type_invariant(self);
        }
        self.sampled
    }

    /// Counts one call. Returns `true` if this call is one of the first
    /// `max` and therefore samples, `false` if the bound was already used up.
    pub fn next_iteration(&mut self) -> (sample: bool)
        ensures
            sample == old(self)@.allows(),
            final(self)@ == old(self)@.next(),
    {
        proof {
            use_type_invariant(&*self);
        }
        let sample = self.sampled < self.max_iterations;
        let sampled: usize = if sample { self.sampled + 1 } else { self.sampled };
        *self = IterationGovernor {
            max_iterations: self.max_iterations,
            sampled,
            calls: Ghost(self.calls@ + 1),
        };
        sample
    }
}

/// Of any run of calls on a governor, the sampling ones are exactly the
/// first `max`: after `n` calls on a fresh governor `min(n, max)` calls have
/// sampled, the call with number `max` (counting from one) still samples,
/// and every later call is turned away.
pub proof fn lemma_exactly_max_calls_sample(max: nat, n: nat)
    ensures
        ({
            let fresh = GovernorView { max, calls: 0 };
            &&& fresh.after(n).sampled() == if n <= max { n } else { max }
            &&& fresh.after(n).allows() <==> n < max
            &&& fresh.after(n + 1) == fresh.after(n).next()
            &&& fresh.after(0) == fresh
        }),
{
}

} // verus!
