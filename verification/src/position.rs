use vstd::prelude::*;

use crate::config::ChairliftConfig;

verus! {

/// Where the rope stands, counted in encoder pulses from the valley station,
/// together with the length of the loop the count wraps around.
#[derive(Debug, Clone, Copy)]
pub struct RopePosition {
    pulses: u64,
    rope_length_pulses: u64,
}

impl RopePosition {
    pub closed spec fn spec_pulses(&self) -> u64 {
        self.pulses
    }

    pub closed spec fn spec_rope_length_pulses(&self) -> u64 {
        self.rope_length_pulses
    }

    /// A position always lies on the rope: below the loop length, or at 0 on
    /// a rope of length 0.
    #[verifier::type_invariant]
    pub open spec fn on_rope(&self) -> bool {
        if self.spec_rope_length_pulses() == 0 {
            self.spec_pulses() == 0
        } else {
            self.spec_pulses() < self.spec_rope_length_pulses()
        }
    }

    pub fn new(config: &ChairliftConfig) -> (position: Self)
        requires
            config.total_fits(),
        ensures
            position.pulses() == 0,
            position.rope_length_pulses() == config.spec_total(),
    {
        Self { pulses: 0, rope_length_pulses: config.total_rope_pulses() }
    }

    #[verifier::when_used_as_spec(spec_pulses)]
    pub fn pulses(&self) -> (pulses: u64)
        ensures
            pulses == self.spec_pulses(),
    {
        self.pulses
    }

    #[verifier::when_used_as_spec(spec_rope_length_pulses)]
    pub fn rope_length_pulses(&self) -> (length: u64)
        ensures
            length == self.spec_rope_length_pulses(),
    {
        self.rope_length_pulses
    }

    /// Moves the rope forward by `pulses`, wrapping around the loop.
    pub fn add_pulses(&mut self, pulses: u64)
        requires
            old(self).rope_length_pulses() > 0,
            old(self).pulses() + pulses <= u64::MAX,
        ensures
            final(self).rope_length_pulses() == old(self).rope_length_pulses(),
            final(self).pulses() == (old(self).pulses() + pulses) % (old(self).rope_length_pulses() as int),
    {
        self.pulses = (self.pulses + pulses) % self.rope_length_pulses;
    }

    /// Places the rope at `pulses`, taken around the loop.
    pub fn set_pulses(&mut self, pulses: u64)
        requires
            old(self).rope_length_pulses() > 0,
        ensures
            final(self).rope_length_pulses() == old(self).rope_length_pulses(),
            final(self).pulses() == pulses % old(self).rope_length_pulses(),
    {
        self.pulses = pulses % self.rope_length_pulses;
    }

    /// Moves the rope forward by a single encoder pulse.
    pub fn add_one_pulse(&mut self)
        requires
            old(self).rope_length_pulses() > 0,
        ensures
            final(self).rope_length_pulses() == old(self).rope_length_pulses(),
            final(self).pulses() == (old(self).pulses() + 1) % (old(self).rope_length_pulses() as int),
    {
        proof {
            use_type_invariant(&*self);
        }
        self.add_pulses(1);
    }
}

/// Moving the rope by `first` pulses and then by `second` pulses leaves it
/// where a single move by `first + second` pulses would.
pub proof fn lemma_moves_compose(start: RopePosition, first: nat, second: nat)
    requires
        start.rope_length_pulses() > 0,
    ensures
        ((start.pulses() + first) % (start.rope_length_pulses() as int) + second) % (
        start.rope_length_pulses() as int) == (start.pulses() + first + second) % (
        start.rope_length_pulses() as int),
{
    vstd::arithmetic::div_mod::lemma_add_mod_noop_right(
        second as int,
        start.pulses() + first,
        start.rope_length_pulses() as int,
    );
}

} // verus!
