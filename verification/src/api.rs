use vstd::prelude::*;

use crate::machine::{activates_next, ChairliftMachine};

verus! {

/// A change that the control interface can ask of the chairlift.
#[derive(Debug, Clone, Copy, PartialEq, Eq, Structural)]
pub enum Mutation {
    /// Manually mark the next waiting chair as having left the station and
    /// attach it to the rope at the current rope position. Stands in for a real
    /// departure sensor, which this installation doesn't have (yet).
    Departure,
}

impl ChairliftMachine {
    /// Carries out `mutation` on the machine.
    pub fn apply_mutation(&mut self, mutation: Mutation)
        ensures
            match mutation {
                Mutation::Departure => exists|id: Option<u16>|
                    activates_next(old(self).chairs@, old(self).rope_position, final(self).chairs@, id),
            },
            final(self).rope_position == old(self).rope_position,
            final(self).config == old(self).config,
            final(self).last_encoder_input == old(self).last_encoder_input,
            old(self).chairs_on_rope() ==> final(self).chairs_on_rope(),
    {
        match mutation {
            Mutation::Departure => {
                self.departure();
            },
        }
    }
}

} // verus!
