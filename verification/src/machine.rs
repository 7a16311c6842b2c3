use vstd::prelude::*;

use crate::chair::{Chair, ChairState};
use crate::config::ChairliftConfig;
use crate::position::RopePosition;

verus! {

/// Number of chairs hanging in the installation.
pub const CHAIR_COUNT: u16 = 113;

/// `chair` once attached to the rope at `position`.
pub open spec fn activated(chair: Chair, position: RopePosition) -> Chair {
    Chair { start_position: position, state: ChairState::OnRope, ..chair }
}

/// `i` is the first chair in line that is still waiting in the station.
pub open spec fn is_first_inactive(chairs: Seq<Chair>, i: int) -> bool {
    &&& 0 <= i < chairs.len()
    &&& !chairs[i].spec_is_active()
    &&& forall|j: int| 0 <= j < i ==> #[trigger] chairs[j].spec_is_active()
}

/// Every chair is out on the rope.
pub open spec fn all_active(chairs: Seq<Chair>) -> bool {
    forall|j: int| 0 <= j < chairs.len() ==> #[trigger] chairs[j].spec_is_active()
}

/// `i` is the first chair that carries `id`.
pub open spec fn is_first_with_id(chairs: Seq<Chair>, id: u16, i: int) -> bool {
    &&& 0 <= i < chairs.len()
    &&& chairs[i].id == id
    &&& forall|j: int| 0 <= j < i ==> #[trigger] chairs[j].id != id
}

/// No chair carries `id`.
pub open spec fn no_chair_with_id(chairs: Seq<Chair>, id: u16) -> bool {
    forall|j: int| 0 <= j < chairs.len() ==> #[trigger] chairs[j].id != id
}

/// What `activate_next_chair` does to `before`: `after` and `result` are
/// its outcome.
pub open spec fn activates_next(
    before: Seq<Chair>,
    position: RopePosition,
    after: Seq<Chair>,
    result: Option<u16>,
) -> bool {
    match result {
        Some(id) => exists|i: int|
            #[trigger] is_first_inactive(before, i) && id == before[i].id && after == before.update(
                i,
                activated(before[i], position),
            ),
        None => all_active(before) && after == before,
    }
}

/// Attaches the first waiting chair in line to the rope at `position` and
/// returns its id; `None`, with nothing changed, when every chair is out.
pub fn activate_next_chair(chairs: &mut [Chair], position: RopePosition) -> (id: Option<u16>)
    ensures
        activates_next(old(chairs)@, position, final(chairs)@, id),
        final(chairs)@.len() == old(chairs)@.len(),
        id is Some ==> exists|i: int|
            0 <= i < old(chairs)@.len() && old(chairs)@[i].state == ChairState::NotActive && (forall|
                j: int,
            |
                0 <= j < i ==> #[trigger] old(chairs)@[j].state != ChairState::NotActive) && id
                == Some(old(chairs)@[i].id) && #[trigger] final(chairs)@[i].state == ChairState::OnRope
                && final(chairs)@[i].start_position == position && final(chairs)@[i].id == old(
                chairs,
            )@[i].id && (forall|j: int|
                0 <= j < old(chairs)@.len() && j != i ==> #[trigger] final(chairs)@[j] == old(
                    chairs,
                )@[j]),
        id is None ==> final(chairs)@ == old(chairs)@ && forall|j: int|
            0 <= j < old(chairs)@.len() ==> #[trigger] old(chairs)@[j].state != ChairState::NotActive,
{
    let ghost before = chairs@;
    let mut i: usize = 0;
    while i < chairs.len()
        invariant
            i <= chairs@.len(),
            chairs@ == before,
            before == old(chairs)@,
            forall|j: int| 0 <= j < i ==> #[trigger] chairs@[j].spec_is_active(),
        decreases chairs@.len() - i,
    {
        if !chairs[i].is_active() {
            let id = chairs[i].id;
            let mut chair = chairs[i];
            chair.activate(position);
            chairs[i] = chair;
            proof {
                assert(is_first_inactive(before, i as int));
                assert forall|j: int| 0 <= j < i implies #[trigger] before[j].state
                    != ChairState::NotActive by {
                    assert(before[j].spec_is_active());
                }
                assert forall|j: int| 0 <= j < before.len() && j != i implies #[trigger] chairs@[j]
                    == before[j] by {}
                assert(chairs@[i as int].state == ChairState::OnRope);
            }
            return Some(id);
        }
        i += 1;
    }
    assert forall|j: int| 0 <= j < before.len() implies #[trigger] before[j].state
        != ChairState::NotActive by {
        assert(chairs@[j].spec_is_active());
    }
    None
}

/// The chairs of a new installation: ids 1 to 113 in line order, all waiting
/// in the station, all on a rope of the configured length.
pub fn create_chairs(config: &ChairliftConfig) -> (chairs: Vec<Chair>)
    requires
        config.total_fits(),
    ensures
        chairs@.len() == CHAIR_COUNT,
        forall|i: int|
            #![trigger chairs@[i]]
            0 <= i < chairs@.len() ==> {
                &&& chairs@[i].id == i + 1
                &&& chairs@[i].state == ChairState::NotActive
                &&& chairs@[i].start_position.pulses() == 0
                &&& chairs@[i].start_position.rope_length_pulses() == config.spec_total()
            },
{
    let mut chairs: Vec<Chair> = Vec::new();
    let mut id: u16 = 1;
    while id <= CHAIR_COUNT
        invariant
            1 <= id <= CHAIR_COUNT + 1,
            chairs@.len() == id - 1,
            config.total_fits(),
            forall|i: int|
                #![trigger chairs@[i]]
                0 <= i < chairs@.len() ==> {
                    &&& chairs@[i].id == i + 1
                    &&& chairs@[i].state == ChairState::NotActive
                    &&& chairs@[i].start_position.pulses() == 0
                    &&& chairs@[i].start_position.rope_length_pulses() == config.spec_total()
                },
        decreases CHAIR_COUNT + 1 - id,
    {
        chairs.push(Chair::new(id, RopePosition::new(config)));
        id += 1;
    }
    chairs
}

/// `sample` is a rising edge of the encoder input after `previous`.
pub open spec fn is_rising_edge(previous: bool, sample: bool) -> bool {
    sample && !previous
}

/// What `poll_encoder` does with one sample: the sample is remembered, the
/// rope moves on by one pulse on a rising edge and stays put otherwise, and
/// nothing else changes.
pub open spec fn polled(before: ChairliftMachine, sample: bool, after: ChairliftMachine) -> bool {
    &&& after.last_encoder_input == sample
    &&& after.rope_position.rope_length_pulses() == before.rope_position.rope_length_pulses()
    &&& after.rope_position.pulses() == if is_rising_edge(before.last_encoder_input, sample) {
        (before.rope_position.pulses() + 1) % (before.rope_position.rope_length_pulses() as int)
    } else {
        before.rope_position.pulses() as int
    }
    &&& after.chairs@ == before.chairs@
    &&& after.config == before.config
}

/// The last sample of `samples`, or `previous` when there is none.
pub open spec fn last_sample(previous: bool, samples: Seq<bool>) -> bool {
    if samples.len() == 0 {
        previous
    } else {
        samples.last()
    }
}

/// How many rising edges `samples` holds, the input having been `previous`
/// before the first of them.
pub open spec fn rising_edges(previous: bool, samples: Seq<bool>) -> nat
    decreases samples.len(),
{
    if samples.len() == 0 {
        0
    } else {
        rising_edges(previous, samples.drop_last()) + if is_rising_edge(
            last_sample(previous, samples.drop_last()),
            samples.last(),
        ) {
            1nat
        } else {
            0nat
        }
    }
}

/// How many chairs are out on the rope.
pub open spec fn active_count(chairs: Seq<Chair>) -> nat
    decreases chairs.len(),
{
    if chairs.len() == 0 {
        0
    } else {
        active_count(chairs.drop_last()) + if chairs.last().spec_is_active() {
            1nat
        } else {
            0nat
        }
    }
}

/// The ids of `chairs` are pairwise distinct.
pub open spec fn ids_unique(chairs: Seq<Chair>) -> bool {
    forall|i: int, j: int|
        0 <= i < chairs.len() && 0 <= j < chairs.len() && i != j ==> #[trigger] chairs[i].id
            != #[trigger] chairs[j].id
}

proof fn lemma_active_count_update(chairs: Seq<Chair>, i: int, chair: Chair)
    requires
        0 <= i < chairs.len(),
    ensures
        active_count(chairs.update(i, chair)) + (if chairs[i].spec_is_active() {
            1int
        } else {
            0int
        }) == active_count(chairs) + (if chair.spec_is_active() {
            1int
        } else {
            0int
        }),
    decreases chairs.len(),
{
    let updated = chairs.update(i, chair);
    if i == chairs.len() - 1 {
        assert(updated.drop_last() =~= chairs.drop_last());
    } else {
        lemma_active_count_update(chairs.drop_last(), i, chair);
        assert(updated.drop_last() =~= chairs.drop_last().update(i, chair));
    }
}

/// Activation only ever attaches one waiting chair: every chair keeps its
/// id, every chair already out on the rope stays exactly as it was, and the
/// number of chairs on the rope grows by one when a chair was waiting and
/// stays the same when none was.
pub proof fn lemma_activation_attaches_one(
    before: Seq<Chair>,
    position: RopePosition,
    after: Seq<Chair>,
    id: Option<u16>,
)
    requires
        activates_next(before, position, after, id),
    ensures
        after.len() == before.len(),
        forall|j: int| 0 <= j < before.len() ==> #[trigger] after[j].id == before[j].id,
        forall|j: int|
            0 <= j < before.len() && before[j].spec_is_active() ==> #[trigger] after[j] == before[j],
        id is Some <==> !all_active(before),
        active_count(after) == active_count(before) + if id is Some {
            1nat
        } else {
            0nat
        },
{
    if let Some(chair_id) = id {
        let i = choose|i: int|
            #[trigger] is_first_inactive(before, i) && chair_id == before[i].id && after
                == before.update(i, activated(before[i], position));
        lemma_active_count_update(before, i, activated(before[i], position));
    }
}

/// Right after a chair departs, it is the chair that `chair_position` finds
/// under the returned id, out on the rope at position 0, provided the ids
/// are distinct.
pub proof fn lemma_departed_chair_at_zero(
    before: Seq<Chair>,
    position: RopePosition,
    after: Seq<Chair>,
    id: u16,
)
    requires
        activates_next(before, position, after, Some(id)),
        ids_unique(before),
        position.rope_length_pulses() > 0,
    ensures
        exists|i: int|
            #[trigger] is_first_with_id(after, id, i) && after[i].spec_is_active()
                && after[i].spec_position(position) == 0,
{
    let i = choose|i: int|
        #[trigger] is_first_inactive(before, i) && id == before[i].id && after == before.update(
            i,
            activated(before[i], position),
        );
    assert forall|j: int| 0 <= j < i implies #[trigger] after[j].id != id by {
        assert(before[j].id != before[i].id);
    }
    assert(is_first_with_id(after, id, i));
    crate::chair::lemma_position_zero_at_start(after[i]);
}

/// Polling a run of encoder samples counts exactly their rising edges: the
/// rope moves on by that many pulses, around the loop, and nothing but the
/// rope and the remembered input changes.
pub proof fn lemma_polls_count_rising_edges(states: Seq<ChairliftMachine>, samples: Seq<bool>)
    requires
        states.len() == samples.len() + 1,
        states[0].rope_position.rope_length_pulses() > 0,
        states[0].rope_position.on_rope(),
        forall|k: int| 0 <= k < samples.len() ==> polled(#[trigger] states[k], samples[k], states[k + 1]),
    ensures
        states.last().rope_position.rope_length_pulses() == states[0].rope_position.rope_length_pulses(),
        states.last().rope_position.pulses() == (states[0].rope_position.pulses() + rising_edges(
            states[0].last_encoder_input,
            samples,
        )) % (states[0].rope_position.rope_length_pulses() as int),
        states.last().last_encoder_input == last_sample(states[0].last_encoder_input, samples),
        states.last().chairs@ == states[0].chairs@,
        states.last().config == states[0].config,
    decreases samples.len(),
{
    let len = states[0].rope_position.rope_length_pulses() as int;
    let p0 = states[0].rope_position.pulses() as int;
    if samples.len() == 0 {
        vstd::arithmetic::div_mod::lemma_small_mod(p0 as nat, len as nat);
    } else {
        let n = samples.len() - 1;
        let prefix = states.drop_last();
        assert forall|k: int| 0 <= k < samples.drop_last().len() implies polled(
            #[trigger] prefix[k],
            samples.drop_last()[k],
            prefix[k + 1],
        ) by {
            assert(polled(states[k], samples[k], states[k + 1]));
        }
        lemma_polls_count_rising_edges(prefix, samples.drop_last());
        assert(polled(states[n], samples[n], states[n + 1]));
        let edges = rising_edges(states[0].last_encoder_input, samples.drop_last());
        assert(states[n] == prefix.last());
        if is_rising_edge(states[n].last_encoder_input, samples[n]) {
            vstd::arithmetic::div_mod::lemma_add_mod_noop_right(1, p0 + edges, len);
        }
    }
}

/// Nanoseconds between two state broadcasts: thirty per second.
pub const STATE_EMIT_INTERVAL_NANOS: u128 = 33_333_333;

/// Whether the state is to be broadcast again, `elapsed_nanos` after the
/// last broadcast.
pub fn state_emit_due(elapsed_nanos: u128) -> (due: bool)
    ensures
        due == (elapsed_nanos > STATE_EMIT_INTERVAL_NANOS),
{
    elapsed_nanos > STATE_EMIT_INTERVAL_NANOS
}

/// The state of the chairlift that its control logic reads and writes: the
/// loop layout, the rope as counted by the encoder, the chairs, and the last
/// sample of the encoder input.
pub struct ChairliftMachine {
    pub config: ChairliftConfig,
    pub rope_position: RopePosition,
    pub chairs: Vec<Chair>,
    /// The encoder input as sampled at the last poll.
    pub last_encoder_input: bool,
}

impl ChairliftMachine {
    /// The rope is as long as the configured loop, and every chair was
    /// attached to, or waits for, that same rope.
    pub open spec fn chairs_on_rope(&self) -> bool {
        &&& self.rope_position.rope_length_pulses() == self.config.spec_total()
        &&& forall|i: int|
            0 <= i < self.chairs@.len() ==> (#[trigger] self.chairs@[i]).start_position.rope_length_pulses()
                == self.rope_position.rope_length_pulses()
    }

    /// A new machine: the rope at the valley station, the chairs of
    /// `create_chairs` waiting, the encoder input low.
    pub fn new(config: ChairliftConfig) -> (machine: Self)
        requires
            config.total_fits(),
        ensures
            machine.config == config,
            machine.rope_position.pulses() == 0,
            machine.rope_position.rope_length_pulses() == config.spec_total(),
            machine.chairs@.len() == CHAIR_COUNT,
            forall|i: int|
                #![trigger machine.chairs@[i]]
                0 <= i < machine.chairs@.len() ==> {
                    &&& machine.chairs@[i].id == i + 1
                    &&& machine.chairs@[i].state == ChairState::NotActive
                    &&& machine.chairs@[i].start_position.pulses() == 0
                },
            machine.chairs_on_rope(),
            !machine.last_encoder_input,
    {
        Self {
            rope_position: RopePosition::new(&config),
            chairs: create_chairs(&config),
            config,
            last_encoder_input: false,
        }
    }

    /// The first chair that carries `id`, if any.
    pub fn chair(&self, id: u16) -> (chair: Option<&Chair>)
        ensures
            match chair {
                Some(c) => exists|i: int| #[trigger]
                    is_first_with_id(self.chairs@, id, i) && *c == self.chairs@[i],
                None => no_chair_with_id(self.chairs@, id),
            },
            chair is Some ==> exists|i: int|
                0 <= i < self.chairs@.len() && #[trigger] self.chairs@[i].id == id && *chair.unwrap()
                    == self.chairs@[i] && forall|j: int| 0 <= j < i ==> #[trigger] self.chairs@[j].id != id,
            chair is None ==> forall|j: int| 0 <= j < self.chairs@.len() ==> #[trigger] self.chairs@[j].id != id,
    {
        let mut i: usize = 0;
        while i < self.chairs.len()
            invariant
                i <= self.chairs@.len(),
                forall|j: int| 0 <= j < i ==> #[trigger] self.chairs@[j].id != id,
            decreases self.chairs@.len() - i,
        {
            if self.chairs[i].id == id {
                proof {
                    assert(is_first_with_id(self.chairs@, id, i as int));
                }
                return Some(&self.chairs[i]);
            }
            i += 1;
        }
        None
    }

    /// The first chair that carries `id`, if any, to be changed in place.
    pub fn chair_mut(&mut self, id: u16) -> (chair: Option<&mut Chair>)
        ensures
            final(self).config == old(self).config,
            final(self).rope_position == old(self).rope_position,
            final(self).last_encoder_input == old(self).last_encoder_input,
            chair is None <==> no_chair_with_id(old(self).chairs@, id),
            chair is None ==> final(self).chairs@ == old(self).chairs@,
            chair is Some ==> exists|i: int| #[trigger]
                is_first_with_id(old(self).chairs@, id, i) && *chair.unwrap() == old(self).chairs@[i]
                    && final(self).chairs@ == old(self).chairs@.update(i, *final(chair.unwrap())),
    {
        let mut i: usize = 0;
        while i < self.chairs.len()
            invariant
                i <= self.chairs@.len(),
                forall|j: int| 0 <= j < i ==> #[trigger] self.chairs@[j].id != id,
                self.config == old(self).config,
                self.rope_position == old(self).rope_position,
                self.chairs@ == old(self).chairs@,
                self.last_encoder_input == old(self).last_encoder_input,
            decreases self.chairs@.len() - i,
        {
            if self.chairs[i].id == id {
                proof {
                    assert(is_first_with_id(self.chairs@, id, i as int));
                }
                return Some(&mut self.chairs[i]);
            }
            i += 1;
        }
        None
    }

    pub fn chair_count(&self) -> (count: usize)
        ensures
            count == self.chairs@.len(),
    {
        self.chairs.len()
    }

    /// Counts one encoder pulse: the rope moves forward by one pulse.
    pub fn process_encoder_pulse(&mut self)
        requires
            old(self).rope_position.rope_length_pulses() > 0,
        ensures
            final(self).rope_position.rope_length_pulses() == old(self).rope_position.rope_length_pulses(),
            final(self).rope_position.pulses() == (old(self).rope_position.pulses() + 1) % (old(
                self,
            ).rope_position.rope_length_pulses() as int),
            final(self).chairs@ == old(self).chairs@,
            final(self).config == old(self).config,
            final(self).last_encoder_input == old(self).last_encoder_input,
            old(self).chairs_on_rope() ==> final(self).chairs_on_rope(),
    {
        self.rope_position.add_one_pulse();
    }

    /// How far the rope has carried the chair with `id`; `None` when no chair
    /// carries `id` or when that chair still waits in the station.
    pub fn chair_position(&self, id: u16) -> (position: Option<u64>)
        requires
            forall|i: int|
                #[trigger] is_first_with_id(self.chairs@, id, i) && self.chairs@[i].spec_is_active()
                    ==> self.chairs@[i].position_computable(self.rope_position),
        ensures
            match position {
                Some(p) => exists|i: int| #[trigger]
                    is_first_with_id(self.chairs@, id, i) && self.chairs@[i].spec_is_active() && p
                        == self.chairs@[i].spec_position(self.rope_position),
                None => no_chair_with_id(self.chairs@, id) || exists|i: int| #[trigger]
                    is_first_with_id(self.chairs@, id, i) && !self.chairs@[i].spec_is_active(),
            },
    {
        let chair = match self.chair(id) {
            Some(chair) => chair,
            None => return None,
        };

        if !chair.is_active() {
            return None;
        }

        Some(chair.position(self.rope_position))
    }

    /// Attaches the first waiting chair to the rope at the current rope
    /// position; see `activate_next_chair`.
    pub fn activate_next_chair(&mut self) -> (id: Option<u16>)
        ensures
            activates_next(old(self).chairs@, old(self).rope_position, final(self).chairs@, id),
            final(self).rope_position == old(self).rope_position,
            final(self).config == old(self).config,
            final(self).last_encoder_input == old(self).last_encoder_input,
            old(self).chairs_on_rope() ==> final(self).chairs_on_rope(),
    {
        let ghost before = self.chairs@;
        let id = activate_next_chair(self.chairs.as_mut_slice(), self.rope_position);
        proof {
            if old(self).chairs_on_rope() {
                assert forall|i: int| 0 <= i < self.chairs@.len() implies (
                #[trigger] self.chairs@[i]).start_position.rope_length_pulses()
                    == self.rope_position.rope_length_pulses() by {
                    assert(before[i].start_position.rope_length_pulses()
                        == self.rope_position.rope_length_pulses());
                }
            }
        }
        id
    }

    /// A chair leaves the valley station: the next waiting chair is attached
    /// to the rope where the rope stands now.
    pub fn departure(&mut self) -> (id: Option<u16>)
        ensures
            activates_next(old(self).chairs@, old(self).rope_position, final(self).chairs@, id),
            final(self).rope_position == old(self).rope_position,
            final(self).config == old(self).config,
            final(self).last_encoder_input == old(self).last_encoder_input,
            old(self).chairs_on_rope() ==> final(self).chairs_on_rope(),
    {
        self.activate_next_chair()
    }

    /// Takes one sample of the encoder input and counts a rope pulse on every
    /// rising edge. Single-channel wiring: direction is not detected, the rope
    /// is always assumed to move forward.
    pub fn poll_encoder(&mut self, encoder_input: bool)
        requires
            encoder_input && !old(self).last_encoder_input
                ==> old(self).rope_position.rope_length_pulses() > 0,
        ensures
            polled(*old(self), encoder_input, *final(self)),
            final(self).last_encoder_input == encoder_input,
            final(self).rope_position.rope_length_pulses() == old(self).rope_position.rope_length_pulses(),
            encoder_input && !old(self).last_encoder_input ==> final(self).rope_position.pulses() == (
            old(self).rope_position.pulses() + 1) % (old(self).rope_position.rope_length_pulses() as int),
            !(encoder_input && !old(self).last_encoder_input) ==> final(self).rope_position
                == old(self).rope_position,
            final(self).chairs@ == old(self).chairs@,
            final(self).config == old(self).config,
            old(self).chairs_on_rope() ==> final(self).chairs_on_rope(),
    {
        if encoder_input && !self.last_encoder_input {
            self.process_encoder_pulse();
        }
        self.last_encoder_input = encoder_input;
    }
}

} // verus!
