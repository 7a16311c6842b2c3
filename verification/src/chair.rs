use vstd::prelude::*;

use crate::config::ChairliftConfig;
use crate::position::RopePosition;

verus! {

#[derive(Debug, Clone, Copy, PartialEq, Eq, Structural)]
pub enum ChairState {
    NotActive,
    OnRope,
    MountainStation,
    ValleyStation,
}

#[derive(Debug, Clone, Copy)]
pub struct Chair {
    pub id: u16,
    pub start_position: RopePosition,
    pub state: ChairState,
}

impl Chair {
    pub open spec fn spec_is_active(&self) -> bool {
        self.state != ChairState::NotActive
    }

    /// How far the rope has carried this chair since it was attached: the
    /// rope's pulses minus the start pulses, around the chair's loop.
    pub open spec fn spec_position(&self, rope_position: RopePosition) -> int {
        (rope_position.pulses() - self.start_position.pulses()) % (
        self.start_position.rope_length_pulses() as int)
    }

    /// The zone that `display_status` reports.
    pub open spec fn spec_display_status(&self, rope_position: RopePosition, config: ChairliftConfig) -> ChairState {
        if self.spec_is_active() {
            config.spec_zone_at(self.spec_position(rope_position))
        } else {
            ChairState::NotActive
        }
    }

    /// `position` neither divides by zero nor overflows.
    pub open spec fn position_computable(&self, rope_position: RopePosition) -> bool {
        &&& self.start_position.rope_length_pulses() > 0
        &&& rope_position.pulses() + self.start_position.rope_length_pulses() <= u64::MAX
    }

    pub fn new(id: u16, start_position: RopePosition) -> (chair: Self)
        ensures
            chair.id == id,
            chair.start_position == start_position,
            chair.state == ChairState::NotActive,
    {
        Self { id, start_position, state: ChairState::NotActive }
    }

    /// Attaches the chair to the rope at `start_position`.
    pub fn activate(&mut self, start_position: RopePosition)
        ensures
            final(self).id == old(self).id,
            final(self).start_position == start_position,
            final(self).state == ChairState::OnRope,
    {
        self.start_position = start_position;
        self.state = ChairState::OnRope;
    }

    #[verifier::when_used_as_spec(spec_is_active)]
    pub fn is_active(&self) -> (active: bool)
        ensures
            active == self.spec_is_active(),
    {
        match self.state {
            ChairState::NotActive => false,
            _ => true,
        }
    }

    pub fn position(&self, rope_position: RopePosition) -> (offset: u64)
        requires
            self.position_computable(rope_position),
        ensures
            offset == self.spec_position(rope_position),
            offset == (rope_position.pulses() - self.start_position.pulses()) % (
            self.start_position.rope_length_pulses() as int),
            offset < self.start_position.rope_length_pulses(),
    {
        proof {
            use_type_invariant(&self.start_position);
        }
        let current = rope_position.pulses();
        let start = self.start_position.pulses();
        proof {
            vstd::arithmetic::div_mod::lemma_mod_add_multiples_vanish(
                current - start,
                self.start_position.rope_length_pulses() as int,
            );
        }
        (current + self.start_position.rope_length_pulses() - start)
            % self.start_position.rope_length_pulses()
    }

    /// Which physical zone of the loop this chair currently occupies, for display
    /// purposes. Doesn't mutate `state`, so it never affects `is_active`/`activate`.
    pub fn display_status(&self, rope_position: RopePosition, config: &ChairliftConfig) -> (status:
        ChairState)
        requires
            self.is_active() ==> self.position_computable(rope_position) && config.zone_computable_at(
                self.spec_position(rope_position),
            ),
        ensures
            status == self.spec_display_status(rope_position, *config),
            !self.is_active() <==> status == ChairState::NotActive,
            self.is_active() ==> status == config.spec_zone_at(
                (rope_position.pulses() - self.start_position.pulses()) % (
                self.start_position.rope_length_pulses() as int),
            ),
    {
        proof {
            crate::config::lemma_zone_is_a_place(*config, self.spec_position(rope_position));
        }
        if !self.is_active() {
            return ChairState::NotActive;
        }
        config.zone_at(self.position(rope_position))
    }
}

/// A chair reads position 0 at the rope position it was attached at.
pub proof fn lemma_position_zero_at_start(chair: Chair)
    requires
        chair.start_position.rope_length_pulses() > 0,
    ensures
        chair.spec_position(chair.start_position) == 0,
{
    vstd::arithmetic::div_mod::lemma_small_mod(0, chair.start_position.rope_length_pulses() as nat);
}

/// The chair moves with the rope: when the rope moves on by `pulses`, the
/// chair's position moves on by the same amount, around the loop.
pub proof fn lemma_position_follows_rope(
    chair: Chair,
    before: RopePosition,
    after: RopePosition,
    pulses: nat,
)
    requires
        chair.start_position.rope_length_pulses() > 0,
        before.rope_length_pulses() == chair.start_position.rope_length_pulses(),
        after.pulses() == (before.pulses() + pulses) % (before.rope_length_pulses() as int),
    ensures
        chair.spec_position(after) == (chair.spec_position(before) + pulses) % (
        before.rope_length_pulses() as int),
{
    let len = before.rope_length_pulses() as int;
    let start = chair.start_position.pulses() as int;
    vstd::arithmetic::div_mod::lemma_add_mod_noop_right(-start, before.pulses() + pulses, len);
    vstd::arithmetic::div_mod::lemma_add_mod_noop_right(pulses as int, before.pulses() - start, len);
    assert(before.pulses() + pulses - start == pulses + (before.pulses() - start));
}

/// A chair shows `NotActive` exactly while it waits in the station; once out
/// on the rope it always shows one of the three zones.
pub proof fn lemma_display_status_not_active_iff_waiting(
    chair: Chair,
    rope_position: RopePosition,
    config: ChairliftConfig,
)
    ensures
        (chair.spec_display_status(rope_position, config) == ChairState::NotActive)
            == !chair.spec_is_active(),
{
}

/// An active chair shows the zone of the distance it has travelled since it
/// was attached: the rope's pulses minus its start pulses, around its loop.
pub proof fn lemma_display_status_is_zone_of_travel(
    chair: Chair,
    rope_position: RopePosition,
    config: ChairliftConfig,
)
    requires
        chair.spec_is_active(),
    ensures
        chair.spec_display_status(rope_position, config) == config.spec_zone_at(
            (rope_position.pulses() - chair.start_position.pulses()) % (
            chair.start_position.rope_length_pulses() as int),
        ),
{
}

/// What an active chair shows depends only on how far it has travelled, not
/// on where along the rope it was attached: two active chairs on loops of
/// the same length, each carried the same distance around its loop, show
/// the same zone.
pub proof fn lemma_display_status_depends_on_travel(
    first: Chair,
    first_rope: RopePosition,
    second: Chair,
    second_rope: RopePosition,
    config: ChairliftConfig,
)
    requires
        first.spec_is_active(),
        second.spec_is_active(),
        first.start_position.rope_length_pulses() == second.start_position.rope_length_pulses(),
        (first_rope.pulses() - first.start_position.pulses()) % (
        first.start_position.rope_length_pulses() as int) == (second_rope.pulses()
            - second.start_position.pulses()) % (second.start_position.rope_length_pulses() as int),
    ensures
        first.spec_display_status(first_rope, config) == second.spec_display_status(
            second_rope,
            config,
        ),
{
    lemma_display_status_is_zone_of_travel(first, first_rope, config);
    lemma_display_status_is_zone_of_travel(second, second_rope, config);
}

/// A chair that has been carried exactly the length of the valley-to-mountain
/// segment from where it was attached shows the mountain station, on a rope
/// as long as the loop whose stations do not swallow that point into the
/// valley station.
pub proof fn lemma_chair_at_segment_end_shows_mountain_station(
    chair: Chair,
    rope_position: RopePosition,
    config: ChairliftConfig,
)
    requires
        chair.spec_is_active(),
        chair.start_position.rope_length_pulses() == config.valley_to_mountain_pulses
            + config.mountain_to_valley_pulses,
        config.valley_to_mountain_pulses + config.mountain_to_valley_pulses > 0,
        config.mountain_station_pulses >= 2,
        config.valley_to_mountain_pulses >= config.valley_station_pulses / 2,
        config.mountain_to_valley_pulses > config.valley_station_pulses / 2,
        rope_position.pulses() == (chair.start_position.pulses()
            + config.valley_to_mountain_pulses) % (chair.start_position.rope_length_pulses() as int),
    ensures
        chair.spec_display_status(rope_position, config) == ChairState::MountainStation,
{
    let len = chair.start_position.rope_length_pulses() as int;
    let start = chair.start_position.pulses() as int;
    let travel = config.valley_to_mountain_pulses as int;
    vstd::arithmetic::div_mod::lemma_add_mod_noop_right(-start, start + travel, len);
    assert((rope_position.pulses() - start) % len == travel % len);
    crate::config::lemma_segment_end_is_mountain_station(config, 0);
    assert(travel + 0 * len == travel);
    vstd::arithmetic::div_mod::lemma_small_mod(travel as nat, len as nat);
    lemma_display_status_is_zone_of_travel(chair, rope_position, config);
}

} // verus!
