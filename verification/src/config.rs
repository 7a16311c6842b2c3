use vstd::prelude::*;

use crate::chair::ChairState;

verus! {

/// Layout of the rope loop, measured in encoder pulses.
#[derive(Debug, Clone, Copy)]
pub struct ChairliftConfig {
    pub valley_to_mountain_pulses: u64,
    pub mountain_to_valley_pulses: u64,
    pub mountain_station_pulses: u64,
    pub valley_station_pulses: u64,
    /// Encoder resolution: pulses generated per meter of rope travel.
    /// Needs to be calibrated to the real installation.
    pub pulses_per_meter: u64,
}

impl ChairliftConfig {
    /// Length of the whole loop: up the valley-to-mountain segment and back down.
    pub open spec fn spec_total(self) -> int {
        self.valley_to_mountain_pulses + self.mountain_to_valley_pulses
    }

    /// The loop length fits in a `u64`.
    pub open spec fn total_fits(self) -> bool {
        self.spec_total() <= u64::MAX
    }

    /// `p`, a position within the loop, lies in the valley station: within
    /// half the station's length of the wrap point, on either side.
    pub open spec fn in_valley_station(self, p: int) -> bool {
        let valley_half = self.valley_station_pulses / 2;
        p < valley_half || p >= self.spec_total() - valley_half
    }

    /// The end of the valley-to-mountain segment, taken around the loop.
    pub open spec fn mountain_center(self) -> int {
        (self.valley_to_mountain_pulses as int) % self.spec_total()
    }

    /// `zone_at(pulses)` runs without overflow: the loop length fits, and
    /// when the position is not in the valley station, so does the mountain
    /// station's upper edge before it is clipped to the loop.
    pub open spec fn zone_computable_at(self, pulses: int) -> bool {
        &&& self.total_fits()
        &&& self.spec_total() > 0 && !self.in_valley_station(pulses % self.spec_total())
            ==> self.mountain_center() + self.mountain_station_pulses / 2 <= u64::MAX
    }

    /// The zone that a chair at absolute rope position `pulses` occupies.
    ///
    /// The valley station is centered on the wrap point (0 / total), the
    /// mountain station on the end of the valley-to-mountain segment; each
    /// station extends half its length to either side, the mountain station
    /// clipped to the loop, and the valley station wins where they overlap.
    pub open spec fn spec_zone_at(self, pulses: int) -> ChairState {
        let total = self.spec_total();
        if total == 0 {
            ChairState::OnRope
        } else {
            let p = pulses % total;
            let mountain_half = self.mountain_station_pulses / 2;
            let lower = if self.mountain_center() >= mountain_half {
                self.mountain_center() - mountain_half
            } else {
                0
            };
            let upper = if self.mountain_center() + mountain_half <= total {
                self.mountain_center() + mountain_half
            } else {
                total
            };
            if self.in_valley_station(p) {
                ChairState::ValleyStation
            } else if lower <= p < upper {
                ChairState::MountainStation
            } else {
                ChairState::OnRope
            }
        }
    }

    pub fn total_rope_pulses(&self) -> (total: u64)
        requires
            self.total_fits(),
        ensures
            total == self.spec_total(),
    {
        self.valley_to_mountain_pulses + self.mountain_to_valley_pulses
    }

    /// Classifies an absolute rope-pulse position into the zone a chair at that
    /// position currently occupies.
    ///
    /// Station zones are centered on the segment boundaries (0 / total for the
    /// valley station, `valley_to_mountain_pulses` for the mountain station)
    /// since a chair passes continuously through a station as it goes around the
    /// bullwheel, rather than the station adding extra length to the loop.
    pub fn zone_at(&self, pulses: u64) -> (zone: ChairState)
        requires
            self.zone_computable_at(pulses as int),
        ensures
            zone == self.spec_zone_at(pulses as int),
            zone != ChairState::NotActive,
            self.valley_to_mountain_pulses + self.mountain_to_valley_pulses > 0 ==> {
                let total = self.valley_to_mountain_pulses + self.mountain_to_valley_pulses;
                let q = (pulses as int) % total;
                let in_valley = q < self.valley_station_pulses / 2 || q + self.valley_station_pulses
                    / 2 >= total;
                let center = (self.valley_to_mountain_pulses as int) % total;
                let in_mountain = center - self.mountain_station_pulses / 2 <= q && q < center
                    + self.mountain_station_pulses / 2;
                &&& (zone == ChairState::ValleyStation) == in_valley
                &&& (zone == ChairState::MountainStation) == (!in_valley && in_mountain)
            },
    {
        proof {
            lemma_zone_by_layout(*self, pulses as int);
        }
        let total = self.total_rope_pulses();
        if total == 0 {
            return ChairState::OnRope;
        }
        let p = pulses % total;

        let valley_half = self.valley_station_pulses / 2;
        if p < valley_half || p >= total - valley_half {
            return ChairState::ValleyStation;
        }

        let mountain_half = self.mountain_station_pulses / 2;
        let mountain_center = self.valley_to_mountain_pulses % total;
        let lower = mountain_center.saturating_sub(mountain_half);
        let upper = (mountain_center + mountain_half).min(total);
        if p >= lower && p < upper {
            return ChairState::MountainStation;
        }

        ChairState::OnRope
    }
}

impl Default for ChairliftConfig {
    fn default() -> (config: Self)
        ensures
            config.valley_to_mountain_pulses == 58_000,
            config.mountain_to_valley_pulses == 58_000,
            config.mountain_station_pulses == 2_900,
            config.valley_station_pulses == 2_900,
            config.pulses_per_meter == 29,
    {
        Self {
            valley_to_mountain_pulses: 58_000,
            mountain_to_valley_pulses: 58_000,
            mountain_station_pulses: 2_900,
            valley_station_pulses: 2_900,
            pulses_per_meter: 29,
        }
    }
}

/// A position one whole loop further on lies in the same zone: the zones
/// repeat with every turn of the rope.
pub proof fn lemma_zone_wraps(config: ChairliftConfig, pulses: int)
    ensures
        config.spec_zone_at(pulses + config.spec_total()) == config.spec_zone_at(pulses),
{
    if config.spec_total() > 0 {
        vstd::arithmetic::div_mod::lemma_mod_add_multiples_vanish(pulses, config.spec_total());
    }
}

/// Every position lies in a zone of the loop: the classification is never
/// `NotActive`.
pub proof fn lemma_zone_is_a_place(config: ChairliftConfig, pulses: int)
    ensures
        config.spec_zone_at(pulses) != ChairState::NotActive,
{
}

/// The zones as the layout defines them. On an empty loop every position is
/// open rope. Otherwise, with `q` the position taken around the loop:
/// `q` is in the valley station when it lies within half the valley
/// station's length of the wrap point (0 / loop length), on either side; it
/// is in the mountain station when it is not in the valley station and lies
/// within half the mountain station's length of `valley_to_mountain_pulses`
/// (below it by at most that half, above it by less); every other position
/// is open rope.
pub proof fn lemma_zone_by_layout(config: ChairliftConfig, pulses: int)
    ensures
        config.valley_to_mountain_pulses + config.mountain_to_valley_pulses == 0
            ==> config.spec_zone_at(pulses) == ChairState::OnRope,
        config.valley_to_mountain_pulses + config.mountain_to_valley_pulses > 0 ==> {
            let total = config.valley_to_mountain_pulses + config.mountain_to_valley_pulses;
            let q = pulses % total;
            let valley_half = config.valley_station_pulses / 2;
            let mountain_half = config.mountain_station_pulses / 2;
            let center = (config.valley_to_mountain_pulses as int) % total;
            let in_valley = q < valley_half || q + valley_half >= total;
            let in_mountain = center - mountain_half <= q && q < center + mountain_half;
            &&& (config.spec_zone_at(pulses) == ChairState::ValleyStation) == in_valley
            &&& (config.spec_zone_at(pulses) == ChairState::MountainStation) == (!in_valley
                && in_mountain)
            &&& (config.spec_zone_at(pulses) == ChairState::OnRope) == (!in_valley && !in_mountain)
        },
{
    let total = config.valley_to_mountain_pulses + config.mountain_to_valley_pulses;
    if total > 0 {
        vstd::arithmetic::div_mod::lemma_mod_bound(pulses, total);
        vstd::arithmetic::div_mod::lemma_mod_bound(config.valley_to_mountain_pulses as int, total);
    }
}

/// A position at the end of the valley-to-mountain segment, one whole number
/// of loops further on or not, is in the mountain station unless the valley
/// station reaches it.
pub proof fn lemma_segment_end_is_mountain_station(config: ChairliftConfig, loops: nat)
    requires
        config.valley_to_mountain_pulses + config.mountain_to_valley_pulses > 0,
        config.mountain_station_pulses >= 2,
        config.valley_to_mountain_pulses >= config.valley_station_pulses / 2,
        config.mountain_to_valley_pulses > config.valley_station_pulses / 2,
    ensures
        config.spec_zone_at(
            config.valley_to_mountain_pulses + loops * (config.valley_to_mountain_pulses
                + config.mountain_to_valley_pulses),
        ) == ChairState::MountainStation,
{
    let total = config.valley_to_mountain_pulses + config.mountain_to_valley_pulses;
    let p = config.valley_to_mountain_pulses + loops * total;
    vstd::arithmetic::div_mod::lemma_mod_multiples_vanish(
        loops as int,
        config.valley_to_mountain_pulses as int,
        total,
    );
    assert(p == loops * total + config.valley_to_mountain_pulses);
    vstd::arithmetic::div_mod::lemma_small_mod(config.valley_to_mountain_pulses as nat, total as nat);
    lemma_zone_by_layout(config, p);
}

} // verus!
