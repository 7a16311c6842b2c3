use chairlift::chair::{Chair, ChairState};
use chairlift::config::ChairliftConfig;
use chairlift::position::RopePosition;

fn test_config() -> ChairliftConfig {
    ChairliftConfig {
        valley_to_mountain_pulses: 58_000,
        mountain_to_valley_pulses: 58_000,
        mountain_station_pulses: 2_900,
        valley_station_pulses: 2_900,
        pulses_per_meter: 29,
    }
}

#[test]
fn chair_moves_with_rope_position() {
    let config = test_config();

    let start = RopePosition::new(&config);
    let chair = Chair::new(1, start);

    let mut current = RopePosition::new(&config);
    current.add_pulses(1000);

    assert_eq!(chair.position(current), 1000);
}

#[test]
fn chair_position_wraps_correctly() {
    let config = test_config();

    let mut start = RopePosition::new(&config);
    start.set_pulses(115_000);

    let chair = Chair::new(1, start);

    let mut current = RopePosition::new(&config);
    current.set_pulses(1000);

    assert_eq!(chair.position(current), 2000);
}

#[test]
fn chair_can_be_activated() {
    let config = test_config();

    let start = RopePosition::new(&config);
    let mut chair = Chair::new(1, start);

    assert_eq!(chair.state, ChairState::NotActive);
    assert!(!chair.is_active());

    let mut activation_position = RopePosition::new(&config);
    activation_position.set_pulses(5000);

    chair.activate(activation_position);

    assert_eq!(chair.state, ChairState::OnRope);
    assert!(chair.is_active());
    assert_eq!(chair.start_position.pulses(), 5000);
}

#[test]
fn display_status_is_not_active_before_activation() {
    let config = test_config();
    let start = RopePosition::new(&config);
    let chair = Chair::new(1, start);

    assert_eq!(chair.display_status(start, &config), ChairState::NotActive);
}

#[test]
fn display_status_reflects_current_zone_once_active() {
    let config = test_config();

    let start = RopePosition::new(&config);
    let mut chair = Chair::new(1, start);
    chair.activate(start);

    // Right after departure the chair is still within the valley station zone.
    assert_eq!(
        chair.display_status(start, &config),
        ChairState::ValleyStation
    );

    // Out on the open rope, away from both stations.
    let mut mid_rope = RopePosition::new(&config);
    mid_rope.set_pulses(30_000);
    assert_eq!(chair.display_status(mid_rope, &config), ChairState::OnRope);

    // Arriving at the mountain station.
    let mut mountain = RopePosition::new(&config);
    mountain.set_pulses(config.valley_to_mountain_pulses);
    assert_eq!(
        chair.display_status(mountain, &config),
        ChairState::MountainStation
    );
}

#[test]
fn new_chair_keeps_id_and_start() {
    let config = test_config();
    let mut start = RopePosition::new(&config);
    start.set_pulses(42);

    let chair = Chair::new(7, start);

    assert_eq!(chair.id, 7);
    assert_eq!(chair.start_position.pulses(), 42);
    assert_eq!(chair.state, ChairState::NotActive);
}

#[test]
fn activate_keeps_id() {
    let config = test_config();
    let mut chair = Chair::new(9, RopePosition::new(&config));
    let mut at = RopePosition::new(&config);
    at.set_pulses(77);

    chair.activate(at);

    assert_eq!(chair.id, 9);
    assert_eq!(chair.start_position.pulses(), 77);
}

#[test]
fn position_is_zero_at_start() {
    let config = test_config();
    let mut start = RopePosition::new(&config);
    start.set_pulses(80_000);
    let mut chair = Chair::new(1, RopePosition::new(&config));
    chair.activate(start);

    assert_eq!(chair.position(start), 0);
}

#[test]
fn position_follows_rope_by_pulses_moved() {
    let config = test_config();
    let mut start = RopePosition::new(&config);
    start.set_pulses(100_000);
    let chair = Chair::new(1, start);

    let mut rope = RopePosition::new(&config);
    rope.set_pulses(110_000);
    let before = chair.position(rope);
    rope.add_pulses(10_000);
    let after = chair.position(rope);

    assert_eq!(before, 10_000);
    assert_eq!(after, (before + 10_000) % 116_000);
    assert_eq!(after, 20_000);
}

#[test]
fn display_status_of_waiting_chair_ignores_zone() {
    let config = test_config();
    let chair = Chair::new(1, RopePosition::new(&config));
    let mut mountain = RopePosition::new(&config);
    mountain.set_pulses(58_000);

    assert_eq!(chair.display_status(mountain, &config), ChairState::NotActive);
}

#[test]
fn display_status_on_the_way_down() {
    let config = test_config();
    let mut chair = Chair::new(1, RopePosition::new(&config));
    chair.activate(RopePosition::new(&config));
    let mut rope = RopePosition::new(&config);

    rope.set_pulses(116_000 - 1_450);
    assert_eq!(chair.display_status(rope, &config), ChairState::ValleyStation);

    rope.set_pulses(116_000 - 1_451);
    assert_eq!(chair.display_status(rope, &config), ChairState::OnRope);
}
