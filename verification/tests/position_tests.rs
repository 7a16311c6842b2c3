use chairlift::config::ChairliftConfig;
use chairlift::position::RopePosition;

fn test_config() -> ChairliftConfig {
    ChairliftConfig {
        valley_to_mountain_pulses: 58_000,
        mountain_to_valley_pulses: 58_000,
        mountain_station_pulses: 2_900,
        valley_station_pulses: 2_900,
        pulses_per_meter: 29,
    }
}

#[test]
fn rope_position_counts_pulses() {
    let config = test_config();
    let mut position = RopePosition::new(&config);

    position.add_pulses(1000);

    assert_eq!(position.pulses(), 1000);
}

#[test]
fn rope_position_wraps_at_end_of_rope() {
    let config = test_config();
    let mut position = RopePosition::new(&config);

    position.set_pulses(config.total_rope_pulses() - 10);
    position.add_pulses(20);

    assert_eq!(position.pulses(), 10);
}

#[test]
fn new_position_starts_at_valley_station_on_configured_loop() {
    let config = test_config();
    let position = RopePosition::new(&config);

    assert_eq!(position.pulses(), 0);
    assert_eq!(position.rope_length_pulses(), 116_000);
}

#[test]
fn set_pulses_takes_value_around_the_loop() {
    let config = test_config();
    let mut position = RopePosition::new(&config);

    position.set_pulses(116_000 * 3 + 7);
    assert_eq!(position.pulses(), 7);
    assert_eq!(position.rope_length_pulses(), 116_000);

    position.set_pulses(116_000);
    assert_eq!(position.pulses(), 0);
}

#[test]
fn add_one_pulse_wraps_from_last_pulse_to_zero() {
    let config = test_config();
    let mut position = RopePosition::new(&config);

    position.set_pulses(115_999);
    position.add_one_pulse();

    assert_eq!(position.pulses(), 0);
}

#[test]
fn moves_compose_around_the_loop() {
    let config = test_config();
    let mut stepwise = RopePosition::new(&config);
    let mut at_once = RopePosition::new(&config);
    stepwise.set_pulses(100_000);
    at_once.set_pulses(100_000);

    stepwise.add_pulses(10_000);
    stepwise.add_pulses(10_000);
    at_once.add_pulses(20_000);

    assert_eq!(stepwise.pulses(), at_once.pulses());
    assert_eq!(at_once.pulses(), 4_000);
}
