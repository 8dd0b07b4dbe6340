use pong::game::input::{direction_of, input_percentage, InpuDirection, LeftRightPosition};

#[test]
fn low_readings_ask_for_up() {
    assert_eq!(direction_of(0), InpuDirection::Up);
    assert_eq!(direction_of(20), InpuDirection::Up);
    assert_eq!(direction_of(39), InpuDirection::Up);
}

#[test]
fn middle_readings_ask_to_stay() {
    assert_eq!(direction_of(40), InpuDirection::Stay);
    assert_eq!(direction_of(50), InpuDirection::Stay);
    assert_eq!(direction_of(59), InpuDirection::Stay);
}

#[test]
fn high_readings_ask_for_down() {
    assert_eq!(direction_of(60), InpuDirection::Down);
    assert_eq!(direction_of(80), InpuDirection::Down);
    assert_eq!(direction_of(100), InpuDirection::Down);
}

#[test]
fn percentage_is_the_rounded_down_share_of_the_reference() {
    assert_eq!(input_percentage(0, 3300), 0);
    assert_eq!(input_percentage(1650, 3300), 50);
    assert_eq!(input_percentage(3300, 3300), 100);
    assert_eq!(input_percentage(1, 3), 33);
    assert_eq!(input_percentage(2, 3), 66);
    assert_eq!(input_percentage(1319, 3300), 39);
    assert_eq!(input_percentage(1320, 3300), 40);
}

#[test]
fn percentage_allows_a_reading_a_hair_above_the_reference() {
    assert_eq!(input_percentage(3301, 3300), 100);
    assert_eq!(input_percentage(3332, 3300), 100);
}

#[test]
fn percentage_takes_the_largest_reading() {
    assert_eq!(input_percentage(65_535, 65_535), 100);
    assert_eq!(input_percentage(65_535, 4_000_000_000), 0);
}

#[test]
fn reading_becomes_a_request() {
    assert_eq!(direction_of(input_percentage(500, 3300)), InpuDirection::Up);
    assert_eq!(direction_of(input_percentage(1650, 3300)), InpuDirection::Stay);
    assert_eq!(direction_of(input_percentage(3000, 3300)), InpuDirection::Down);
}

#[test]
fn sides_are_told_apart() {
    assert_ne!(LeftRightPosition::Left, LeftRightPosition::Right);
}
