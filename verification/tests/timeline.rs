use eclale::chart::{Time, TimeSignature};
use eclale::error::ChartMalformed;
use eclale::fixed::{checked_mul_div, checked_scaled_mul, floor_div, halved, narrow, UNIT};
use eclale::timeline::{MeasureCompositionData, XPositionCalculator, ZPosition, ZPositionCalculator};

fn composition(num_beats: u32, note_value: u32, bpm: i64, subdivision: u32) -> MeasureCompositionData {
    MeasureCompositionData {
        time_signature: TimeSignature { num_beats, note_value },
        bpm,
        speed_multiplier: UNIT,
        subdivision,
    }
}

fn two_measures() -> ZPositionCalculator {
    let measures = vec![composition(4, 4, 120 * UNIT, 4), composition(4, 4, 120 * UNIT, 4)];
    ZPositionCalculator::new(measures, Time(0), UNIT).unwrap()
}

#[test]
fn two_measures_at_120_bpm_resolve_to_whole_seconds() {
    let calculator = two_measures();
    assert_eq!(calculator.z_position_at(0, UNIT).unwrap().time, Time(0));
    assert_eq!(calculator.z_position_at(0, 5 * UNIT).unwrap().time, Time(2_000_000));
    assert_eq!(calculator.z_position_at(1, UNIT).unwrap().time, Time(2_000_000));
    assert_eq!(calculator.z_position_at(1, 5 * UNIT).unwrap().time, Time(4_000_000));
}

#[test]
fn depth_follows_time_at_base_speed_one() {
    let calculator = two_measures();
    assert_eq!(calculator.z_position_at(0, 3 * UNIT), Some(ZPosition { time: Time(1_000_000), z: 1_000_000 }));
    assert_eq!(calculator.z_base_speed(), UNIT);
}

#[test]
fn resolution_gives_the_same_position_twice() {
    let calculator = two_measures();
    let first = calculator.z_position_at(1, 2_500_000);
    let second = calculator.z_position_at(1, 2_500_000);
    assert_eq!(first, second);
    assert_eq!(first, Some(ZPosition { time: Time(2_750_000), z: 2_750_000 }));
}

#[test]
fn tick_one_is_the_measure_start_and_the_last_tick_the_next_start() {
    let measures = vec![
        composition(4, 4, 120 * UNIT, 4),
        composition(4, 4, 60 * UNIT, 8),
        composition(3, 4, 90 * UNIT, 3),
    ];
    let calculator = ZPositionCalculator::new(measures, Time(500_000), 2 * UNIT).unwrap();
    assert_eq!(calculator.len(), 3);
    for m in 0..3usize {
        let measure = calculator.measure(m);
        let start = calculator.z_position_at(m, UNIT).unwrap();
        assert_eq!(start, measure.position.offset);
        let end_tick = (measure.composition.subdivision as i64 + 1) * UNIT;
        let end = calculator.z_position_at(m, end_tick).unwrap();
        assert_eq!(end.time.0, measure.position.offset.time.0 + measure.position.duration.time.0);
        assert_eq!(end.z, measure.position.offset.z + measure.position.duration.z);
        if m + 1 < 3 {
            assert_eq!(end, calculator.measure(m + 1).position.offset);
        }
    }
}

#[test]
fn offsets_accumulate_and_never_decrease() {
    let measures = vec![
        composition(4, 4, 120 * UNIT, 4),
        composition(4, 4, 60 * UNIT, 4),
        composition(3, 4, 90 * UNIT, 4),
        composition(0, 4, 90 * UNIT, 4),
        composition(7, 8, 133_500_000, 4),
    ];
    let calculator = ZPositionCalculator::new(measures, Time(0), UNIT).unwrap();
    let offsets: Vec<i64> = (0..5).map(|m| calculator.measure(m).position.offset.time.0).collect();
    assert_eq!(offsets, vec![0, 2_000_000, 6_000_000, 8_000_000, 8_000_000]);
    let durations: Vec<i64> = (0..5).map(|m| calculator.measure(m).position.duration.time.0).collect();
    assert_eq!(durations, vec![2_000_000, 4_000_000, 2_000_000, 0, 1_573_033]);
    for m in 0..4usize {
        assert!(calculator.measure(m + 1).position.offset.time.0 >= calculator.measure(m).position.offset.time.0);
        assert!(calculator.measure(m + 1).position.offset.z >= calculator.measure(m).position.offset.z);
    }
}

#[test]
fn depth_is_time_scaled_by_the_base_speed() {
    let measures = vec![composition(4, 4, 120 * UNIT, 4), composition(4, 4, 120 * UNIT, 4)];
    let calculator = ZPositionCalculator::new(measures, Time(1_500_000), 2_500_000).unwrap();
    let first = calculator.measure(0);
    assert_eq!(first.position.offset, ZPosition { time: Time(1_500_000), z: 3_750_000 });
    assert_eq!(first.position.duration, ZPosition { time: Time(2_000_000), z: 5_000_000 });
    assert_eq!(calculator.measure(1).position.offset, ZPosition { time: Time(3_500_000), z: 8_750_000 });
    assert_eq!(calculator.z_base_speed(), 2_500_000);
}

#[test]
fn ticks_between_grid_positions_and_before_the_first() {
    let calculator = two_measures();
    assert_eq!(calculator.z_position_at(0, 2_500_000).unwrap().time, Time(750_000));
    assert_eq!(calculator.z_position_at(1, 0).unwrap().time, Time(1_500_000));
    assert_eq!(calculator.z_position_at(0, 0).unwrap(), ZPosition { time: Time(-500_000), z: -500_000 });
    // Rounded towards negative infinity: a third of a tick before the start.
    let thirds = ZPositionCalculator::new(vec![composition(1, 4, 60 * UNIT, 3)], Time(0), UNIT).unwrap();
    assert_eq!(thirds.z_position_at(0, 2 * UNIT).unwrap().time, Time(333_333));
    assert_eq!(thirds.z_position_at(0, 0).unwrap().time, Time(-333_334));
}

#[test]
fn a_composition_that_is_not_positive_is_rejected() {
    for bad in [composition(4, 4, 0, 4), composition(4, 0, 120 * UNIT, 4), composition(4, 4, 120 * UNIT, 0), composition(4, 4, -1, 4)] {
        assert!(!bad.is_valid());
        let r = ZPositionCalculator::new(vec![composition(4, 4, 120 * UNIT, 4), bad], Time(0), UNIT);
        assert_eq!(r.err(), Some(ChartMalformed::InvalidComposition));
    }
    assert!(composition(4, 4, 1, 1).is_valid());
}

#[test]
fn a_measure_too_long_to_represent_is_rejected() {
    let r = ZPositionCalculator::new(vec![composition(4_000_000_000, 1, 1, 4)], Time(0), UNIT);
    assert_eq!(r.err(), Some(ChartMalformed::ValueOutOfRange));
    let r = ZPositionCalculator::new(vec![composition(4, 4, 120 * UNIT, 4)], Time(i64::MAX), UNIT);
    assert_eq!(r.err(), Some(ChartMalformed::ValueOutOfRange));
    let r = ZPositionCalculator::new(vec![composition(4, 4, 120 * UNIT, 4)], Time(0), i64::MAX);
    assert_eq!(r.err(), Some(ChartMalformed::ValueOutOfRange));
    // An invalid composition is reported before a measure that does not fit.
    let r = ZPositionCalculator::new(vec![composition(4_000_000_000, 1, 1, 4), composition(4, 4, 0, 4)], Time(0), UNIT);
    assert_eq!(r.err(), Some(ChartMalformed::InvalidComposition));
}

#[test]
fn a_position_too_far_to_represent_is_none() {
    let calculator = ZPositionCalculator::new(vec![composition(4, 4, 120 * UNIT, 1)], Time(0), UNIT).unwrap();
    assert_eq!(calculator.z_position_at(0, i64::MAX), None);
    assert_eq!(calculator.z_position_at(0, i64::MIN), None);
    assert_eq!(calculator.z_position_at(0, i64::MAX / 2), Some(ZPosition { time: Time(i64::MAX - 2_000_001), z: i64::MAX - 2_000_001 }));
}

#[test]
fn a_timeline_without_measures() {
    let calculator = ZPositionCalculator::new(Vec::new(), Time(7), UNIT).unwrap();
    assert_eq!(calculator.len(), 0);
}

#[test]
fn measure_lengths_by_formula() {
    assert_eq!(composition(4, 4, 120 * UNIT, 4).checked_time_duration(), Some(2_000_000));
    assert_eq!(composition(7, 8, 133_500_000, 4).checked_time_duration(), Some(1_573_033));
    assert_eq!(composition(6, 8, 180 * UNIT, 4).checked_time_duration(), Some(1_000_000));
    assert_eq!(composition(4, 4, 120 * UNIT, 4).checked_depth_duration(2_500_000), Some(5_000_000));
    assert_eq!(composition(4, 4, 120 * UNIT, 4).checked_depth_duration(-UNIT), Some(-2_000_000));
    assert_eq!(composition(3, 4, 7, 4).checked_depth_duration(-1), Some(-25_714_286));
    assert_eq!(composition(4_000_000_000, 1, 1, 4).checked_time_duration(), None);
}

#[test]
fn lateral_positions() {
    assert!(XPositionCalculator::new(0).is_none());
    assert!(XPositionCalculator::new(-5).is_none());
    let calculator = XPositionCalculator::new(24 * UNIT).unwrap();
    assert_eq!(calculator.x_position_at(2 * UNIT, 12 * UNIT, 40_000), Some(100_000));
    assert_eq!(calculator.x_position_at(-3 * UNIT, 0, 40_000), Some(-120_000));
    assert_eq!(calculator.x_position_at(0, -6 * UNIT, UNIT), Some(-250_000));
    assert_eq!(calculator.x_position_at(0, 1, UNIT), Some(0));
    assert_eq!(calculator.x_position_at(0, -1, UNIT), Some(-1));
    assert_eq!(calculator.x_position_at(i64::MAX, 24 * UNIT, UNIT), None);
    assert_eq!(calculator.x_position_at(i64::MAX, 0, 2 * UNIT), None);
    assert_eq!(XPositionCalculator::new(1).unwrap().x_position_at(0, i64::MAX, UNIT), None);
}

#[test]
fn fixed_point_arithmetic_rounds_down() {
    assert_eq!(floor_div(7, 2), 3);
    assert_eq!(floor_div(-7, 2), -4);
    assert_eq!(floor_div(-8, 2), -4);
    assert_eq!(floor_div(0, 5), 0);
    assert_eq!(halved(5), 2);
    assert_eq!(halved(-5), -3);
    assert_eq!(halved(i64::MIN), i64::MIN / 2);
    assert_eq!(narrow(i64::MAX as i128 + 1), None);
    assert_eq!(narrow(i64::MIN as i128), Some(i64::MIN));
    assert_eq!(checked_mul_div(7, -3, 2), Some(-11));
    assert_eq!(checked_mul_div(i64::MAX, i64::MAX, 1), None);
    assert_eq!(checked_mul_div(i64::MAX, i64::MAX, i64::MAX), Some(i64::MAX));
    assert_eq!(checked_scaled_mul(1_500_000, 2_000_000), Some(3_000_000));
    assert_eq!(checked_scaled_mul(-1, 1), Some(-1));
    assert_eq!(ZPosition::new(Time(3), 4), ZPosition { time: Time(3), z: 4 });
}
