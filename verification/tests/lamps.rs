use climate_monitor::leds::{
    classify, first_failure, parse_boundaries, Error, LampStep, LedArray, LedBranch,
    TemperatureBoundaries,
    PARSE_FAILURE,
};
use climate_monitor::text::format_deci;

fn defaults() -> TemperatureBoundaries {
    TemperatureBoundaries::new(0, 250, 300, 350)
}

fn all_off() -> Vec<LampStep> {
    (0..8u8).map(|index| LampStep::Drive { index, on: false }).collect()
}

fn only(lamp: usize) -> [bool; 8] {
    let mut levels = [false; 8];
    levels[lamp] = true;
    levels
}

#[test]
fn boundaries_are_built_and_set_field_by_field() {
    let mut tb = TemperatureBoundaries::new(1, 2, 3, 4);
    assert_eq!(tb, TemperatureBoundaries { cold: 1, optimal: 2, hot: 3, critical: 4 });
    tb.set_cold(-10);
    tb.set_optimal(20);
    tb.set_hot(30);
    tb.set_critical(40);
    assert_eq!(tb, TemperatureBoundaries { cold: -10, optimal: 20, hot: 30, critical: 40 });
}

#[test]
fn well_formed_line_replaces_all_four() {
    let mut tb = defaults();
    assert!(tb.set_from_string("1.0,2.0,3.0,4.0").is_ok());
    assert_eq!(tb, TemperatureBoundaries::new(10, 20, 30, 40));
    assert!(tb.set_from_string("-5.5,+20,30.1,45").is_ok());
    assert_eq!(tb, TemperatureBoundaries::new(-55, 200, 301, 450));
}

#[test]
fn fields_after_the_fourth_are_ignored() {
    let mut tb = defaults();
    assert!(tb.set_from_string("1,2,3,4,junk").is_ok());
    assert_eq!(tb, TemperatureBoundaries::new(10, 20, 30, 40));
}

#[test]
fn missing_field_is_out_of_bounds_and_changes_nothing() {
    for line in ["", "1.0", "1.0,2.0", "1.0,2.0,3.0", "x,y,z"] {
        let mut tb = defaults();
        assert!(matches!(tb.set_from_string(line), Err(Error::ArrayOutOfBounds)));
        assert_eq!(tb, defaults());
    }
}

#[test]
fn unreadable_field_is_reported_and_changes_nothing() {
    for line in ["1.0,2.0,3.0,", "a,2,3,4", "1,b,3,4", "1,2,c,4", "1,2,3,d", "1,2,3,4.55", ",,,"] {
        let mut tb = defaults();
        match tb.set_from_string(line) {
            Err(Error::Gpio(reason)) => assert_eq!(reason, PARSE_FAILURE),
            other => panic!("{:?}", other),
        }
        assert_eq!(tb, defaults());
    }
}

#[test]
fn a_late_bad_field_does_not_let_early_fields_through() {
    let mut tb = defaults();
    assert!(tb.set_from_string("9,9,9,oops").is_err());
    assert_eq!(tb.cold, 0);
    assert_eq!(tb.optimal, 250);
    assert_eq!(tb.hot, 300);
    assert_eq!(tb.critical, 350);
}

#[test]
fn parse_boundaries_reads_bytes() {
    assert_eq!(
        parse_boundaries(b"0,25,30,35").ok(),
        Some(TemperatureBoundaries::new(0, 250, 300, 350))
    );
    assert!(matches!(parse_boundaries(b"0,25,30"), Err(Error::ArrayOutOfBounds)));
}

#[test]
fn default_thresholds_pick_each_branch() {
    let tb = defaults();
    assert_eq!(classify(&tb, 360), LedBranch::Critical);
    assert_eq!(classify(&tb, 320), LedBranch::Hot);
    assert_eq!(classify(&tb, 270), LedBranch::Optimal);
    assert_eq!(classify(&tb, -10), LedBranch::Cold);
    assert_eq!(classify(&tb, 100), LedBranch::Idle);
}

#[test]
fn boundaries_belong_to_the_upper_branch() {
    let tb = defaults();
    assert_eq!(classify(&tb, 350), LedBranch::Critical);
    assert_eq!(classify(&tb, 349), LedBranch::Hot);
    assert_eq!(classify(&tb, 300), LedBranch::Hot);
    assert_eq!(classify(&tb, 299), LedBranch::Optimal);
    assert_eq!(classify(&tb, 250), LedBranch::Optimal);
    assert_eq!(classify(&tb, 249), LedBranch::Idle);
    assert_eq!(classify(&tb, 0), LedBranch::Idle);
    assert_eq!(classify(&tb, -1), LedBranch::Cold);
}

#[test]
fn first_match_wins_with_unordered_thresholds() {
    let tb = TemperatureBoundaries::new(500, 10, 400, 20);
    assert_eq!(classify(&tb, 30), LedBranch::Critical);
    assert_eq!(classify(&tb, 15), LedBranch::Optimal);
    assert_eq!(classify(&tb, 5), LedBranch::Cold);
}

#[test]
fn critical_temperature_runs_the_animation() {
    let mut leds = LedArray::new([true; 8]);
    let steps = leds.set_from_tb(&defaults(), 360);
    let mut expected = all_off();
    for on in [true, false] {
        for index in 0..8u8 {
            expected.push(LampStep::Drive { index, on });
            expected.push(LampStep::Hold { ms: 25 });
        }
    }
    assert_eq!(steps, expected);
    assert_eq!(leds.leds, [false; 8]);
}

#[test]
fn hot_temperature_lights_lamp_four() {
    let mut leds = LedArray::new([true; 8]);
    let steps = leds.set_from_tb(&defaults(), 320);
    let mut expected = all_off();
    expected.push(LampStep::Drive { index: 4, on: true });
    assert_eq!(steps, expected);
    assert_eq!(leds.leds, only(4));
}

#[test]
fn optimal_temperature_lights_lamp_two() {
    let mut leds = LedArray::new([false; 8]);
    let steps = leds.set_from_tb(&defaults(), 270);
    let mut expected = all_off();
    expected.push(LampStep::Drive { index: 2, on: true });
    assert_eq!(steps, expected);
    assert_eq!(leds.leds, only(2));
}

#[test]
fn cold_temperature_lights_lamp_three() {
    let mut leds = LedArray::new([false; 8]);
    let steps = leds.set_from_tb(&defaults(), -10);
    let mut expected = all_off();
    expected.push(LampStep::Drive { index: 3, on: true });
    assert_eq!(steps, expected);
    assert_eq!(leds.leds, only(3));
}

#[test]
fn temperature_between_cold_and_optimal_leaves_all_off() {
    let mut leds = LedArray::new([true; 8]);
    let steps = leds.set_from_tb(&defaults(), 100);
    assert_eq!(steps, all_off());
    assert_eq!(leds.leds, [false; 8]);
}

#[test]
fn set_drives_one_lamp() {
    let mut leds = LedArray::new([false; 8]);
    let step: Result<LampStep, Error<()>> = leds.set(0, true);
    assert_eq!(step.ok(), Some(LampStep::Drive { index: 0, on: true }));
    assert_eq!(leds.leds, only(0));
    let step: Result<LampStep, Error<()>> = leds.set(0, false);
    assert_eq!(step.ok(), Some(LampStep::Drive { index: 0, on: false }));
    assert_eq!(leds.leds, [false; 8]);
    let step: Result<LampStep, Error<()>> = leds.set(7, true);
    assert!(step.is_ok());
    assert_eq!(leds.leds, only(7));
}

#[test]
fn set_refuses_an_index_past_the_bank() {
    let mut leds = LedArray::new(only(1));
    for index in [8u8, 9, 255] {
        let step: Result<LampStep, Error<()>> = leds.set(index, true);
        assert!(matches!(step, Err(Error::ArrayOutOfBounds)));
        assert_eq!(leds.leds, only(1));
    }
}

#[test]
fn set_all_drives_every_lamp_in_order() {
    let mut leds = LedArray::new(only(5));
    let steps = leds.set_all(true);
    let expected: Vec<LampStep> =
        (0..8u8).map(|index| LampStep::Drive { index, on: true }).collect();
    assert_eq!(steps, expected);
    assert_eq!(leds.leds, [true; 8]);
    assert_eq!(leds.set_all(false), all_off());
    assert_eq!(leds.leds, [false; 8]);
}

#[test]
fn circle_animation_lights_all_then_clears_all() {
    let mut leds = LedArray::new([false; 8]);
    let steps = leds.circle_animation();
    assert_eq!(steps.len(), 32);
    assert_eq!(steps[0], LampStep::Drive { index: 0, on: true });
    assert_eq!(steps[1], LampStep::Hold { ms: 25 });
    assert_eq!(steps[14], LampStep::Drive { index: 7, on: true });
    assert_eq!(steps[16], LampStep::Drive { index: 0, on: false });
    assert_eq!(steps[30], LampStep::Drive { index: 7, on: false });
    assert_eq!(steps[31], LampStep::Hold { ms: 25 });
    let lit = steps[..16].iter().filter(|s| matches!(s, LampStep::Drive { on: true, .. })).count();
    assert_eq!(lit, 8);
    assert_eq!(leds.leds, [false; 8]);
}

#[test]
fn a_run_without_failure_succeeds() {
    let none: Vec<Result<(), u8>> = Vec::new();
    assert_eq!(first_failure(none), Ok(()));
    assert_eq!(first_failure::<u8>(vec![Ok(()), Ok(()), Ok(())]), Ok(()));
}

#[test]
fn a_run_reports_its_first_failure() {
    assert_eq!(first_failure(vec![Ok(()), Err(3u8), Ok(()), Err(5u8)]), Err(3));
    assert_eq!(first_failure(vec![Err(7u8)]), Err(7));
    assert_eq!(first_failure(vec![Ok(()), Ok(()), Err(9u8)]), Err(9));
}

#[test]
fn a_written_line_is_read_back() {
    for tb in [
        TemperatureBoundaries::new(0, 250, 300, 350),
        TemperatureBoundaries::new(-55, 0, 5, 1001),
        TemperatureBoundaries::new(99_999_999, -99_999_999, 1, -1),
    ] {
        let mut line = format_deci(tb.cold);
        line.push(b',');
        line.extend(format_deci(tb.optimal));
        line.push(b',');
        line.extend(format_deci(tb.hot));
        line.push(b',');
        line.extend(format_deci(tb.critical));
        assert_eq!(parse_boundaries(&line).ok(), Some(tb));
    }
}
