use maglev::coil::{balance_duty, height_start_duty, AxisDrive, BalanceDuty};

fn drive(positive: bool, magnitude: u32) -> AxisDrive {
    AxisDrive { positive, magnitude }
}

#[test]
fn positive_commands_drive_channels_three_and_four() {
    let d = balance_duty(drive(true, 100), drive(true, 200), 8400);
    assert_eq!(d, BalanceDuty { ch1: 0, ch2: 0, ch3: 200, ch4: 100 });
}

#[test]
fn negative_commands_drive_channels_one_and_two() {
    let d = balance_duty(drive(false, 100), drive(false, 200), 8400);
    assert_eq!(d, BalanceDuty { ch1: 200, ch2: 100, ch3: 0, ch4: 0 });
}

#[test]
fn mixed_signs() {
    let d = balance_duty(drive(false, 7), drive(true, 9), 8400);
    assert_eq!(d, BalanceDuty { ch1: 0, ch2: 7, ch3: 9, ch4: 0 });
}

#[test]
fn commands_are_cut_at_max_duty() {
    let d = balance_duty(drive(true, 100_000), drive(false, 8401), 8400);
    assert_eq!(d, BalanceDuty { ch1: 8400, ch2: 0, ch3: 0, ch4: 8400 });
    let d = balance_duty(drive(false, u32::MAX), drive(true, 8400), 8400);
    assert_eq!(d, BalanceDuty { ch1: 0, ch2: 8400, ch3: 8400, ch4: 0 });
}

#[test]
fn zero_commands_silence_all_channels() {
    let d = balance_duty(drive(true, 0), drive(false, 0), 8400);
    assert_eq!(d, BalanceDuty { ch1: 0, ch2: 0, ch3: 0, ch4: 0 });
}

#[test]
fn height_start_duty_is_four_fifths() {
    assert_eq!(height_start_duty(8400), 6720);
    assert_eq!(height_start_duty(9), 4);
    assert_eq!(height_start_duty(4), 0);
    assert_eq!(height_start_duty(u32::MAX), u32::MAX / 5 * 4);
}
