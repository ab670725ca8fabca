use vstd::prelude::*;

verus! {

/// The balance command on one axis, as the coil driver reads it: the sign of
/// the controller output and its rounded magnitude in PWM counts.
#[derive(Clone, Copy, Debug, PartialEq, Eq, Structural)]
pub struct AxisDrive {
    /// The controller output is positive (its sign bit is clear).
    pub positive: bool,
    /// The rounded magnitude of the controller output, in PWM counts.
    pub magnitude: u32,
}

/// Duty cycles of the four balance coil channels.
#[derive(Clone, Copy, Debug, PartialEq, Eq, Structural)]
pub struct BalanceDuty {
    /// Channel 1: pulls on +y, pushes on -y.
    pub ch1: u32,
    /// Channel 2: pulls on +x, pushes on -x.
    pub ch2: u32,
    /// Channel 3: pushes on +y, pulls on -y.
    pub ch3: u32,
    /// Channel 4: pushes on +x, pulls on -x.
    pub ch4: u32,
}

/// `duty` is `magnitude` cut at `max_duty`: it exceeds neither, and it is
/// one of them.
pub open spec fn saturates(duty: u32, magnitude: u32, max_duty: u32) -> bool {
    &&& duty <= magnitude
    &&& duty <= max_duty
    &&& (duty == magnitude || duty == max_duty)
}

/// The smaller of two counts.
pub open spec fn min_u32(a: u32, b: u32) -> u32 {
    if a <= b {
        a
    } else {
        b
    }
}

/// The duty a command is driven with: its magnitude, cut at the timer's
/// maximum duty.
pub open spec fn axis_duty(d: AxisDrive, max_duty: u32) -> u32 {
    min_u32(d.magnitude, max_duty)
}

/// The channel duties for the commands on both axes. A positive x command
/// drives channel 4 and silences channel 2, a negative one the reverse;
/// likewise channel 3 and channel 1 for y.
pub open spec fn balance_duty_spec(x: AxisDrive, y: AxisDrive, max_duty: u32) -> BalanceDuty {
    let xd = axis_duty(x, max_duty);
    let yd = axis_duty(y, max_duty);
    BalanceDuty {
        ch1: if y.positive { 0 } else { yd },
        ch2: if x.positive { 0 } else { xd },
        ch3: if y.positive { yd } else { 0 },
        ch4: if x.positive { xd } else { 0 },
    }
}

/// Maps the balance commands onto the four coil channels; `max_duty` is the
/// PWM timer's maximum duty.
pub fn balance_duty(x: AxisDrive, y: AxisDrive, max_duty: u32) -> (d: BalanceDuty)
    ensures
        d == balance_duty_spec(x, y, max_duty),
        x.positive ==> d.ch2 == 0 && saturates(d.ch4, x.magnitude, max_duty),
        !x.positive ==> d.ch4 == 0 && saturates(d.ch2, x.magnitude, max_duty),
        y.positive ==> d.ch1 == 0 && saturates(d.ch3, y.magnitude, max_duty),
        !y.positive ==> d.ch3 == 0 && saturates(d.ch1, y.magnitude, max_duty),
{
    let x_duty = clamp_duty(x.magnitude, max_duty);
    let (ch2, ch4) = if x.positive {
        (0, x_duty)
    } else {
        (x_duty, 0)
    };
    let y_duty = clamp_duty(y.magnitude, max_duty);
    let (ch1, ch3) = if y.positive {
        (0, y_duty)
    } else {
        (y_duty, 0)
    };
    BalanceDuty { ch1, ch2, ch3, ch4 }
}

/// A magnitude cut at the maximum duty.
fn clamp_duty(magnitude: u32, max_duty: u32) -> (d: u32)
    ensures
        d == min_u32(magnitude, max_duty),
{
    if magnitude < max_duty {
        magnitude
    } else {
        max_duty
    }
}

/// The two coils of a pair are never driven against each other: on each
/// axis at most one of the opposing channels carries a duty, and no channel
/// exceeds the timer's maximum duty.
pub proof fn lemma_opposing_channels_exclusive(x: AxisDrive, y: AxisDrive, max_duty: u32)
    ensures
        ({
            let d = balance_duty_spec(x, y, max_duty);
            &&& d.ch1 == 0 || d.ch3 == 0
            &&& d.ch2 == 0 || d.ch4 == 0
            &&& d.ch1 <= max_duty && d.ch2 <= max_duty && d.ch3 <= max_duty && d.ch4 <= max_duty
        }),
{
}

/// A command within the timer's range is applied as it is, on the channel
/// its sign selects.
pub proof fn lemma_command_in_range_applied(x: AxisDrive, y: AxisDrive, max_duty: u32)
    requires
        x.magnitude <= max_duty,
        y.magnitude <= max_duty,
    ensures
        ({
            let d = balance_duty_spec(x, y, max_duty);
            &&& (if x.positive { d.ch4 } else { d.ch2 }) == x.magnitude
            &&& (if y.positive { d.ch3 } else { d.ch1 }) == y.magnitude
        }),
{
}

/// The duty the height coil is started with: four fifths of the timer's
/// maximum duty, dividing first.
pub fn height_start_duty(max_duty: u32) -> (d: u32)
    ensures
        d == max_duty / 5 * 4,
        d <= max_duty,
{
    max_duty / 5 * 4
}

/// For every magnitude, the sign alone selects the coil of each pair: the
/// selected channel carries the magnitude cut at the maximum duty and the
/// opposing channel is off.
pub proof fn lemma_sign_selects_channel(x: AxisDrive, y: AxisDrive, max_duty: u32)
    ensures
        ({
            let d = balance_duty_spec(x, y, max_duty);
            &&& x.positive ==> d.ch2 == 0 && saturates(d.ch4, x.magnitude, max_duty)
            &&& !x.positive ==> d.ch4 == 0 && saturates(d.ch2, x.magnitude, max_duty)
            &&& y.positive ==> d.ch1 == 0 && saturates(d.ch3, y.magnitude, max_duty)
            &&& !y.positive ==> d.ch3 == 0 && saturates(d.ch1, y.magnitude, max_duty)
        }),
{
}

/// A saturated command drives its channel at exactly the maximum duty.
pub proof fn lemma_saturated_command_at_max(x: AxisDrive, y: AxisDrive, max_duty: u32)
    ensures
        ({
            let d = balance_duty_spec(x, y, max_duty);
            &&& x.magnitude >= max_duty ==> (if x.positive { d.ch4 } else { d.ch2 }) == max_duty
            &&& y.magnitude >= max_duty ==> (if y.positive { d.ch3 } else { d.ch1 }) == max_duty
        }),
{
}

} // verus!
