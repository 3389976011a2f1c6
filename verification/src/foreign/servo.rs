//! The servos that move the valves.

use vstd::prelude::*;

use crate::foreign_io::ValveState;
use crate::propulsion::ValveId;

verus! {

/// The two ends of the range of a servo.
#[derive(Copy, Clone, Debug, PartialEq, Eq, Structural)]
pub struct CalibServoValve {
    /// microsecond pwm for which the valve is closed
    pub closed_us: u16,
    /// microsecond pwm for which the valve is opened
    pub opened_us: u16,
}

/// The angle that the servo covers, in tenths of a degree.
pub const TOTAL_ANGLE: u16 = 2700;

/// The angle of a valve that is open this far, in tenths of a degree.
pub open spec fn servo_angle(promille: u16) -> int {
    if 3 * promille < TOTAL_ANGLE {
        3 * promille
    } else {
        TOTAL_ANGLE as int
    }
}

impl CalibServoValve {
    /// How far apart the two ends are.
    pub open spec fn range(self) -> int {
        if self.closed_us < self.opened_us {
            self.opened_us - self.closed_us
        } else {
            self.closed_us - self.opened_us
        }
    }

    /// How far apart the two ends are.
    pub fn us_range(&self) -> (range: u16)
        ensures
            range == self.range(),
    {
        if self.closed_us < self.opened_us {
            self.opened_us - self.closed_us
        } else {
            self.closed_us - self.opened_us
        }
    }

    /// The pulse width this far from the closed end towards the opened one, and no further than
    /// that.
    pub fn pwm_us(&self, us_offset: u16) -> (us: u16)
        ensures
            ({
                let offset = if us_offset < self.range() {
                    us_offset as int
                } else {
                    self.range()
                };
                us == if self.closed_us < self.opened_us {
                    self.closed_us + offset
                } else {
                    self.closed_us - offset
                }
            }),
    {
        let range: u16 = self.us_range();
        let offset: u16 = if us_offset < range {
            us_offset
        } else {
            range
        };
        if self.closed_us < self.opened_us {
            self.closed_us + offset
        } else {
            self.closed_us - offset
        }
    }
}

/// The pulse width for the state of a valve \[us\], between 1000 and 2000.
pub fn valve_state_to_servo_us(state: ValveState, _valve_id: ValveId) -> (us: u16)
    ensures
        us == 1000 + 1000 * servo_angle(state@) / 2700,
        1000 <= us <= 2000,
{
    let servo = CalibServoValve { closed_us: 1000, opened_us: 2000 };
    let angle_deci: u16 = state.promille() * 3;
    let angle_deci: u16 = if angle_deci < TOTAL_ANGLE {
        angle_deci
    } else {
        TOTAL_ANGLE
    };
    let span: u16 = servo.opened_us - servo.closed_us;
    assert(span * angle_deci == 1000 * angle_deci) by (nonlinear_arith)
        requires
            span == 1000,
    ;
    servo.closed_us + ((span as u32 * angle_deci as u32) / TOTAL_ANGLE as u32) as u16
}

/// The further a valve is open, the longer the pulse; a closed valve has the shortest.
pub proof fn law_the_pulse_grows_with_the_opening(a: u16, b: u16)
    requires
        a <= b,
    ensures
        1000 * servo_angle(a) / 2700 <= 1000 * servo_angle(b) / 2700,
        1000 * servo_angle(0) / 2700 == 0,
{
}

} // verus!
