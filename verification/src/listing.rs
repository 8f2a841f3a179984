//! The listing of a record that is shown to the user.

use vstd::prelude::*;
use crate::config::Config;
use crate::single::Single;

verus! {

/// The value of one parameter.
#[derive(Clone, Copy, Debug, PartialEq, Eq, Structural)]
pub enum Value {
    /// A whole number of encoder ticks.
    Count(u32),
    /// A single-precision number.
    Number(Single),
}

/// One line of the listing: the parameter's name, then a colon, a space and
/// its value.
#[derive(Clone, Copy, Debug, PartialEq, Eq)]
pub struct Line {
    /// The parameter's name, as it is spelled in the file.
    pub name: &'static str,
    /// The parameter's value.
    pub value: Value,
    /// Whether an empty line follows, to set a group of parameters apart.
    pub blank_after: bool,
}

impl Config {
    /// The nine lines of the listing, in their fixed order: the drive itself,
    /// the four gains, the two acceleration times, with an empty line
    /// between the groups.
    pub open spec fn lines(self) -> Seq<Line> {
        seq![
            Line { name: "ticks_per_cm", value: Value::Count(self.ticks_per_cm), blank_after: false },
            Line {
                name: "track_width_ticks",
                value: Value::Count(self.track_width_ticks),
                blank_after: false,
            },
            Line {
                name: "static_friction",
                value: Value::Number(self.static_friction),
                blank_after: true,
            },
            Line { name: "kp_turn", value: Value::Number(self.kp_turn), blank_after: false },
            Line { name: "kp_hold", value: Value::Number(self.kp_hold), blank_after: false },
            Line { name: "kp_straight", value: Value::Number(self.kp_straight), blank_after: false },
            Line { name: "kp_velocity", value: Value::Number(self.kp_velocity), blank_after: true },
            Line {
                name: "turn_accel_time",
                value: Value::Number(self.turn_accel_time),
                blank_after: false,
            },
            Line {
                name: "straight_accel_time",
                value: Value::Number(self.straight_accel_time),
                blank_after: false,
            },
        ]
    }

    /// The lines of the listing that a [`Request::Print`] asks to be shown.
    ///
    /// [`Request::Print`]: crate::session::Request::Print
    pub fn listing(&self) -> (lines: Vec<Line>)
        ensures
            lines@ == self.lines(),
    {
        let mut lines: Vec<Line> = Vec::new();
        lines.push(
            Line { name: "ticks_per_cm", value: Value::Count(self.ticks_per_cm), blank_after: false },
        );
        lines.push(
            Line {
                name: "track_width_ticks",
                value: Value::Count(self.track_width_ticks),
                blank_after: false,
            },
        );
        lines.push(
            Line {
                name: "static_friction",
                value: Value::Number(self.static_friction),
                blank_after: true,
            },
        );
        lines.push(Line { name: "kp_turn", value: Value::Number(self.kp_turn), blank_after: false });
        lines.push(Line { name: "kp_hold", value: Value::Number(self.kp_hold), blank_after: false });
        lines.push(
            Line { name: "kp_straight", value: Value::Number(self.kp_straight), blank_after: false },
        );
        lines.push(
            Line { name: "kp_velocity", value: Value::Number(self.kp_velocity), blank_after: true },
        );
        lines.push(
            Line {
                name: "turn_accel_time",
                value: Value::Number(self.turn_accel_time),
                blank_after: false,
            },
        );
        lines.push(
            Line {
                name: "straight_accel_time",
                value: Value::Number(self.straight_accel_time),
                blank_after: false,
            },
        );
        lines
    }
}

} // verus!
