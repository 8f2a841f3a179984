//! The record of tuning parameters, its defaults and its overrides.

use vstd::prelude::*;
use vstd::arithmetic::power2::lemma2_to64;
use crate::single::Single;

verus! {

/// The nine tuning parameters. Every field is always present, and no field
/// constrains another.
#[derive(Clone, Copy, Debug, PartialEq, Eq, Structural)]
pub struct Config {
    /// Encoder ticks per centimetre of travel.
    pub ticks_per_cm: u32,
    /// Distance between the wheels, in encoder ticks.
    pub track_width_ticks: u32,
    /// Drive level below which the wheels do not start to turn.
    pub static_friction: Single,
    /// Proportional gain of the turning controller.
    pub kp_turn: Single,
    /// Proportional gain of the heading-hold controller.
    pub kp_hold: Single,
    /// Proportional gain of the straight-line controller.
    pub kp_straight: Single,
    /// Proportional gain of the velocity controller.
    pub kp_velocity: Single,
    /// Seconds taken to reach the target turning speed.
    pub turn_accel_time: Single,
    /// Seconds taken to reach the target straight-line speed.
    pub straight_accel_time: Single,
}

/// New values for some of the parameters. `None` leaves a parameter as it is;
/// it never resets it.
#[derive(Clone, Copy, Debug, PartialEq, Eq, Structural)]
pub struct Overrides {
    pub ticks_per_cm: Option<u32>,
    pub track_width_ticks: Option<u32>,
    pub static_friction: Option<Single>,
    pub kp_turn: Option<Single>,
    pub kp_hold: Option<Single>,
    pub kp_straight: Option<Single>,
    pub kp_velocity: Option<Single>,
    pub turn_accel_time: Option<Single>,
    pub straight_accel_time: Option<Single>,
}

/// The value a parameter takes when `new` is applied over `current`.
pub open spec fn chosen<T>(new: Option<T>, current: T) -> T {
    match new {
        Some(value) => value,
        None => current,
    }
}

impl Config {
    /// The record that a first run starts from.
    pub open spec fn defaults() -> Config {
        Config {
            ticks_per_cm: 13,
            track_width_ticks: 201,
            static_friction: Single { bits: 0x420C_0000 },
            kp_turn: Single { bits: 0x3F00_0000 },
            kp_hold: Single { bits: 0x40A0_0000 },
            kp_straight: Single { bits: 0x3FC0_0000 },
            kp_velocity: Single { bits: 0x40A0_0000 },
            turn_accel_time: Single { bits: 0x3E80_0000 },
            straight_accel_time: Single { bits: 0x3F00_0000 },
        }
    }

    /// This record with every override that is present put in place of the
    /// parameter it names.
    pub open spec fn overridden(self, overrides: Overrides) -> Config {
        Config {
            ticks_per_cm: chosen(overrides.ticks_per_cm, self.ticks_per_cm),
            track_width_ticks: chosen(overrides.track_width_ticks, self.track_width_ticks),
            static_friction: chosen(overrides.static_friction, self.static_friction),
            kp_turn: chosen(overrides.kp_turn, self.kp_turn),
            kp_hold: chosen(overrides.kp_hold, self.kp_hold),
            kp_straight: chosen(overrides.kp_straight, self.kp_straight),
            kp_velocity: chosen(overrides.kp_velocity, self.kp_velocity),
            turn_accel_time: chosen(overrides.turn_accel_time, self.turn_accel_time),
            straight_accel_time: chosen(overrides.straight_accel_time, self.straight_accel_time),
        }
    }

    /// Replaces each parameter for which `overrides` holds a value, and
    /// leaves the others untouched. Nothing is checked across parameters.
    pub fn apply(&mut self, overrides: &Overrides)
        ensures
            *final(self) == old(self).overridden(*overrides),
    {
        if let Some(value) = overrides.ticks_per_cm {
            self.ticks_per_cm = value;
        }
        if let Some(value) = overrides.track_width_ticks {
            self.track_width_ticks = value;
        }
        if let Some(value) = overrides.static_friction {
            self.static_friction = value;
        }
        if let Some(value) = overrides.kp_turn {
            self.kp_turn = value;
        }
        if let Some(value) = overrides.kp_hold {
            self.kp_hold = value;
        }
        if let Some(value) = overrides.kp_straight {
            self.kp_straight = value;
        }
        if let Some(value) = overrides.kp_velocity {
            self.kp_velocity = value;
        }
        if let Some(value) = overrides.turn_accel_time {
            self.turn_accel_time = value;
        }
        if let Some(value) = overrides.straight_accel_time {
            self.straight_accel_time = value;
        }
    }
}

impl Default for Config {
    /// The record that a first run starts from.
    fn default() -> (config: Config)
        ensures
            config == Config::defaults(),
    {
        Config {
            ticks_per_cm: 13,
            track_width_ticks: 201,
            static_friction: Single::from_bits(0x420C_0000),
            kp_turn: Single::from_bits(0x3F00_0000),
            kp_hold: Single::from_bits(0x40A0_0000),
            kp_straight: Single::from_bits(0x3FC0_0000),
            kp_velocity: Single::from_bits(0x40A0_0000),
            turn_accel_time: Single::from_bits(0x3E80_0000),
            straight_accel_time: Single::from_bits(0x3F00_0000),
        }
    }
}

/// The defaults are 13 ticks per centimetre, a track 201 ticks wide, a
/// static friction of 35, gains of 1/2 for turning, 5 for holding a heading,
/// 3/2 for going straight and 5 for velocity, and 1/4 s and 1/2 s to get up
/// to speed in a turn and on a straight.
pub proof fn lemma_default_values()
    ensures
        Config::defaults().ticks_per_cm == 13,
        Config::defaults().track_width_ticks == 201,
        Config::defaults().static_friction.is_ratio(35, 1),
        Config::defaults().kp_turn.is_ratio(1, 2),
        Config::defaults().kp_hold.is_ratio(5, 1),
        Config::defaults().kp_straight.is_ratio(3, 2),
        Config::defaults().kp_velocity.is_ratio(5, 1),
        Config::defaults().turn_accel_time.is_ratio(1, 4),
        Config::defaults().straight_accel_time.is_ratio(1, 2),
{
    lemma2_to64();
}

impl Overrides {
    /// Whether every override is absent.
    pub open spec fn is_empty(self) -> bool {
        &&& self.ticks_per_cm is None
        &&& self.track_width_ticks is None
        &&& self.static_friction is None
        &&& self.kp_turn is None
        &&& self.kp_hold is None
        &&& self.kp_straight is None
        &&& self.kp_velocity is None
        &&& self.turn_accel_time is None
        &&& self.straight_accel_time is None
    }

    /// The overrides that change nothing.
    pub fn none() -> (overrides: Overrides)
        ensures
            overrides.is_empty(),
    {
        Overrides {
            ticks_per_cm: None,
            track_width_ticks: None,
            static_friction: None,
            kp_turn: None,
            kp_hold: None,
            kp_straight: None,
            kp_velocity: None,
            turn_accel_time: None,
            straight_accel_time: None,
        }
    }
}

/// Overrides that are all absent leave every parameter as it is.
pub proof fn lemma_empty_overrides_change_nothing(config: Config, overrides: Overrides)
    requires
        overrides.is_empty(),
    ensures
        config.overridden(overrides) == config,
{
}

/// An override that is present takes effect whatever the record held, and
/// applying the same overrides a second time changes nothing more.
pub proof fn lemma_overrides_take_effect(config: Config, overrides: Overrides)
    ensures
        ({
            let after = config.overridden(overrides);
            &&& overrides.ticks_per_cm matches Some(value) ==> after.ticks_per_cm == value
            &&& overrides.track_width_ticks matches Some(value) ==> after.track_width_ticks == value
            &&& overrides.static_friction matches Some(value) ==> after.static_friction == value
            &&& overrides.kp_turn matches Some(value) ==> after.kp_turn == value
            &&& overrides.kp_hold matches Some(value) ==> after.kp_hold == value
            &&& overrides.kp_straight matches Some(value) ==> after.kp_straight == value
            &&& overrides.kp_velocity matches Some(value) ==> after.kp_velocity == value
            &&& overrides.turn_accel_time matches Some(value) ==> after.turn_accel_time == value
            &&& overrides.straight_accel_time matches Some(value) ==> after.straight_accel_time
                == value
            &&& after.overridden(overrides) == after
        }),
{
}

} // verus!
