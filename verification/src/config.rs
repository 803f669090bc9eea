//! The tunable constants of a controller, checked once when it is built.

use vstd::prelude::*;

verus! {

/// Why a configuration was turned down.
#[derive(Clone, Copy, Debug, PartialEq, Eq, Structural)]
pub enum ConfigError {
    /// The first walk frame lies after the last.
    InvertedRange,
    /// The animation interval is zero or negative.
    NonPositiveInterval,
    /// The jump ceiling is negative.
    NegativeJumpHeight,
}

/// The first fault of a configuration, if it has one. The frame range is
/// looked at first, then the interval, then the jump height.
pub open spec fn config_fault(jump_height: int, interval: int, first: nat, last: nat) -> Option<
    ConfigError,
> {
    if first > last {
        Some(ConfigError::InvertedRange)
    } else if interval <= 0 {
        Some(ConfigError::NonPositiveInterval)
    } else if jump_height < 0 {
        Some(ConfigError::NegativeJumpHeight)
    } else {
        None
    }
}

/// The frames of the walk cycle, both ends included. Frame zero is the idle
/// frame and the frame that follows `last`.
#[derive(Clone, Copy, Debug)]
pub struct AnimationRange {
    first: usize,
    last: usize,
}

impl AnimationRange {
    pub closed spec fn first(&self) -> nat {
        self.first as nat
    }

    pub closed spec fn last(&self) -> nat {
        self.last as nat
    }

    /// The first frame does not lie after the last.
    pub open spec fn wf(&self) -> bool {
        self.first() <= self.last() <= usize::MAX
    }

    /// The range from `first` to `last`, unless `first` lies after `last`.
    pub fn new(first: usize, last: usize) -> (range: Result<AnimationRange, ConfigError>)
        ensures
            match range {
                Ok(range) => first <= last && range.wf() && range.first() == first && range.last()
                    == last,
                Err(error) => first > last && error == ConfigError::InvertedRange,
            },
    {
        if first > last {
            Err(ConfigError::InvertedRange)
        } else {
            Ok(AnimationRange { first, last })
        }
    }

    pub fn first_frame(&self) -> (frame: usize)
        ensures
            frame == self.first(),
    {
        self.first
    }

    pub fn last_frame(&self) -> (frame: usize)
        ensures
            frame == self.last(),
    {
        self.last
    }
}

/// A checked set of constants: speeds in whole units per second, the jump
/// ceiling in whole units, the animation interval in nanoseconds.
#[derive(Clone, Copy, Debug)]
pub struct ControllerConfig {
    speed: u32,
    fall_speed: u32,
    jump_height: u64,
    animation_interval: u64,
    range: AnimationRange,
}

impl ControllerConfig {
    pub closed spec fn speed(&self) -> nat {
        self.speed as nat
    }

    pub closed spec fn fall_speed(&self) -> nat {
        self.fall_speed as nat
    }

    pub closed spec fn jump_height(&self) -> nat {
        self.jump_height as nat
    }

    pub closed spec fn animation_interval(&self) -> nat {
        self.animation_interval as nat
    }

    pub closed spec fn range(&self) -> AnimationRange {
        self.range
    }

    /// The range is in order and the interval is positive.
    pub open spec fn wf(&self) -> bool {
        &&& self.range().wf()
        &&& 0 < self.animation_interval() <= u64::MAX
        &&& self.speed() <= u32::MAX
        &&& self.fall_speed() <= u32::MAX
        &&& self.jump_height() <= u64::MAX
    }

    /// Checks the constants and keeps them. A configuration with a fault is
    /// turned down with its first fault, and one without is always accepted.
    pub fn new(
        speed: u32,
        fall_speed: u32,
        jump_height: i64,
        animation_interval: i64,
        first: usize,
        last: usize,
    ) -> (config: Result<ControllerConfig, ConfigError>)
        ensures
            match config {
                Ok(config) => {
                    &&& config_fault(
                        jump_height as int,
                        animation_interval as int,
                        first as nat,
                        last as nat,
                    ).is_none()
                    &&& config.wf()
                    &&& config.speed() == speed
                    &&& config.fall_speed() == fall_speed
                    &&& config.jump_height() == jump_height
                    &&& config.animation_interval() == animation_interval
                    &&& config.range().first() == first
                    &&& config.range().last() == last
                },
                Err(error) => config_fault(
                    jump_height as int,
                    animation_interval as int,
                    first as nat,
                    last as nat,
                ) == Some(error),
            },
    {
        let range = match AnimationRange::new(first, last) {
            Ok(range) => range,
            Err(error) => {
                return Err(error);
            },
        };
        if animation_interval <= 0 {
            return Err(ConfigError::NonPositiveInterval);
        }
        if jump_height < 0 {
            return Err(ConfigError::NegativeJumpHeight);
        }
        Ok(
            ControllerConfig {
                speed,
                fall_speed,
                jump_height: jump_height as u64,
                animation_interval: animation_interval as u64,
                range,
            },
        )
    }

    pub fn speed_per_second(&self) -> (speed: u32)
        ensures
            speed == self.speed(),
    {
        self.speed
    }

    pub fn fall_speed_per_second(&self) -> (speed: u32)
        ensures
            speed == self.fall_speed(),
    {
        self.fall_speed
    }

    pub fn jump_height_units(&self) -> (height: u64)
        ensures
            height == self.jump_height(),
    {
        self.jump_height
    }

    pub fn animation_interval_nanos(&self) -> (nanos: u64)
        ensures
            nanos == self.animation_interval(),
    {
        self.animation_interval
    }

    pub fn animation_range(&self) -> (range: AnimationRange)
        ensures
            range == self.range(),
    {
        self.range
    }
}

} // verus!
