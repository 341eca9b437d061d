//! Deployment configuration: the tunable tick constants that govern scoring,
//! meltdown, decay, respawn and inactivity.

use vstd::prelude::*;

verus! {

/// Tunable constants of one deployment of the game.
///
/// All durations are measured in ticks (the host's discrete time unit).
/// `points_per_interval` points are earned for every full `interval_ticks`
/// of safe holding; past `safe_limit_ticks` the holder's balance burns
/// `burn_rate_bps` basis points per full `burn_interval_ticks`;
/// `safe_limit_ticks + phoenix_cooldown_ticks` gates respawn and
/// `inactivity_limit_ticks` gates the admin reset.
#[derive(Clone, Copy, Debug, PartialEq, Eq, Structural)]
pub struct GameConfig {
    pub points_per_interval: u64,
    pub interval_ticks: u64,
    pub safe_limit_ticks: u64,
    pub burn_rate_bps: u64,
    pub burn_interval_ticks: u64,
    pub inactivity_limit_ticks: u64,
    pub phoenix_cooldown_ticks: u64,
}

impl GameConfig {
    /// A usable configuration: the two interval divisors are positive, and the
    /// respawn threshold `safe_limit_ticks + phoenix_cooldown_ticks` fits in a tick.
    pub open spec fn wf(self) -> bool {
        &&& self.interval_ticks > 0
        &&& self.burn_interval_ticks > 0
        &&& self.safe_limit_ticks + self.phoenix_cooldown_ticks <= u64::MAX
    }

    /// Builds a configuration, rejecting one whose divisors are zero or whose
    /// respawn threshold would not fit in a tick.
    pub fn new(
        points_per_interval: u64,
        interval_ticks: u64,
        safe_limit_ticks: u64,
        burn_rate_bps: u64,
        burn_interval_ticks: u64,
        inactivity_limit_ticks: u64,
        phoenix_cooldown_ticks: u64,
    ) -> (r: Option<GameConfig>)
        ensures
            match r {
                Some(c) => {
                    &&& c.wf()
                    &&& c.points_per_interval == points_per_interval
                    &&& c.interval_ticks == interval_ticks
                    &&& c.safe_limit_ticks == safe_limit_ticks
                    &&& c.burn_rate_bps == burn_rate_bps
                    &&& c.burn_interval_ticks == burn_interval_ticks
                    &&& c.inactivity_limit_ticks == inactivity_limit_ticks
                    &&& c.phoenix_cooldown_ticks == phoenix_cooldown_ticks
                },
                None => !(GameConfig {
                    points_per_interval,
                    interval_ticks,
                    safe_limit_ticks,
                    burn_rate_bps,
                    burn_interval_ticks,
                    inactivity_limit_ticks,
                    phoenix_cooldown_ticks,
                }).wf(),
            },
    {
        if interval_ticks == 0 || burn_interval_ticks == 0 {
            return None;
        }
        if safe_limit_ticks > u64::MAX - phoenix_cooldown_ticks {
            return None;
        }
        Some(GameConfig {
            points_per_interval,
            interval_ticks,
            safe_limit_ticks,
            burn_rate_bps,
            burn_interval_ticks,
            inactivity_limit_ticks,
            phoenix_cooldown_ticks,
        })
    }
}

} // verus!
