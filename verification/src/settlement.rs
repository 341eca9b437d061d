//! Settlement of a holder's score at the moment they lose possession.
//!
//! Holding inside the safe zone earns points per full interval; holding past
//! the safe limit burns a fraction of the balance per full burn interval.

use vstd::prelude::*;
use vstd::arithmetic::div_mod::{lemma_div_by_multiple, lemma_div_is_ordered};
use vstd::arithmetic::mul::{lemma_mul_left_inequality, lemma_mul_upper_bound};
use crate::config::GameConfig;

verus! {

/// Ticks the token has been held at tick `now` after a transfer at
/// `last_transfer`: the difference, saturating at zero should the host's
/// clock ever report an earlier tick.
pub open spec fn spec_held_ticks(now: u64, last_transfer: u64) -> int {
    if now >= last_transfer {
        now - last_transfer
    } else {
        0
    }
}

/// Points earned for holding `held` ticks inside the safe zone: full
/// intervals times the points per interval.
pub open spec fn spec_earned(cfg: GameConfig, held: int) -> int {
    (held / cfg.interval_ticks as int) * cfg.points_per_interval
}

/// Burn penalty for a balance held `held` ticks, past the safe limit:
/// `burn_rate_bps` basis points of the balance per full burn interval
/// spent in meltdown.
pub open spec fn spec_penalty(cfg: GameConfig, balance: u64, held: int) -> int {
    let periods = (held - cfg.safe_limit_ticks) / cfg.burn_interval_ticks as int;
    balance * (periods * cfg.burn_rate_bps) / 10000
}

/// The balance after settling a holder who held for `held` ticks: inside
/// the safe zone the earnings are added (saturating at the balance type's
/// maximum); in meltdown the penalty is deducted, and a penalty at or above
/// the balance leaves exactly zero, never a negative balance.
pub open spec fn spec_settled(cfg: GameConfig, balance: u64, held: int) -> int {
    if held <= cfg.safe_limit_ticks {
        if balance + spec_earned(cfg, held) <= u64::MAX {
            balance + spec_earned(cfg, held)
        } else {
            u64::MAX as int
        }
    } else {
        if spec_penalty(cfg, balance, held) >= balance {
            0
        } else {
            balance - spec_penalty(cfg, balance, held)
        }
    }
}

/// Computes the held time from the host's current tick, saturating at zero.
pub fn held_ticks(now: u64, last_transfer: u64) -> (r: u64)
    ensures
        r == spec_held_ticks(now, last_transfer),
{
    if now >= last_transfer {
        now - last_transfer
    } else {
        0
    }
}

/// Settles one balance: returns the balance after earning (safe zone) or
/// burning (meltdown), exactly as `spec_settled` states.
pub fn settled_balance(cfg: &GameConfig, balance: u64, held: u64) -> (r: u64)
    requires
        cfg.wf(),
    ensures
        r == spec_settled(*cfg, balance, held as int),
{
    if held <= cfg.safe_limit_ticks {
        let intervals: u64 = held / cfg.interval_ticks;
        proof {
            lemma_mul_upper_bound(
                intervals as int,
                u64::MAX as int,
                cfg.points_per_interval as int,
                u64::MAX as int,
            );
        }
        let earned: u128 = (intervals as u128) * (cfg.points_per_interval as u128);
        let total: u128 = (balance as u128) + earned;
        if total > u64::MAX as u128 {
            u64::MAX
        } else {
            total as u64
        }
    } else {
        let meltdown: u64 = held - cfg.safe_limit_ticks;
        let periods: u64 = meltdown / cfg.burn_interval_ticks;
        proof {
            lemma_mul_upper_bound(
                periods as int,
                u64::MAX as int,
                cfg.burn_rate_bps as int,
                u64::MAX as int,
            );
        }
        let weight: u128 = (periods as u128) * (cfg.burn_rate_bps as u128);
        if weight >= 10000 {
            proof {
                lemma_penalty_covers_balance(*cfg, balance, held as int);
            }
            0
        } else {
            proof {
                lemma_mul_upper_bound(balance as int, u64::MAX as int, weight as int, 9999);
            }
            let penalty: u128 = (balance as u128) * weight / 10000;
            if penalty >= balance as u128 {
                0
            } else {
                (balance as u128 - penalty) as u64
            }
        }
    }
}

/// A burn weight of at least 10000 basis points wipes the whole balance:
/// the computed penalty is then at least the balance itself.
proof fn lemma_penalty_covers_balance(cfg: GameConfig, balance: u64, held: int)
    requires
        cfg.wf(),
        held > cfg.safe_limit_ticks,
        ((held - cfg.safe_limit_ticks) / cfg.burn_interval_ticks as int) * cfg.burn_rate_bps
            >= 10000,
    ensures
        spec_penalty(cfg, balance, held) >= balance,
{
    let weight = ((held - cfg.safe_limit_ticks) / cfg.burn_interval_ticks as int)
        * cfg.burn_rate_bps;
    if balance > 0 {
        lemma_mul_left_inequality(balance as int, 10000, weight);
        lemma_div_is_ordered(balance * 10000, balance * weight, 10000);
        lemma_div_by_multiple(balance as int, 10000);
    }
}

/// Settlement never drives a balance below zero: the settled balance is
/// non-negative for every configuration, balance and holding time.
pub proof fn lemma_settled_nonnegative(cfg: GameConfig, balance: u64, held: int)
    requires
        cfg.wf(),
        held >= 0,
    ensures
        spec_settled(cfg, balance, held) >= 0,
{
    if held <= cfg.safe_limit_ticks {
        lemma_earned_nonnegative(cfg, held);
    }
}

/// Earnings are never negative inside the safe zone.
proof fn lemma_earned_nonnegative(cfg: GameConfig, held: int)
    requires
        cfg.wf(),
        held >= 0,
    ensures
        spec_earned(cfg, held) >= 0,
{
    let intervals = held / cfg.interval_ticks as int;
    vstd::arithmetic::div_mod::lemma_div_pos_is_pos(held, cfg.interval_ticks as int);
    vstd::arithmetic::mul::lemma_mul_nonnegative(intervals, cfg.points_per_interval as int);
}

} // verus!
