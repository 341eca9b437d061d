//! The game's global invariants, stated on their own so a reader finds them
//! in one place. Each holds of every well-formed engine state, i.e. after
//! `TheArbitrumCore::new` and every commit, all of which ensure `wf`.

use vstd::prelude::*;
use crate::engine::TheArbitrumCore;
use crate::settlement::lemma_settled_nonnegative;

verus! {

/// Every points balance is non-negative in every reachable state: balances
/// are unsigned counters, and `lemma_settlement_nonnegative` shows that no
/// settlement computes a value below zero to store.
pub proof fn lemma_balances_nonnegative(engine: TheArbitrumCore, participant: u64)
    ensures
        engine.spec_points(participant) >= 0,
{
}

/// No settlement at any tick drives the current holder's balance below
/// zero: a penalty at or above the balance leaves exactly zero.
pub proof fn lemma_settlement_nonnegative(engine: TheArbitrumCore, now: u64)
    requires
        engine.wf(),
    ensures
        engine.spec_settled_holder_balance(now) >= 0,
{
    lemma_settled_nonnegative(
        engine.config,
        engine.spec_points(engine.current_holder),
        engine.spec_held(now),
    );
}

/// Once initialized, the current and previous holder always differ: the
/// token never sits with the participant it just came from.
pub proof fn lemma_holders_distinct(engine: TheArbitrumCore)
    requires
        engine.wf(),
        engine.initialized,
    ensures
        engine.current_holder != engine.previous_holder,
{
}

/// The respawn gate is two-staged: whenever a generation may be respawned it
/// is already in meltdown, so the grace window in which the token can still
/// be grabbed always precedes its death.
pub proof fn lemma_respawn_implies_melting(engine: TheArbitrumCore, now: u64)
    requires
        engine.wf(),
        engine.spec_can_respawn(now),
    ensures
        engine.spec_is_melting(now),
{
}

/// Once initialized, the generation counter always dominates the active
/// generation id, which is at least 1. Together with the commits of
/// `commit_spawn` and `commit_admin_reset`, whose new active id is the old
/// counter plus one, this makes the active generation id strictly increase
/// across successive respawns.
pub proof fn lemma_generation_within_counter(engine: TheArbitrumCore)
    requires
        engine.wf(),
        engine.initialized,
    ensures
        1 <= engine.active_generation_id <= engine.generation_counter,
{
}

} // verus!
