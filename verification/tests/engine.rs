use arbitrum_core::{CoreError, GameConfig, LedgerIntent, TheArbitrumCore};

// Test deployment: 10 points per 100-tick interval, 900-tick safe limit,
// 5% burn (500 bps) per 50-tick burn interval, 1000-tick inactivity limit,
// 300-tick phoenix cooldown.
fn cfg() -> GameConfig {
    GameConfig::new(10, 100, 900, 500, 50, 1000, 300).unwrap()
}

// Engine initialized by admin 1 at tick 0.
fn engine() -> TheArbitrumCore {
    let mut e = TheArbitrumCore::new(cfg());
    let intent = e.initialize(1).unwrap();
    assert_eq!(intent, LedgerIntent::Mint { owner: 1, generation: 1 });
    e.commit_initialize(1, 0);
    e
}

#[test]
fn config_rejects_zero_interval() {
    assert!(GameConfig::new(10, 0, 900, 500, 50, 1000, 300).is_none());
}

#[test]
fn config_rejects_zero_burn_interval() {
    assert!(GameConfig::new(10, 100, 900, 500, 0, 1000, 300).is_none());
}

#[test]
fn config_rejects_respawn_threshold_overflow() {
    assert!(GameConfig::new(10, 100, u64::MAX, 500, 50, 1000, 1).is_none());
}

#[test]
fn initialize_sets_up_first_generation() {
    let e = engine();
    assert_eq!(e.active_core(), 1);
    assert_eq!(e.generation_counter, 1);
    assert_eq!(e.game_state(0), (1, 0, 0, false, 1));
    assert_eq!(e.get_points(1), 0);
    assert_eq!(e.dead_core_holder(1), 0);
}

#[test]
fn initialize_twice_rejected() {
    let e = engine();
    assert_eq!(e.initialize(2), Err(CoreError::AlreadyInitialized));
}

#[test]
fn pass_hands_over_and_blocks_passback() {
    let mut e = engine();
    let intent = e.pass_the_core(1, 2).unwrap();
    assert_eq!(intent, LedgerIntent::Transfer { from: 1, to: 2, generation: 1 });
    e.commit_pass(1, 2, 10);
    assert_eq!(e.game_state(10), (2, 1, 10, false, 1));
    assert_eq!(e.pass_the_core(2, 1), Err(CoreError::PreviousHolder));
}

#[test]
fn pass_by_non_holder_rejected() {
    let e = engine();
    assert_eq!(e.pass_the_core(2, 3), Err(CoreError::NotHolder));
}

#[test]
fn pass_to_zero_rejected() {
    let e = engine();
    assert_eq!(e.pass_the_core(1, 0), Err(CoreError::ZeroTarget));
}

#[test]
fn pass_to_self_rejected() {
    let e = engine();
    assert_eq!(e.pass_the_core(1, 1), Err(CoreError::AlreadyHolding));
}

#[test]
fn shared_handle_blocks_pass() {
    let mut e = engine();
    assert_eq!(e.register_fid(1, 1, 77), Ok(()));
    assert_eq!(e.register_fid(1, 2, 77), Ok(()));
    assert_eq!(e.pass_the_core(1, 2), Err(CoreError::DuplicateIdentity));
}

#[test]
fn distinct_handles_allow_pass() {
    let mut e = engine();
    assert_eq!(e.register_fid(1, 1, 77), Ok(()));
    assert_eq!(e.register_fid(1, 2, 78), Ok(()));
    assert!(e.pass_the_core(1, 2).is_ok());
}

#[test]
fn unregistered_handles_allow_pass() {
    let e = engine();
    assert!(e.pass_the_core(1, 2).is_ok());
}

#[test]
fn handle_registration_is_admin_only() {
    let mut e = engine();
    assert_eq!(e.register_fid(2, 2, 77), Err(CoreError::NotAdmin));
}

#[test]
fn handle_registration_overwrites() {
    let mut e = engine();
    assert_eq!(e.register_fid(1, 1, 77), Ok(()));
    assert_eq!(e.register_fid(1, 2, 77), Ok(()));
    assert_eq!(e.register_fid(1, 2, 78), Ok(()));
    assert!(e.pass_the_core(1, 2).is_ok());
}

#[test]
fn melting_boundary_at_safe_limit() {
    let e = engine();
    assert!(!e.is_melting(900));
    assert!(e.is_melting(901));
}

#[test]
fn clock_running_backwards_reads_as_zero_held() {
    let mut e = TheArbitrumCore::new(cfg());
    e.commit_initialize(1, 100);
    assert!(!e.is_melting(0));
}

#[test]
fn safe_holding_earns_full_intervals_only() {
    let mut e = engine();
    e.pass_the_core(1, 2).unwrap();
    e.commit_pass(1, 2, 250);
    assert_eq!(e.get_points(1), 20);
    assert_eq!(e.get_points(2), 0);
}

#[test]
fn settlement_earning_formula() {
    let c = cfg();
    assert_eq!(arbitrum_core::settled_balance(&c, 0, 250), 20);
    assert_eq!(arbitrum_core::settled_balance(&c, 7, 99), 7);
    assert_eq!(arbitrum_core::settled_balance(&c, 7, 100), 17);
    assert_eq!(arbitrum_core::settled_balance(&c, 0, 900), 90);
}

#[test]
fn settlement_burn_formula() {
    let c = cfg();
    // One full burn interval past the safe limit: 5% of 100 is 5.
    assert_eq!(arbitrum_core::settled_balance(&c, 100, 950), 95);
    // Less than one full interval in meltdown burns nothing.
    assert_eq!(arbitrum_core::settled_balance(&c, 100, 949), 100);
    // A penalty at or above the balance leaves exactly zero.
    assert_eq!(arbitrum_core::settled_balance(&c, 3, 2000), 0);
    assert_eq!(arbitrum_core::settled_balance(&c, 100, 900 + 20 * 50), 0);
}

#[test]
fn settlement_saturates_at_max_balance() {
    let c = GameConfig::new(u64::MAX, 1, 900, 500, 50, 1000, 300).unwrap();
    assert_eq!(arbitrum_core::settled_balance(&c, 1, 900), u64::MAX);
}

#[test]
fn grab_while_stable_rejected() {
    let e = engine();
    assert_eq!(e.grab_core(2, 900), Err(CoreError::StillStable));
}

#[test]
fn grab_by_holder_rejected() {
    let e = engine();
    assert_eq!(e.grab_core(1, 901), Err(CoreError::AlreadyHolding));
}

#[test]
fn grab_seizes_melting_token_and_penalizes() {
    let mut e = engine();
    e.pass_the_core(1, 2).unwrap();
    e.commit_pass(1, 2, 250);
    // Holder 2 melts; 1 (even as previous holder) may grab at tick 1200:
    // held 950, one burn interval past the limit, but 2 has no points to burn.
    let intent = e.grab_core(1, 1200).unwrap();
    assert_eq!(intent, LedgerIntent::Transfer { from: 2, to: 1, generation: 1 });
    e.commit_grab(1, 1200);
    assert_eq!(e.game_state(1200), (1, 2, 1200, false, 1));
    assert_eq!(e.get_points(2), 0);
}

#[test]
fn grab_burns_the_melted_holders_points() {
    let mut e = engine();
    e.pass_the_core(1, 2).unwrap();
    e.commit_pass(1, 2, 250); // 1 earned 20
    e.pass_the_core(2, 3).unwrap();
    e.commit_pass(2, 3, 500); // 2 earned 20
    e.pass_the_core(3, 1).unwrap();
    e.commit_pass(3, 1, 750); // 3 earned 20
    // 1 holds 950 ticks: one burn interval past the limit, 5% of 20 is 1.
    e.grab_core(2, 1700).unwrap();
    e.commit_grab(2, 1700);
    assert_eq!(e.get_points(1), 19);
}

#[test]
fn spawn_too_early_rejected() {
    let e = engine();
    assert_eq!(e.spawn_new_core(2, 900), Err(CoreError::StillStable));
    assert_eq!(e.spawn_new_core(2, 901), Err(CoreError::CooldownActive));
    assert_eq!(e.spawn_new_core(2, 1200), Err(CoreError::CooldownActive));
}

#[test]
fn spawn_records_death_and_mints_next_generation() {
    let mut e = engine();
    // Holder 1 abandons the token past safe limit plus cooldown.
    let intent = e.spawn_new_core(5, 1201).unwrap();
    assert_eq!(intent, LedgerIntent::Mint { owner: 5, generation: 2 });
    e.commit_spawn(5, 1201);
    assert_eq!(e.dead_core_holder(1), 1);
    assert_eq!(e.active_core(), 2);
    assert_eq!(e.game_state(1201), (5, 0, 1201, false, 2));
}

#[test]
fn generation_ids_strictly_increase() {
    let mut e = engine();
    e.spawn_new_core(5, 1201).unwrap();
    e.commit_spawn(5, 1201);
    let first = e.active_core();
    e.spawn_new_core(6, 1201 + 1201).unwrap();
    e.commit_spawn(6, 1201 + 1201);
    let second = e.active_core();
    assert!(first < second);
    assert_eq!(second, 3);
    assert!(e.active_generation_id <= e.generation_counter);
    assert_eq!(e.dead_core_holder(2), 5);
}

#[test]
fn admin_reset_is_admin_only() {
    let e = engine();
    assert_eq!(e.admin_reset(2, 5000), Err(CoreError::NotAdmin));
}

#[test]
fn admin_reset_needs_inactivity() {
    let mut e = engine();
    e.pass_the_core(1, 2).unwrap();
    e.commit_pass(1, 2, 10);
    assert_eq!(e.admin_reset(1, 1009), Err(CoreError::InsufficientInactivity));
    let intent = e.admin_reset(1, 1010).unwrap();
    assert_eq!(intent, LedgerIntent::Mint { owner: 1, generation: 2 });
    e.commit_admin_reset(1, 1010);
    assert_eq!(e.dead_core_holder(1), 2);
    assert_eq!(e.game_state(1010), (1, 0, 1010, false, 2));
}

#[test]
fn read_operations_do_not_mutate() {
    let e = engine();
    let before = e.game_state(901);
    let _ = e.is_melting(901);
    let _ = e.is_melting(901);
    let _ = e.can_spawn_new_core(901);
    let _ = e.can_spawn_new_core(901);
    let _ = e.get_points(1);
    let _ = e.dead_core_holder(1);
    assert_eq!(e.game_state(901), before);
}

#[test]
fn respawn_gate_boundary() {
    let e = engine();
    assert!(!e.can_spawn_new_core(1200));
    assert!(e.can_spawn_new_core(1201));
}

#[test]
fn direct_transfers_are_blocked() {
    let mut e = engine();
    assert_eq!(e.transfer_from(1, 2, 1), Err(CoreError::TransferBlocked));
    assert_eq!(e.safe_transfer_from(1, 2, 1), Err(CoreError::TransferBlocked));
    assert_eq!(
        e.safe_transfer_from_with_data(1, 2, 1, vec![1, 2]),
        Err(CoreError::TransferBlocked)
    );
    assert_eq!(e.game_state(0), (1, 0, 0, false, 1));
}

#[test]
fn metadata_reports_status() {
    let e = engine();
    assert_eq!(e.name(), "The Arbitrum Core");
    assert_eq!(e.symbol(), "CORE");
    assert_eq!(
        e.token_uri(0, 1),
        "{\"name\":\"Core\",\"attributes\":[{\"trait_type\":\"Status\",\"value\":\"OK\"}]}"
    );
    assert_eq!(
        e.token_uri(901, 1),
        "{\"name\":\"Core\",\"attributes\":[{\"trait_type\":\"Status\",\"value\":\"MELT\"}]}"
    );
}

#[test]
fn balances_default_to_zero_and_update_independently() {
    let mut m = arbitrum_core::UintMap::new();
    assert_eq!(m.get(4), 0);
    m.set(4, 10);
    m.set(9, 3);
    assert_eq!(m.get(4), 10);
    assert_eq!(m.get(9), 3);
    m.set(4, 11);
    assert_eq!(m.get(4), 11);
    assert_eq!(m.get(9), 3);
}
