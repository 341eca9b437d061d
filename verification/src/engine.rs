//! The possession-game engine: a deterministic state machine over plain
//! values. The host supplies the current tick and the caller identity and
//! performs the ledger intents; the engine validates, settles scores and
//! commits.
//!
//! Every mutating operation comes in two halves. The plan (named after the
//! operation) borrows the state immutably, checks every precondition and
//! returns either the exact error or the ledger intent to perform. The commit
//! applies the state change and is called only once the host's ledger has
//! accepted the intent; a rejected intent is reported as `LedgerRejected`
//! with nothing committed. Either way a failed operation leaves the state
//! untouched.

use vstd::prelude::*;
use crate::config::GameConfig;
use crate::errors::{CoreError, LedgerIntent};
use crate::registry::UintMap;
use crate::settlement::{held_ticks, settled_balance, spec_held_ticks, spec_settled};

verus! {

/// The single mutable aggregate of the game.
///
/// Participants and uniqueness handles are identifiers supplied by the host;
/// zero is the empty identity (and the unregistered handle). Ticks are the
/// host's discrete time unit. Generation ids start at 1.
pub struct TheArbitrumCore {
    /// Deployment constants; fixed for the engine's lifetime.
    pub config: GameConfig,
    /// Identity allowed to reset the game and register handles.
    pub admin: u64,
    /// Holder of the active generation's token; never zero once initialized.
    pub current_holder: u64,
    /// Holder before the last transfer; zero until a transfer occurs and
    /// after each respawn.
    pub previous_holder: u64,
    /// Tick of the last possession change of the active generation.
    pub last_transfer_tick: u64,
    /// Tick of the last committed operation that moved the token.
    pub last_activity_tick: u64,
    /// Id of the currently live token generation.
    pub active_generation_id: u64,
    /// Total generations ever created; never below `active_generation_id`.
    pub generation_counter: u64,
    /// Whether one-time setup has happened.
    pub initialized: bool,
    /// Whether the game is enabled; set by `initialize`.
    pub active: bool,
    /// Accrued score per participant.
    pub points: UintMap,
    /// Uniqueness handle per participant; zero means unregistered.
    pub fids: UintMap,
    /// Last holder of each retired generation; zero while a generation lives.
    pub dead_holders: UintMap,
}

impl TheArbitrumCore {
    /// The engine's invariant, preserved by every commit: once initialized,
    /// the token is held by a real participant who is not also the previous
    /// holder, the admin is a real participant, and the active generation id
    /// lies between 1 and the generation counter.
    pub open spec fn wf(self) -> bool {
        &&& self.config.wf()
        &&& self.initialized ==> {
            &&& self.admin != 0
            &&& self.current_holder != 0
            &&& self.current_holder != self.previous_holder
            &&& 1 <= self.active_generation_id <= self.generation_counter
        }
    }

    /// Score currently credited to `participant`.
    pub open spec fn spec_points(self, participant: u64) -> u64 {
        self.points.spec_get(participant)
    }

    /// Uniqueness handle of `participant`; zero means unregistered.
    pub open spec fn spec_fid(self, participant: u64) -> u64 {
        self.fids.spec_get(participant)
    }

    /// Recorded last holder of generation `generation`; zero while it lives.
    pub open spec fn spec_dead_holder(self, generation: u64) -> u64 {
        self.dead_holders.spec_get(generation)
    }

    /// Ticks the active generation has been held at tick `now`.
    pub open spec fn spec_held(self, now: u64) -> int {
        spec_held_ticks(now, self.last_transfer_tick)
    }

    /// Meltdown: held strictly past the safe limit.
    pub open spec fn spec_is_melting(self, now: u64) -> bool {
        self.spec_held(now) > self.config.safe_limit_ticks
    }

    /// Respawn gate: held strictly past the safe limit plus the phoenix
    /// cooldown.
    pub open spec fn spec_can_respawn(self, now: u64) -> bool {
        self.spec_held(now) > self.config.safe_limit_ticks + self.config.phoenix_cooldown_ticks
    }

    /// Balance the current holder ends with when settled at tick `now`.
    pub open spec fn spec_settled_holder_balance(self, now: u64) -> int {
        spec_settled(self.config, self.spec_points(self.current_holder), self.spec_held(now))
    }

    /// A fresh engine: configured, not yet initialized, everything zero.
    pub fn new(config: GameConfig) -> (r: TheArbitrumCore)
        requires
            config.wf(),
        ensures
            r.wf(),
            r.config == config,
            !r.initialized,
            !r.active,
            r.admin == 0,
            r.current_holder == 0,
            r.previous_holder == 0,
            r.last_transfer_tick == 0,
            r.last_activity_tick == 0,
            r.active_generation_id == 0,
            r.generation_counter == 0,
            forall|p: u64| r.spec_points(p) == 0,
            forall|p: u64| r.spec_fid(p) == 0,
            forall|g: u64| r.spec_dead_holder(g) == 0,
    {
        TheArbitrumCore {
            config,
            admin: 0,
            current_holder: 0,
            previous_holder: 0,
            last_transfer_tick: 0,
            last_activity_tick: 0,
            active_generation_id: 0,
            generation_counter: 0,
            initialized: false,
            active: false,
            points: UintMap::new(),
            fids: UintMap::new(),
            dead_holders: UintMap::new(),
        }
    }

    // === Plans ===

    /// Outcome of planning one-time setup.
    pub open spec fn spec_initialize_plan(self, sender: u64) -> Result<LedgerIntent, CoreError> {
        if self.initialized {
            Err(CoreError::AlreadyInitialized)
        } else {
            Ok(LedgerIntent::Mint { owner: sender, generation: 1 })
        }
    }

    /// Plans one-time setup: mints the first generation to the caller, who
    /// becomes the admin. Fails `AlreadyInitialized` on a second attempt.
    pub fn initialize(&self, sender: u64) -> (r: Result<LedgerIntent, CoreError>)
        ensures
            r == self.spec_initialize_plan(sender),
    {
        if self.initialized {
            Err(CoreError::AlreadyInitialized)
        } else {
            Ok(LedgerIntent::Mint { owner: sender, generation: 1 })
        }
    }

    /// Precondition check of a voluntary pass from `sender` to `to`.
    pub open spec fn spec_pass_check(self, sender: u64, to: u64) -> Result<(), CoreError> {
        if sender != self.current_holder {
            Err(CoreError::NotHolder)
        } else if to == 0 {
            Err(CoreError::ZeroTarget)
        } else if to == sender {
            Err(CoreError::AlreadyHolding)
        } else if to == self.previous_holder {
            Err(CoreError::PreviousHolder)
        } else if self.spec_fid(sender) == self.spec_fid(to) && self.spec_fid(sender) > 0 {
            Err(CoreError::DuplicateIdentity)
        } else {
            Ok(())
        }
    }

    /// Outcome of planning a pass.
    pub open spec fn spec_pass_plan(self, sender: u64, to: u64) -> Result<LedgerIntent, CoreError> {
        match self.spec_pass_check(sender, to) {
            Ok(()) => Ok(
                LedgerIntent::Transfer { from: sender, to, generation: self.active_generation_id },
            ),
            Err(e) => Err(e),
        }
    }

    /// Plans the voluntary handoff of the token from `sender` to `to`.
    ///
    /// Fails `NotHolder` unless `sender` holds the token, `ZeroTarget` on the
    /// empty identity, `AlreadyHolding` on a pass to oneself, `PreviousHolder`
    /// on an immediate pass-back, and `DuplicateIdentity` when sender and
    /// target share a non-zero uniqueness handle.
    pub fn pass_the_core(&self, sender: u64, to: u64) -> (r: Result<LedgerIntent, CoreError>)
        ensures
            r == self.spec_pass_plan(sender, to),
    {
        if sender != self.current_holder {
            return Err(CoreError::NotHolder);
        }
        if to == 0 {
            return Err(CoreError::ZeroTarget);
        }
        if to == sender {
            return Err(CoreError::AlreadyHolding);
        }
        if to == self.previous_holder {
            return Err(CoreError::PreviousHolder);
        }
        let sender_fid = self.fids.get(sender);
        let to_fid = self.fids.get(to);
        if sender_fid == to_fid && sender_fid > 0 {
            return Err(CoreError::DuplicateIdentity);
        }
        Ok(LedgerIntent::Transfer { from: sender, to, generation: self.active_generation_id })
    }

    /// Precondition check of a forced seizure by `sender` at tick `now`.
    pub open spec fn spec_grab_check(self, sender: u64, now: u64) -> Result<(), CoreError> {
        if !self.spec_is_melting(now) {
            Err(CoreError::StillStable)
        } else if sender == self.current_holder {
            Err(CoreError::AlreadyHolding)
        } else {
            Ok(())
        }
    }

    /// Outcome of planning a grab.
    pub open spec fn spec_grab_plan(self, sender: u64, now: u64) -> Result<LedgerIntent, CoreError> {
        match self.spec_grab_check(sender, now) {
            Ok(()) => Ok(
                (LedgerIntent::Transfer {
                    from: self.current_holder,
                    to: sender,
                    generation: self.active_generation_id,
                }),
            ),
            Err(e) => Err(e),
        }
    }

    /// Plans the seizure of a melting token by `sender`.
    ///
    /// Fails `StillStable` while the holder is inside the safe limit and
    /// `AlreadyHolding` when the holder grabs at their own token. A grab has
    /// deliberately no previous-holder or duplicate-handle check: it is the
    /// penalty action that punishes stalling, open to anyone else.
    pub fn grab_core(&self, sender: u64, now: u64) -> (r: Result<LedgerIntent, CoreError>)
        ensures
            r == self.spec_grab_plan(sender, now),
    {
        if !self.is_melting(now) {
            return Err(CoreError::StillStable);
        }
        if sender == self.current_holder {
            return Err(CoreError::AlreadyHolding);
        }
        Ok(
            LedgerIntent::Transfer {
                from: self.current_holder,
                to: sender,
                generation: self.active_generation_id,
            },
        )
    }

    /// Precondition check of a phoenix respawn at tick `now`.
    pub open spec fn spec_spawn_check(self, now: u64) -> Result<(), CoreError> {
        if !self.spec_is_melting(now) {
            Err(CoreError::StillStable)
        } else if !self.spec_can_respawn(now) {
            Err(CoreError::CooldownActive)
        } else {
            Ok(())
        }
    }

    /// Outcome of planning a respawn initiated by `sender`.
    pub open spec fn spec_spawn_plan(self, sender: u64, now: u64) -> Result<LedgerIntent, CoreError> {
        match self.spec_spawn_check(now) {
            Ok(()) => Ok(
                (LedgerIntent::Mint {
                    owner: sender,
                    generation: (self.generation_counter + 1) as u64,
                }),
            ),
            Err(e) => Err(e),
        }
    }

    /// Plans the phoenix respawn: minting the next generation to `sender`
    /// once the active one is confirmed abandoned.
    ///
    /// Fails `StillStable` inside the safe limit and `CooldownActive` during
    /// the grace window in which the token can still be grabbed.
    pub fn spawn_new_core(&self, sender: u64, now: u64) -> (r: Result<LedgerIntent, CoreError>)
        requires
            self.config.wf(),
            self.generation_counter < u64::MAX,
        ensures
            r == self.spec_spawn_plan(sender, now),
    {
        if !self.is_melting(now) {
            return Err(CoreError::StillStable);
        }
        if !self.can_spawn_new_core(now) {
            return Err(CoreError::CooldownActive);
        }
        Ok(LedgerIntent::Mint { owner: sender, generation: self.generation_counter + 1 })
    }

    /// Precondition check of an admin reset requested by `sender` at `now`.
    pub open spec fn spec_admin_reset_check(self, sender: u64, now: u64) -> Result<(), CoreError> {
        if sender != self.admin {
            Err(CoreError::NotAdmin)
        } else if spec_held_ticks(now, self.last_activity_tick)
            < self.config.inactivity_limit_ticks {
            Err(CoreError::InsufficientInactivity)
        } else {
            Ok(())
        }
    }

    /// Outcome of planning an admin reset.
    pub open spec fn spec_admin_reset_plan(self, sender: u64, now: u64) -> Result<
        LedgerIntent,
        CoreError,
    > {
        match self.spec_admin_reset_check(sender, now) {
            Ok(()) => Ok(
                (LedgerIntent::Mint {
                    owner: sender,
                    generation: (self.generation_counter + 1) as u64,
                }),
            ),
            Err(e) => Err(e),
        }
    }

    /// Plans the privileged reset: like a respawn, but gated by global
    /// inactivity rather than per-generation meltdown and cooldown.
    ///
    /// Fails `NotAdmin` for anyone but the admin and `InsufficientInactivity`
    /// before `inactivity_limit_ticks` have passed without activity.
    pub fn admin_reset(&self, sender: u64, now: u64) -> (r: Result<LedgerIntent, CoreError>)
        requires
            self.generation_counter < u64::MAX,
        ensures
            r == self.spec_admin_reset_plan(sender, now),
    {
        if sender != self.admin {
            return Err(CoreError::NotAdmin);
        }
        let inactivity = held_ticks(now, self.last_activity_tick);
        if inactivity < self.config.inactivity_limit_ticks {
            return Err(CoreError::InsufficientInactivity);
        }
        Ok(LedgerIntent::Mint { owner: sender, generation: self.generation_counter + 1 })
    }

    // === Commits ===

    /// Commits one-time setup once the ledger has minted generation 1 to
    /// `sender`: `sender` becomes admin and first holder, both clocks start
    /// at `now`, and the game turns active.
    pub fn commit_initialize(&mut self, sender: u64, now: u64)
        requires
            old(self).wf(),
            !old(self).initialized,
            sender != 0,
        ensures
            final(self).wf(),
            final(self).config == old(self).config,
            final(self).admin == sender,
            final(self).current_holder == sender,
            final(self).previous_holder == 0,
            final(self).last_transfer_tick == now,
            final(self).last_activity_tick == now,
            final(self).active_generation_id == 1,
            final(self).generation_counter == 1,
            final(self).initialized,
            final(self).active,
            forall|p: u64| final(self).spec_points(p) == old(self).spec_points(p),
            forall|p: u64| final(self).spec_fid(p) == old(self).spec_fid(p),
            forall|g: u64| final(self).spec_dead_holder(g) == old(self).spec_dead_holder(g),
    {
        self.admin = sender;
        self.current_holder = sender;
        self.previous_holder = 0;
        self.last_transfer_tick = now;
        self.last_activity_tick = now;
        self.active_generation_id = 1;
        self.generation_counter = 1;
        self.initialized = true;
        self.active = true;
    }

    /// Commits a planned pass once the ledger has moved the token: settles
    /// the sender's score for the time held, records them as previous holder
    /// and hands possession to `to` at tick `now`.
    pub fn commit_pass(&mut self, sender: u64, to: u64, now: u64)
        requires
            old(self).wf(),
            old(self).initialized,
            old(self).spec_pass_check(sender, to) is Ok,
        ensures
            final(self).wf(),
            final(self).config == old(self).config,
            final(self).admin == old(self).admin,
            final(self).current_holder == to,
            final(self).previous_holder == sender,
            final(self).current_holder != final(self).previous_holder,
            final(self).last_transfer_tick == now,
            final(self).last_activity_tick == now,
            final(self).active_generation_id == old(self).active_generation_id,
            final(self).generation_counter == old(self).generation_counter,
            final(self).initialized == old(self).initialized,
            final(self).active == old(self).active,
            final(self).spec_points(sender) == old(self).spec_settled_holder_balance(now),
            forall|p: u64|
                p != sender ==> final(self).spec_points(p) == old(self).spec_points(p),
            forall|p: u64| final(self).spec_fid(p) == old(self).spec_fid(p),
            forall|g: u64| final(self).spec_dead_holder(g) == old(self).spec_dead_holder(g),
    {
        let held = held_ticks(now, self.last_transfer_tick);
        let balance = self.points.get(sender);
        let settled = settled_balance(&self.config, balance, held);
        self.points.set(sender, settled);
        self.previous_holder = sender;
        self.current_holder = to;
        self.last_transfer_tick = now;
        self.last_activity_tick = now;
    }

    /// Commits a planned grab once the ledger has moved the token: settles
    /// (and thereby penalizes) the melted holder, records them as previous
    /// holder and hands possession to `sender` at tick `now`.
    pub fn commit_grab(&mut self, sender: u64, now: u64)
        requires
            old(self).wf(),
            old(self).initialized,
            old(self).spec_grab_check(sender, now) is Ok,
            sender != 0,
        ensures
            final(self).wf(),
            final(self).config == old(self).config,
            final(self).admin == old(self).admin,
            final(self).current_holder == sender,
            final(self).previous_holder == old(self).current_holder,
            final(self).current_holder != final(self).previous_holder,
            final(self).last_transfer_tick == now,
            final(self).last_activity_tick == now,
            final(self).active_generation_id == old(self).active_generation_id,
            final(self).generation_counter == old(self).generation_counter,
            final(self).initialized == old(self).initialized,
            final(self).active == old(self).active,
            final(self).spec_points(old(self).current_holder) == old(
                self,
            ).spec_settled_holder_balance(now),
            forall|p: u64|
                p != old(self).current_holder ==> final(self).spec_points(p) == old(
                    self,
                ).spec_points(p),
            forall|p: u64| final(self).spec_fid(p) == old(self).spec_fid(p),
            forall|g: u64| final(self).spec_dead_holder(g) == old(self).spec_dead_holder(g),
    {
        let holder = self.current_holder;
        let held = held_ticks(now, self.last_transfer_tick);
        let balance = self.points.get(holder);
        let settled = settled_balance(&self.config, balance, held);
        self.points.set(holder, settled);
        self.previous_holder = holder;
        self.current_holder = sender;
        self.last_transfer_tick = now;
        self.last_activity_tick = now;
    }

    /// Commits a planned respawn once the ledger has minted the next
    /// generation to `sender`: records the abandoned generation's last holder
    /// in the death registry, makes the freshly minted id the active one and
    /// hands it to `sender` with a cleared previous holder at tick `now`.
    pub fn commit_spawn(&mut self, sender: u64, now: u64)
        requires
            old(self).wf(),
            old(self).initialized,
            old(self).spec_spawn_check(now) is Ok,
            sender != 0,
            old(self).generation_counter < u64::MAX,
        ensures
            final(self).wf(),
            final(self).config == old(self).config,
            final(self).admin == old(self).admin,
            final(self).current_holder == sender,
            final(self).previous_holder == 0,
            final(self).last_transfer_tick == now,
            final(self).last_activity_tick == now,
            final(self).active_generation_id == old(self).generation_counter + 1,
            final(self).generation_counter == old(self).generation_counter + 1,
            final(self).active_generation_id > old(self).active_generation_id,
            final(self).initialized == old(self).initialized,
            final(self).active == old(self).active,
            final(self).spec_dead_holder(old(self).active_generation_id) == old(
                self,
            ).current_holder,
            forall|g: u64|
                g != old(self).active_generation_id ==> final(self).spec_dead_holder(g) == old(
                    self,
                ).spec_dead_holder(g),
            forall|p: u64| final(self).spec_points(p) == old(self).spec_points(p),
            forall|p: u64| final(self).spec_fid(p) == old(self).spec_fid(p),
    {
        let retired = self.active_generation_id;
        let last_holder = self.current_holder;
        self.dead_holders.set(retired, last_holder);
        let fresh = self.generation_counter + 1;
        self.active_generation_id = fresh;
        self.generation_counter = fresh;
        self.current_holder = sender;
        self.previous_holder = 0;
        self.last_transfer_tick = now;
        self.last_activity_tick = now;
    }

    /// Commits a planned admin reset once the ledger has minted the next
    /// generation to the admin: the same state change as a respawn.
    pub fn commit_admin_reset(&mut self, sender: u64, now: u64)
        requires
            old(self).wf(),
            old(self).initialized,
            old(self).spec_admin_reset_check(sender, now) is Ok,
            old(self).generation_counter < u64::MAX,
        ensures
            final(self).wf(),
            final(self).config == old(self).config,
            final(self).admin == old(self).admin,
            final(self).current_holder == sender,
            final(self).previous_holder == 0,
            final(self).last_transfer_tick == now,
            final(self).last_activity_tick == now,
            final(self).active_generation_id == old(self).generation_counter + 1,
            final(self).generation_counter == old(self).generation_counter + 1,
            final(self).active_generation_id > old(self).active_generation_id,
            final(self).initialized == old(self).initialized,
            final(self).active == old(self).active,
            final(self).spec_dead_holder(old(self).active_generation_id) == old(
                self,
            ).current_holder,
            forall|g: u64|
                g != old(self).active_generation_id ==> final(self).spec_dead_holder(g) == old(
                    self,
                ).spec_dead_holder(g),
            forall|p: u64| final(self).spec_points(p) == old(self).spec_points(p),
            forall|p: u64| final(self).spec_fid(p) == old(self).spec_fid(p),
    {
        let retired = self.active_generation_id;
        let last_holder = self.current_holder;
        self.dead_holders.set(retired, last_holder);
        let fresh = self.generation_counter + 1;
        self.active_generation_id = fresh;
        self.generation_counter = fresh;
        self.current_holder = sender;
        self.previous_holder = 0;
        self.last_transfer_tick = now;
        self.last_activity_tick = now;
    }

    // === Identity registry ===

    /// Binds the uniqueness handle `fid` to `participant`. Admin-only; an
    /// existing binding is overwritten without any cross-participant check,
    /// by design: collusion is detected at transfer time, not here.
    pub fn register_fid(&mut self, sender: u64, participant: u64, fid: u64) -> (r: Result<
        (),
        CoreError,
    >)
        ensures
            sender != old(self).admin ==> r == Err::<(), CoreError>(CoreError::NotAdmin)
                && *final(self) == *old(self),
            sender == old(self).admin ==> {
                &&& r == Ok::<(), CoreError>(())
                &&& final(self).spec_fid(participant) == fid
                &&& forall|p: u64|
                    p != participant ==> final(self).spec_fid(p) == old(self).spec_fid(p)
                &&& final(self).config == old(self).config
                &&& final(self).admin == old(self).admin
                &&& final(self).current_holder == old(self).current_holder
                &&& final(self).previous_holder == old(self).previous_holder
                &&& final(self).last_transfer_tick == old(self).last_transfer_tick
                &&& final(self).last_activity_tick == old(self).last_activity_tick
                &&& final(self).active_generation_id == old(self).active_generation_id
                &&& final(self).generation_counter == old(self).generation_counter
                &&& final(self).initialized == old(self).initialized
                &&& final(self).active == old(self).active
                &&& forall|p: u64| final(self).spec_points(p) == old(self).spec_points(p)
                &&& forall|g: u64|
                    final(self).spec_dead_holder(g) == old(self).spec_dead_holder(g)
            },
            old(self).wf() ==> final(self).wf(),
    {
        if sender != self.admin {
            return Err(CoreError::NotAdmin);
        }
        self.fids.set(participant, fid);
        Ok(())
    }

    // === Views ===

    /// Score credited to `participant`.
    pub fn get_points(&self, participant: u64) -> (r: u64)
        ensures
            r == self.spec_points(participant),
    {
        self.points.get(participant)
    }

    /// Whether the active generation is in meltdown at tick `now`: held
    /// strictly longer than the safe limit.
    pub fn is_melting(&self, now: u64) -> (r: bool)
        ensures
            r == self.spec_is_melting(now),
    {
        let held = held_ticks(now, self.last_transfer_tick);
        held > self.config.safe_limit_ticks
    }

    /// Whether the active generation may be respawned at tick `now`: held
    /// strictly longer than the safe limit plus the phoenix cooldown.
    pub fn can_spawn_new_core(&self, now: u64) -> (r: bool)
        requires
            self.config.wf(),
        ensures
            r == self.spec_can_respawn(now),
    {
        let held = held_ticks(now, self.last_transfer_tick);
        held > self.config.safe_limit_ticks + self.config.phoenix_cooldown_ticks
    }

    /// Id of the currently live generation.
    pub fn active_core(&self) -> (r: u64)
        ensures
            r == self.active_generation_id,
    {
        self.active_generation_id
    }

    /// Last holder of a retired generation (zero while it lives or for an
    /// unknown id).
    pub fn dead_core_holder(&self, generation: u64) -> (r: u64)
        ensures
            r == self.spec_dead_holder(generation),
    {
        self.dead_holders.get(generation)
    }

    /// One-call summary: current holder, previous holder, last transfer
    /// tick, whether melting at `now`, and the active generation id.
    pub fn game_state(&self, now: u64) -> (r: (u64, u64, u64, bool, u64))
        ensures
            r == (
                self.current_holder,
                self.previous_holder,
                self.last_transfer_tick,
                self.spec_is_melting(now),
                self.active_generation_id,
            ),
    {
        let melting = self.is_melting(now);
        (
            self.current_holder,
            self.previous_holder,
            self.last_transfer_tick,
            melting,
            self.active_generation_id,
        )
    }

    // === Security overrides ===

    /// Direct transfers are blocked so that possession only moves through
    /// the game's own operations.
    pub fn transfer_from(&mut self, _from: u64, _to: u64, _token_id: u64) -> (r: Result<
        (),
        CoreError,
    >)
        ensures
            r == Err::<(), CoreError>(CoreError::TransferBlocked),
            *final(self) == *old(self),
    {
        Err(CoreError::TransferBlocked)
    }

    /// Blocked like `transfer_from`.
    pub fn safe_transfer_from(&mut self, _from: u64, _to: u64, _token_id: u64) -> (r: Result<
        (),
        CoreError,
    >)
        ensures
            r == Err::<(), CoreError>(CoreError::TransferBlocked),
            *final(self) == *old(self),
    {
        Err(CoreError::TransferBlocked)
    }

    /// Blocked like `transfer_from`.
    pub fn safe_transfer_from_with_data(
        &mut self,
        _from: u64,
        _to: u64,
        _token_id: u64,
        _data: Vec<u8>,
    ) -> (r: Result<(), CoreError>)
        ensures
            r == Err::<(), CoreError>(CoreError::TransferBlocked),
            *final(self) == *old(self),
    {
        Err(CoreError::TransferBlocked)
    }

    // === Metadata ===

    /// Display name of the token.
    pub fn name(&self) -> (r: String)
        ensures
            r@ == "The Arbitrum Core"@,
    {
        "The Arbitrum Core".to_owned()
    }

    /// Ticker symbol of the token.
    pub fn symbol(&self) -> (r: String)
        ensures
            r@ == "CORE"@,
    {
        "CORE".to_owned()
    }

    /// Metadata document of the token at tick `now`: reports whether the
    /// token is melting.
    pub fn token_uri(&self, now: u64, _token_id: u64) -> (r: String)
        ensures
            self.spec_is_melting(now) ==> r@
                == "{\"name\":\"Core\",\"attributes\":[{\"trait_type\":\"Status\",\"value\":\"MELT\"}]}"@,
            !self.spec_is_melting(now) ==> r@
                == "{\"name\":\"Core\",\"attributes\":[{\"trait_type\":\"Status\",\"value\":\"OK\"}]}"@,
    {
        if self.is_melting(now) {
            "{\"name\":\"Core\",\"attributes\":[{\"trait_type\":\"Status\",\"value\":\"MELT\"}]}".to_owned()
        } else {
            "{\"name\":\"Core\",\"attributes\":[{\"trait_type\":\"Status\",\"value\":\"OK\"}]}".to_owned()
        }
    }
}

} // verus!
