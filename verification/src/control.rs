//! The control plane's decisions: dynamic admission (capacity is derived
//! from the memory actually available, re-read at most every couple of
//! minutes and only when a game is requested) and restart modes.

use vstd::prelude::*;

verus! {

/// Headroom never allocated into, whatever the share of total memory.
pub const REDLINE_FLOOR_BYTES: u64 = 536870912;

/// The least time between two reads of system memory, in seconds.
pub const MIN_RECHECK_INTERVAL_SECS: u64 = 120;

/// Whether a requested game may start.
#[derive(Debug, Clone, Copy, PartialEq, Eq, Structural)]
pub enum AdmissionDecision {
    Admit,
    Reject { current: usize, capacity: usize },
}

/// Whether capacity must be read again: never read yet, or the last read is
/// at least the minimum interval old.
pub open spec fn should_recheck_spec(elapsed_secs: Option<u64>) -> bool {
    match elapsed_secs {
        None => true,
        Some(e) => e >= MIN_RECHECK_INTERVAL_SECS,
    }
}

/// Whether capacity must be read again, given the whole seconds elapsed
/// since the last read (`None`: never read).
pub fn should_recheck(elapsed_secs: Option<u64>) -> (b: bool)
    ensures
        b == should_recheck_spec(elapsed_secs),
        elapsed_secs is None ==> b,
        elapsed_secs matches Some(e) ==> (b <==> e >= 120),
{
    match elapsed_secs {
        None => true,
        Some(e) => e >= MIN_RECHECK_INTERVAL_SECS,
    }
}

/// Law: memory is read again when it was never read, and otherwise exactly
/// once two minutes (120 s) or more have passed since the last read; so
/// the longer since the last read, the more surely it is read again.
pub proof fn law_recheck_after_two_minutes(e: u64, later: u64)
    ensures
        should_recheck_spec(None),
        should_recheck_spec(Some(e)) <==> e >= 120,
        e <= later && should_recheck_spec(Some(e)) ==> should_recheck_spec(Some(later)),
        MIN_RECHECK_INTERVAL_SECS == 120,
{
}

/// The reserved headroom: the larger of the share of total memory and the
/// floor.
pub open spec fn redline_spec(share_of_total: u64) -> u64 {
    if share_of_total >= REDLINE_FLOOR_BYTES { share_of_total } else { REDLINE_FLOOR_BYTES }
}

/// How many games fit: the memory available above the headroom, divided by
/// the per-game estimate (taken as at least one byte).
pub open spec fn capacity_spec(available: u64, share_of_total: u64, per_game_estimate_bytes: u64) -> int {
    let redline = redline_spec(share_of_total);
    let usable: int = if available >= redline { available - redline } else { 0 };
    let per_game: int = if per_game_estimate_bytes >= 1 { per_game_estimate_bytes as int } else { 1 };
    usable / per_game
}

/// Capacity from a fresh memory reading. `share_of_total` is the reserved
/// share of total memory, already computed in bytes.
pub fn capacity_from(available: u64, share_of_total: u64, per_game_estimate_bytes: u64) -> (c: u64)
    ensures
        c == capacity_spec(available, share_of_total, per_game_estimate_bytes),
{
    let redline = if share_of_total >= REDLINE_FLOOR_BYTES { share_of_total } else { REDLINE_FLOOR_BYTES };
    let usable = available.saturating_sub(redline);
    let per_game = if per_game_estimate_bytes >= 1 { per_game_estimate_bytes } else { 1 };
    usable / per_game
}

/// The admission decision: admit while fewer games run than fit.
pub open spec fn admission_spec(active_games: usize, capacity: usize) -> AdmissionDecision {
    if active_games < capacity {
        AdmissionDecision::Admit
    } else {
        AdmissionDecision::Reject { current: active_games, capacity }
    }
}

/// Decides whether one more game may start.
pub fn admission_decision(active_games: usize, capacity: usize) -> (d: AdmissionDecision)
    ensures
        d == admission_spec(active_games, capacity),
{
    if active_games < capacity {
        AdmissionDecision::Admit
    } else {
        AdmissionDecision::Reject { current: active_games, capacity }
    }
}

/// Law: whoever is admitted would also be admitted with fewer games running
/// or more capacity.
pub proof fn law_admission_monotone(active: usize, fewer: usize, capacity: usize, more: usize)
    requires
        fewer <= active,
        capacity <= more,
        admission_spec(active, capacity) == AdmissionDecision::Admit,
    ensures
        admission_spec(fewer, more) == AdmissionDecision::Admit,
{
}

/// Law: more available memory never lowers capacity, and the headroom is
/// never eaten into: capacity times the per-game estimate stays within the
/// memory above the headroom.
pub proof fn law_capacity_monotone_and_safe(available: u64, more: u64, share: u64, per_game: u64)
    requires
        available <= more,
    ensures
        capacity_spec(available, share, per_game) <= capacity_spec(more, share, per_game),
        per_game >= 1 ==> capacity_spec(available, share, per_game) * per_game + redline_spec(share) <= available
            || capacity_spec(available, share, per_game) == 0,
{
    let r = redline_spec(share);
    let u1: int = if available >= r { available - r } else { 0 };
    let u2: int = if more >= r { more - r } else { 0 };
    let pg: int = if per_game >= 1 { per_game as int } else { 1 };
    assert(u1 <= u2);
    assert(u1 / pg <= u2 / pg) by (nonlinear_arith)
        requires
            0 <= u1 <= u2,
            pg >= 1,
    ;
    assert((u1 / pg) * pg <= u1) by (nonlinear_arith)
        requires
            0 <= u1,
            pg >= 1,
    ;
}

/// How a restart is carried out.
#[derive(Debug, Clone, Copy, PartialEq, Eq, Structural)]
pub enum RestartMode {
    /// Stop admitting, wait for running games to finish, then exit.
    Graceful,
    /// Exit at once, abandoning running games.
    Force,
}

/// Whether a shutdown in this mode waits for running games to drain.
pub fn waits_for_drain(mode: RestartMode) -> (b: bool)
    ensures
        b == (mode == RestartMode::Graceful),
{
    match mode {
        RestartMode::Graceful => true,
        RestartMode::Force => false,
    }
}

/// Seam for a future payment provider, so donations can be added without
/// restructuring command dispatch.
pub trait PaymentProvider {
    fn handle_payment_update(&self, update_json: &str) -> Result<(), String>;
}

} // verus!
