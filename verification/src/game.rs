//! The game loop's decisions and the bookkeeping between phases. A game is
//! rounds of a night then a day, with a win check after each phase; it ends
//! at the first phase after which a team has won (a win at night skips that
//! round's day), or, as a safety cap, after `max_rounds` rounds with no team
//! win: a round whose eat and lynch votes both tie kills nobody, and without
//! the cap such rounds could repeat forever. The loop itself runs outside
//! the library (`first_step`, then `after_phase` after each phase); here are
//! who is still alive after a phase's deaths, the standing of every player
//! for the win check, and which win-check outcomes end the game.

use vstd::prelude::*;
use crate::orchestrator::NightPlayer;
use crate::types::{KillMethod, PlayerId, PlayerState, Team};

verus! {

/// What the win check says about a game. Only `Team` ends a game: the
/// other outcomes mean "keep playing", and name why no team has won.
#[derive(Debug, Clone, Copy, PartialEq, Eq)]
pub enum WinOutcome {
    Team(Team),
    RngDependent,
    InsufficientData,
    Unimplemented(&'static str),
}

/// How a game ended and after how many rounds.
#[derive(Debug, Clone, Copy, PartialEq, Eq)]
pub struct GameOutcome {
    pub winner: WinOutcome,
    pub rounds_played: u32,
}

/// A phase of a round.
#[derive(Debug, Clone, Copy, PartialEq, Eq, Structural)]
pub enum Phase {
    Night,
    Day,
}

/// What the game does next: play a phase of a round, or stop.
#[derive(Debug, Clone, Copy, PartialEq, Eq)]
pub enum GameStep {
    Play { round: u32, phase: Phase },
    Over(GameOutcome),
}

/// The outcome when the round cap is reached with no team win.
pub open spec fn capped(max_rounds: u32) -> GameStep {
    GameStep::Over(GameOutcome {
        winner: WinOutcome::Unimplemented("max_rounds reached without a resolved winner (likely repeated tied votes)"),
        rounds_played: max_rounds,
    })
}

/// The first step of a game: the first round's night, unless no round may
/// be played at all.
pub open spec fn first_step_spec(max_rounds: u32) -> GameStep {
    if max_rounds == 0 { capped(0) } else { GameStep::Play { round: 1, phase: Phase::Night } }
}

/// The step after a phase of round `round` whose win check gave `outcome`:
/// a team win ends the game after this round; otherwise the night is
/// followed by the day, the day by the next round's night, and the last
/// round's day by the cap.
pub open spec fn after_phase_spec(round: u32, phase: Phase, max_rounds: u32, outcome: WinOutcome) -> GameStep {
    if outcome is Team {
        GameStep::Over(GameOutcome { winner: outcome, rounds_played: round })
    } else if phase == Phase::Night {
        GameStep::Play { round, phase: Phase::Day }
    } else if round < max_rounds {
        GameStep::Play { round: (round + 1) as u32, phase: Phase::Night }
    } else {
        capped(max_rounds)
    }
}

/// Where a game starts.
pub fn first_step(max_rounds: u32) -> (s: GameStep)
    ensures
        s == first_step_spec(max_rounds),
        s matches GameStep::Play { round, .. } ==> 1 <= round <= max_rounds,
{
    if max_rounds == 0 {
        GameStep::Over(GameOutcome {
            winner: WinOutcome::Unimplemented("max_rounds reached without a resolved winner (likely repeated tied votes)"),
            rounds_played: 0,
        })
    } else {
        GameStep::Play { round: 1, phase: Phase::Night }
    }
}

/// Where a game goes after a phase of round `round` (counted from 1) whose
/// win check gave `outcome`.
pub fn after_phase(round: u32, phase: Phase, max_rounds: u32, outcome: WinOutcome) -> (s: GameStep)
    requires
        1 <= round <= max_rounds,
    ensures
        s == after_phase_spec(round, phase, max_rounds, outcome),
        s matches GameStep::Play { round: r, .. } ==> 1 <= r <= max_rounds,
{
    if let WinOutcome::Team(_) = outcome {
        GameStep::Over(GameOutcome { winner: outcome, rounds_played: round })
    } else {
        match phase {
            Phase::Night => GameStep::Play { round, phase: Phase::Day },
            Phase::Day => if round < max_rounds {
                GameStep::Play { round: round + 1, phase: Phase::Night }
            } else {
                GameStep::Over(GameOutcome {
                    winner: WinOutcome::Unimplemented("max_rounds reached without a resolved winner (likely repeated tied votes)"),
                    rounds_played: max_rounds,
                })
            },
        }
    }
}

/// The step a game reaches from `s` when the phases played give the win
/// checks `outcomes`, one per phase (a game that is over stays over).
pub open spec fn play(s: GameStep, max_rounds: u32, outcomes: Seq<WinOutcome>) -> GameStep
    decreases outcomes.len(),
{
    if outcomes.len() == 0 {
        s
    } else {
        match s {
            GameStep::Over(_) => s,
            GameStep::Play { round, phase } => play(after_phase_spec(round, phase, max_rounds, outcomes[0]), max_rounds, outcomes.drop_first()),
        }
    }
}

/// No win check in the list is a team win.
pub open spec fn no_team_win(outcomes: Seq<WinOutcome>) -> bool {
    forall|i: int| 0 <= i < outcomes.len() ==> !(#[trigger] outcomes[i] is Team)
}

/// The phase played `k` phases into a game (from 0): round `k / 2 + 1`, the
/// night when `k` is even.
pub open spec fn phase_at(k: int) -> GameStep {
    GameStep::Play { round: (k / 2 + 1) as u32, phase: if k % 2 == 0 { Phase::Night } else { Phase::Day } }
}

proof fn lemma_play_from(k: int, max_rounds: u32, outcomes: Seq<WinOutcome>)
    requires
        0 <= k < 2 * max_rounds,
        k + outcomes.len() <= 2 * max_rounds,
    ensures
        no_team_win(outcomes) ==> play(phase_at(k), max_rounds, outcomes) == (
            if k + outcomes.len() == 2 * max_rounds { capped(max_rounds) } else { phase_at(k + outcomes.len()) }),
        forall|j: int| 0 <= j < outcomes.len() && (#[trigger] outcomes[j] is Team)
            && no_team_win(outcomes.take(j)) ==> play(phase_at(k), max_rounds, outcomes)
                == GameStep::Over(GameOutcome { winner: outcomes[j], rounds_played: ((k + j) / 2 + 1) as u32 }),
    decreases outcomes.len(),
{
    if outcomes.len() > 0 {
        let rest = outcomes.drop_first();
        let next = after_phase_spec((k / 2 + 1) as u32, if k % 2 == 0 { Phase::Night } else { Phase::Day }, max_rounds, outcomes[0]);
        if !(outcomes[0] is Team) {
            if k + 1 < 2 * max_rounds {
                assert(next == phase_at(k + 1));
                lemma_play_from(k + 1, max_rounds, rest);
            } else {
                assert(next == capped(max_rounds));
                assert(rest.len() == 0);
            }
        }
        assert forall|j: int| 0 <= j < outcomes.len() && (#[trigger] outcomes[j] is Team)
            && no_team_win(outcomes.take(j)) implies play(phase_at(k), max_rounds, outcomes)
                == GameStep::Over(GameOutcome { winner: outcomes[j], rounds_played: ((k + j) / 2 + 1) as u32 }) by {
            if j > 0 {
                assert(outcomes.take(j)[0] == outcomes[0]);
                assert(!(outcomes[0] is Team));
                assert(rest[j - 1] == outcomes[j]);
                assert(no_team_win(rest.take(j - 1))) by {
                    assert forall|i: int| 0 <= i < rest.take(j - 1).len() implies !(#[trigger] rest.take(j - 1)[i] is Team) by {
                        assert(rest.take(j - 1)[i] == outcomes.take(j)[i + 1]);
                    }
                }
                assert(k + 1 < 2 * max_rounds);
            }
        }
        if no_team_win(outcomes) {
            assert(!(outcomes[0] is Team));
            assert(no_team_win(rest)) by {
                assert forall|i: int| 0 <= i < rest.len() implies !(#[trigger] rest[i] is Team) by {
                    assert(rest[i] == outcomes[i + 1]);
                }
            }
        }
    }
}

/// Law: a game of at most `max_rounds` rounds plays night then day, round
/// after round, and stops at the first phase whose win check is a team
/// win, reporting that win and the round it came in (a night win skips
/// that round's day). With no team win, it stops after the last round's
/// day with the cap outcome and `max_rounds` rounds played, so it never
/// runs forever.
pub proof fn law_game_ends_at_first_win_or_cap(max_rounds: u32, outcomes: Seq<WinOutcome>)
    requires
        outcomes.len() == 2 * max_rounds,
    ensures
        no_team_win(outcomes) ==> play(first_step_spec(max_rounds), max_rounds, outcomes) == capped(max_rounds),
        forall|j: int| 0 <= j < outcomes.len() && (#[trigger] outcomes[j] is Team) && no_team_win(outcomes.take(j))
            ==> play(first_step_spec(max_rounds), max_rounds, outcomes)
                == GameStep::Over(GameOutcome { winner: outcomes[j], rounds_played: (j / 2 + 1) as u32 }),
{
    if max_rounds > 0 {
        assert(first_step_spec(max_rounds) == phase_at(0));
        lemma_play_from(0, max_rounds, outcomes);
    }
}

/// `Some(outcome)` only for an actual team win; every other outcome means
/// the game goes on.
pub fn resolved_winner(outcome: WinOutcome) -> (r: Option<WinOutcome>)
    ensures
        r == (if outcome is Team { Some(outcome) } else { None }),
{
    match outcome {
        WinOutcome::Team(t) => Some(WinOutcome::Team(t)),
        _ => None,
    }
}

/// Whether `id` died in the given deaths.
pub open spec fn died(deaths: Seq<(PlayerId, KillMethod)>, id: PlayerId) -> bool {
    exists|i: int| 0 <= i < deaths.len() && (#[trigger] deaths[i]).0 == id
}

/// The players not among the dead, in their order.
pub open spec fn survivors_spec(alive: Seq<NightPlayer>, deaths: Seq<(PlayerId, KillMethod)>) -> Seq<NightPlayer>
    decreases alive.len(),
{
    if alive.len() == 0 {
        Seq::empty()
    } else {
        let rest = survivors_spec(alive.drop_last(), deaths);
        if died(deaths, alive.last().id) { rest } else { rest.push(alive.last()) }
    }
}

fn has_died(deaths: &[(PlayerId, KillMethod)], id: PlayerId) -> (b: bool)
    ensures
        b == died(deaths@, id),
{
    let mut i: usize = 0;
    while i < deaths.len()
        invariant
            0 <= i <= deaths@.len(),
            forall|j: int| 0 <= j < i ==> (#[trigger] deaths@[j]).0 != id,
        decreases deaths@.len() - i,
    {
        if deaths[i].0.0 == id.0 {
            assert(deaths@[i as int].0 == id);
            return true;
        }
        i = i + 1;
    }
    false
}

/// Removes a phase's dead from the living, keeping the others in order.
pub fn survivors(alive: &[NightPlayer], deaths: &[(PlayerId, KillMethod)]) -> (r: Vec<NightPlayer>)
    ensures
        r@ == survivors_spec(alive@, deaths@),
{
    let mut r: Vec<NightPlayer> = Vec::new();
    let mut i: usize = 0;
    while i < alive.len()
        invariant
            0 <= i <= alive@.len(),
            r@ == survivors_spec(alive@.take(i as int), deaths@),
        decreases alive@.len() - i,
    {
        proof {
            assert(alive@.take(i + 1).drop_last() =~= alive@.take(i as int));
            assert(alive@.take(i + 1).last() == alive@[i as int]);
        }
        if !has_died(deaths, alive[i].id) {
            r.push(alive[i]);
        }
        i = i + 1;
    }
    assert(alive@.take(alive@.len() as int) =~= alive@);
    r
}

/// Law: nobody who died survives, and every survivor was alive; those who
/// did not die all survive.
pub proof fn law_survivors(alive: Seq<NightPlayer>, deaths: Seq<(PlayerId, KillMethod)>)
    ensures
        forall|i: int| 0 <= i < survivors_spec(alive, deaths).len() ==> {
            &&& !died(deaths, (#[trigger] survivors_spec(alive, deaths)[i]).id)
            &&& alive.contains(survivors_spec(alive, deaths)[i])
        },
        forall|p: NightPlayer| alive.contains(p) && !died(deaths, p.id) ==> survivors_spec(alive, deaths).contains(p),
        survivors_spec(alive, deaths).len() <= alive.len(),
    decreases alive.len(),
{
    if alive.len() > 0 {
        let init = alive.drop_last();
        law_survivors(init, deaths);
        let rest = survivors_spec(init, deaths);
        let s = survivors_spec(alive, deaths);
        assert forall|i: int| 0 <= i < s.len() implies {
            &&& !died(deaths, (#[trigger] s[i]).id)
            &&& alive.contains(s[i])
        } by {
            if i < rest.len() {
                assert(s[i] == rest[i]);
                let k = choose|k: int| 0 <= k < init.len() && init[k] == rest[i];
                assert(alive[k] == init[k]);
            } else {
                assert(s[i] == alive.last());
                assert(alive[alive.len() - 1] == alive.last());
            }
        }
        assert forall|p: NightPlayer| alive.contains(p) && !died(deaths, p.id) implies s.contains(p) by {
            let k = choose|k: int| 0 <= k < alive.len() && alive[k] == p;
            if k < alive.len() - 1 {
                assert(init[k] == p);
                assert(init.contains(p));
                assert(rest.contains(p));
                let j = choose|j: int| 0 <= j < rest.len() && rest[j] == p;
                assert(s[j] == p);
            } else {
                assert(s[s.len() - 1] == p);
            }
        }
    }
}

/// Whether `id` is among the living.
pub open spec fn is_among(alive: Seq<NightPlayer>, id: PlayerId) -> bool {
    exists|i: int| 0 <= i < alive.len() && (#[trigger] alive[i]).id == id
}

fn among(alive: &[NightPlayer], id: PlayerId) -> (b: bool)
    ensures
        b == is_among(alive@, id),
{
    let mut i: usize = 0;
    while i < alive.len()
        invariant
            0 <= i <= alive@.len(),
            forall|j: int| 0 <= j < i ==> (#[trigger] alive@[j]).id != id,
        decreases alive@.len() - i,
    {
        if alive[i].id.0 == id.0 {
            assert(alive@[i as int].id == id);
            return true;
        }
        i = i + 1;
    }
    false
}

/// The standing of every player who started the game, for the win check:
/// their role, and whether they are still alive.
pub fn player_states(players: &[NightPlayer], alive: &[NightPlayer]) -> (r: Vec<PlayerState>)
    ensures
        r@.len() == players@.len(),
        forall|i: int| 0 <= i < players@.len() ==> (#[trigger] r@[i]).id == players@[i].id.0
            && r@[i].role == players@[i].role
            && r@[i].alive == is_among(alive@, players@[i].id),
{
    let mut r: Vec<PlayerState> = Vec::new();
    let mut i: usize = 0;
    while i < players.len()
        invariant
            0 <= i <= players@.len(),
            r@.len() == i,
            forall|j: int| 0 <= j < i ==> (#[trigger] r@[j]).id == players@[j].id.0
                && r@[j].role == players@[j].role
                && r@[j].alive == is_among(alive@, players@[j].id),
        decreases players@.len() - i,
    {
        let p = players[i];
        r.push(PlayerState { id: p.id.0, role: p.role, alive: among(alive, p.id) });
        i = i + 1;
    }
    r
}

} // verus!
