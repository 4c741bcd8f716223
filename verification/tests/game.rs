use game_engine::game::{after_phase, first_step, player_states, resolved_winner, survivors, GameOutcome, GameStep, Phase, WinOutcome};
use game_engine::orchestrator::NightPlayer;
use game_engine::{KillMethod, PlayerId, Role, Team};

fn p(id: u64, role: Role) -> NightPlayer {
    NightPlayer { id: PlayerId(id), role }
}

#[test]
fn the_dead_leave_the_living_in_order() {
    let alive = vec![p(1, Role::Wolf), p(2, Role::Villager), p(3, Role::Seer), p(4, Role::Villager)];
    let deaths = vec![(PlayerId(2), KillMethod::Eat), (PlayerId(4), KillMethod::LoverDied)];
    assert_eq!(survivors(&alive, &deaths), vec![p(1, Role::Wolf), p(3, Role::Seer)]);
    assert_eq!(survivors(&alive, &[]), alive);
}

#[test]
fn player_states_mark_who_is_alive() {
    let everyone = vec![p(1, Role::Wolf), p(2, Role::Tanner)];
    let alive = vec![p(1, Role::Wolf)];
    let states = player_states(&everyone, &alive);
    assert_eq!(states.len(), 2);
    assert_eq!((states[0].id, states[0].role, states[0].alive), (1, Role::Wolf, true));
    assert_eq!((states[1].id, states[1].role, states[1].alive), (2, Role::Tanner, false));
}

#[test]
fn only_a_team_win_ends_the_game() {
    assert_eq!(resolved_winner(WinOutcome::Team(Team::Wolf)), Some(WinOutcome::Team(Team::Wolf)));
    assert_eq!(resolved_winner(WinOutcome::RngDependent), None);
    assert_eq!(resolved_winner(WinOutcome::InsufficientData), None);
    assert_eq!(resolved_winner(WinOutcome::Unimplemented("no tie-breaker")), None);
    let outcome = GameOutcome { winner: WinOutcome::Team(Team::Lovers), rounds_played: 1 };
    assert_eq!(outcome.rounds_played, 1);
}

const CAP: &str = "max_rounds reached without a resolved winner (likely repeated tied votes)";

/// Drives the steps against the win checks of successive phases.
fn play_out(max_rounds: u32, checks: &[WinOutcome]) -> (GameOutcome, Vec<(u32, Phase)>) {
    let mut played = Vec::new();
    let mut step = first_step(max_rounds);
    loop {
        match step {
            GameStep::Over(o) => return (o, played),
            GameStep::Play { round, phase } => {
                let check = checks.get(played.len()).copied().unwrap_or(WinOutcome::RngDependent);
                played.push((round, phase));
                step = after_phase(round, phase, max_rounds, check);
            }
        }
    }
}

#[test]
fn a_game_starts_at_the_first_night() {
    assert_eq!(first_step(3), GameStep::Play { round: 1, phase: Phase::Night });
    assert_eq!(first_step(0), GameStep::Over(GameOutcome { winner: WinOutcome::Unimplemented(CAP), rounds_played: 0 }));
}

#[test]
fn night_is_followed_by_day_and_day_by_the_next_night() {
    assert_eq!(after_phase(1, Phase::Night, 3, WinOutcome::InsufficientData), GameStep::Play { round: 1, phase: Phase::Day });
    assert_eq!(after_phase(1, Phase::Day, 3, WinOutcome::RngDependent), GameStep::Play { round: 2, phase: Phase::Night });
}

#[test]
fn a_team_win_ends_the_game_in_its_round() {
    let win = WinOutcome::Team(Team::Village);
    assert_eq!(after_phase(2, Phase::Night, 3, win), GameStep::Over(GameOutcome { winner: win, rounds_played: 2 }));
    let (outcome, played) = play_out(5, &[WinOutcome::RngDependent, WinOutcome::RngDependent, WinOutcome::Team(Team::Wolf)]);
    assert_eq!(outcome, GameOutcome { winner: WinOutcome::Team(Team::Wolf), rounds_played: 2 });
    // the win came at night: round two's day is never played
    assert_eq!(played, vec![(1, Phase::Night), (1, Phase::Day), (2, Phase::Night)]);
}

#[test]
fn the_round_cap_stops_a_game_that_never_resolves() {
    assert_eq!(
        after_phase(3, Phase::Day, 3, WinOutcome::Unimplemented("no winner yet")),
        GameStep::Over(GameOutcome { winner: WinOutcome::Unimplemented(CAP), rounds_played: 3 })
    );
    let (outcome, played) = play_out(2, &[]);
    assert_eq!(outcome, GameOutcome { winner: WinOutcome::Unimplemented(CAP), rounds_played: 2 });
    assert_eq!(played.len(), 4);
}
