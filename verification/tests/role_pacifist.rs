#![allow(unused_imports)]

use game_engine::roles::pacifist::Pacifist;
use game_engine::roles::{DayAction, DayContext, NightAction, NightContext, NightFact, RoleBehavior, RoleState};
use game_engine::{PlayerId, Team};

fn ctx(toggle_choice: bool) -> DayContext<'static> {
    DayContext {
        alive: &[PlayerId(1), PlayerId(2)][..],
        self_id: PlayerId(1),
        chosen_target: None,
        toggle_choice,
    }
}

#[test]
fn pacifist_can_veto_the_lynch_once() {
    let pacifist = Pacifist;
    let mut state = RoleState::default();
    assert_eq!(pacifist.day_action(&ctx(true), &mut state), vec![DayAction::Pacify]);
    assert_eq!(pacifist.day_action(&ctx(true), &mut state), vec![]);
}

#[test]
fn pacifist_lets_the_lynch_happen_if_they_decline() {
    let pacifist = Pacifist;
    let mut state = RoleState::default();
    assert_eq!(pacifist.day_action(&ctx(false), &mut state), vec![]);
}
