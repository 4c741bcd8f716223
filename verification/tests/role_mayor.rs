#![allow(unused_imports)]

use game_engine::roles::mayor::Mayor;
use game_engine::roles::{DayAction, DayContext, NightAction, NightContext, NightFact, RoleBehavior, RoleState};
use game_engine::{PlayerId, Team};

fn ctx(toggle_choice: bool) -> DayContext<'static> {
    DayContext {
        alive: &[PlayerId(1), PlayerId(2)][..],
        self_id: PlayerId(1),
        chosen_target: None,
        toggle_choice,
    }
}

#[test]
fn mayor_can_reveal_once() {
    let mayor = Mayor;
    let mut state = RoleState::default();
    assert_eq!(mayor.day_action(&ctx(true), &mut state), vec![DayAction::Reveal]);
    assert_eq!(mayor.day_action(&ctx(true), &mut state), vec![]);
}

#[test]
fn mayor_stays_hidden_if_they_decline() {
    let mayor = Mayor;
    let mut state = RoleState::default();
    assert_eq!(mayor.day_action(&ctx(false), &mut state), vec![]);
}
