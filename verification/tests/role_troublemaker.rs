#![allow(unused_imports)]

use game_engine::roles::troublemaker::Troublemaker;
use game_engine::roles::{DayAction, DayContext, NightAction, NightContext, NightFact, RoleBehavior, RoleState};
use game_engine::{PlayerId, Team};

fn ctx(toggle_choice: bool) -> DayContext<'static> {
    DayContext {
        alive: &[PlayerId(1), PlayerId(2)],
        self_id: PlayerId(1),
        chosen_target: None,
        toggle_choice,
    }
}

#[test]
fn troublemaker_can_stir_trouble_once() {
    let tm = Troublemaker;
    let mut state = RoleState::default();
    assert_eq!(tm.day_action(&ctx(true), &mut state), vec![DayAction::Trouble]);
    assert!(state.primary_used);
    assert_eq!(tm.day_action(&ctx(true), &mut state), vec![]);
}

#[test]
fn troublemaker_declining_does_nothing() {
    let tm = Troublemaker;
    let mut state = RoleState::default();
    assert_eq!(tm.day_action(&ctx(false), &mut state), vec![]);
    assert!(!state.primary_used);
}
