#![allow(unused_imports)]

use game_engine::roles::sandman::Sandman;
use game_engine::roles::{DayAction, DayContext, NightAction, NightContext, NightFact, RoleBehavior, RoleState};
use game_engine::{PlayerId, Team};

fn ctx(toggle_choice: bool) -> NightContext<'static> {
    NightContext {
        alive: &[PlayerId(1), PlayerId(2)][..],
        self_id: PlayerId(1),
        chosen_target: None,
        heal_target: None,
        poison_target: None,
        love_targets: None,
        wolf_target: None,
        toggle_choice,
    }
}

#[test]
fn sandman_can_put_everyone_to_sleep_once() {
    let sandman = Sandman;
    let mut state = RoleState::default();
    assert_eq!(
        sandman.night_action(&ctx(true), &mut state),
        vec![NightAction::SandmanSleep]
    );
    assert!(state.primary_used);
    // Already used - even with toggle_choice true again, no repeat.
    assert_eq!(sandman.night_action(&ctx(true), &mut state), vec![]);
}

#[test]
fn sandman_does_nothing_if_they_decline() {
    let sandman = Sandman;
    let mut state = RoleState::default();
    assert_eq!(sandman.night_action(&ctx(false), &mut state), vec![]);
    assert!(!state.primary_used);
}
