#![allow(unused_imports)]

use game_engine::roles::thief::Thief;
use game_engine::roles::{DayAction, DayContext, NightAction, NightContext, NightFact, RoleBehavior, RoleState};
use game_engine::{PlayerId, Team};

fn ctx(target: Option<PlayerId>) -> NightContext<'static> {
    NightContext {
        alive: &[PlayerId(1), PlayerId(2), PlayerId(3)],
        self_id: PlayerId(1),
        chosen_target: target,
        heal_target: None,
        poison_target: None,
        love_targets: None,
        wolf_target: None,
        toggle_choice: false,
    }
}

#[test]
fn thief_steals_a_role_once() {
    let thief = Thief;
    let mut state = RoleState::default();
    assert_eq!(
        thief.night_action(&ctx(Some(PlayerId(2))), &mut state),
        vec![NightAction::StealRole {
            target: PlayerId(2)
        }]
    );
    assert!(state.primary_used);
    assert_eq!(thief.night_action(&ctx(Some(PlayerId(3))), &mut state), vec![]);
}

#[test]
fn thief_cannot_steal_from_itself() {
    let thief = Thief;
    let mut state = RoleState::default();
    assert_eq!(thief.night_action(&ctx(Some(PlayerId(1))), &mut state), vec![]);
}
