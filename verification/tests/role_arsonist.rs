#![allow(unused_imports)]

use game_engine::roles::arsonist::Arsonist;
use game_engine::roles::{DayAction, DayContext, NightAction, NightContext, NightFact, RoleBehavior, RoleState};
use game_engine::{PlayerId, Team};

fn ctx(target: Option<PlayerId>, toggle_choice: bool) -> NightContext<'static> {
    NightContext {
        alive: &[PlayerId(1), PlayerId(2)],
        self_id: PlayerId(1),
        chosen_target: target,
        heal_target: None,
        poison_target: None,
        love_targets: None,
        wolf_target: None,
        toggle_choice,
    }
}

#[test]
fn arsonist_can_douse_a_target_any_night() {
    let arsonist = Arsonist;
    let mut state = RoleState::default();
    assert_eq!(
        arsonist.night_action(&ctx(Some(PlayerId(2)), false), &mut state),
        vec![NightAction::Douse {
            target: PlayerId(2)
        }]
    );
    assert_eq!(state.remembered_player, Some(PlayerId(2)));
}

#[test]
fn arsonist_can_detonate_instead() {
    let arsonist = Arsonist;
    let mut state = RoleState::default();
    assert_eq!(
        arsonist.night_action(&ctx(None, true), &mut state),
        vec![NightAction::Detonate]
    );
}
