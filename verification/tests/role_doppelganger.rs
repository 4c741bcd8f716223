#![allow(unused_imports)]

use game_engine::roles::doppelganger::Doppelganger;
use game_engine::roles::{DayAction, DayContext, NightAction, NightContext, NightFact, RoleBehavior, RoleState};
use game_engine::{PlayerId, Team};

#[test]
fn doppelganger_picks_a_role_model_once() {
    let dg = Doppelganger;
    let ctx = NightContext {
        alive: &[PlayerId(1), PlayerId(2)],
        self_id: PlayerId(1),
        chosen_target: Some(PlayerId(2)),
        heal_target: None,
        poison_target: None,
        love_targets: None,
        wolf_target: None,
        toggle_choice: false,
    };
    let mut state = RoleState::default();
    assert_eq!(
        dg.night_action(&ctx, &mut state),
        vec![NightAction::ChooseRoleModel {
            target: PlayerId(2)
        }]
    );
    assert_eq!(state.remembered_player, Some(PlayerId(2)));
    assert_eq!(dg.night_action(&ctx, &mut state), vec![]);
}

#[test]
fn doppelganger_cannot_pick_itself_as_role_model() {
    let dg = Doppelganger;
    let ctx = NightContext {
        alive: &[PlayerId(1), PlayerId(2)],
        self_id: PlayerId(1),
        chosen_target: Some(PlayerId(1)),
        heal_target: None,
        poison_target: None,
        love_targets: None,
        wolf_target: None,
        toggle_choice: false,
    };
    let mut state = RoleState::default();
    assert_eq!(dg.night_action(&ctx, &mut state), vec![]);
}
