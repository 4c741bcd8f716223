#![allow(unused_imports)]

use game_engine::roles::wild_child::WildChild;
use game_engine::roles::{DayAction, DayContext, NightAction, NightContext, NightFact, RoleBehavior, RoleState};
use game_engine::{PlayerId, Team};

#[test]
fn wild_child_picks_a_role_model_once() {
    let wc = WildChild;
    let ctx = NightContext {
        alive: &[PlayerId(1), PlayerId(2)],
        self_id: PlayerId(1),
        chosen_target: Some(PlayerId(2)),
        heal_target: None,
        poison_target: None,
        love_targets: None,
        wolf_target: None,
        toggle_choice: false,
    };
    let mut state = RoleState::default();
    assert_eq!(
        wc.night_action(&ctx, &mut state),
        vec![NightAction::ChooseRoleModel {
            target: PlayerId(2)
        }]
    );
    assert_eq!(state.remembered_player, Some(PlayerId(2)));
    // Second night: already picked.
    assert_eq!(wc.night_action(&ctx, &mut state), vec![]);
}

#[test]
fn wild_child_cannot_pick_itself_as_role_model() {
    let wc = WildChild;
    let ctx = NightContext {
        alive: &[PlayerId(1), PlayerId(2)],
        self_id: PlayerId(1),
        chosen_target: Some(PlayerId(1)),
        heal_target: None,
        poison_target: None,
        love_targets: None,
        wolf_target: None,
        toggle_choice: false,
    };
    let mut state = RoleState::default();
    assert_eq!(wc.night_action(&ctx, &mut state), vec![]);
}
