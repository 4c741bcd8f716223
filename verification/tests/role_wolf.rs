#![allow(unused_imports)]

use game_engine::roles::wolf::Wolf;
use game_engine::roles::{DayAction, DayContext, NightAction, NightContext, NightFact, RoleBehavior, RoleState};
use game_engine::{PlayerId, Team};

#[test]
fn wolf_cannot_target_itself() {
    let wolf = Wolf;
    let ctx = NightContext {
        alive: &[PlayerId(1), PlayerId(2)],
        self_id: PlayerId(1),
        chosen_target: Some(PlayerId(1)),
        heal_target: None,
        poison_target: None,
        love_targets: None,
        wolf_target: None,
        toggle_choice: false,
    };
    let mut state = RoleState::default();
    assert_eq!(wolf.night_action(&ctx, &mut state), vec![]);
}

#[test]
fn wolf_votes_for_a_valid_alive_target() {
    let wolf = Wolf;
    let ctx = NightContext {
        alive: &[PlayerId(1), PlayerId(2)],
        self_id: PlayerId(1),
        chosen_target: Some(PlayerId(2)),
        heal_target: None,
        poison_target: None,
        love_targets: None,
        wolf_target: None,
        toggle_choice: false,
    };
    let mut state = RoleState::default();
    assert_eq!(
        wolf.night_action(&ctx, &mut state),
        vec![NightAction::EatVote {
            target: PlayerId(2)
        }]
    );
}
