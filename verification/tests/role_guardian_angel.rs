#![allow(unused_imports)]

use game_engine::roles::guardian_angel::GuardianAngel;
use game_engine::roles::{DayAction, DayContext, NightAction, NightContext, NightFact, RoleBehavior, RoleState};
use game_engine::{PlayerId, Team};

#[test]
fn guardian_angel_may_protect_herself() {
    let ga = GuardianAngel;
    let ctx = NightContext {
        alive: &[PlayerId(1), PlayerId(2)],
        self_id: PlayerId(1),
        chosen_target: Some(PlayerId(1)),
        heal_target: None,
        poison_target: None,
        love_targets: None,
        wolf_target: None,
        toggle_choice: false,
    };
    let mut state = RoleState::default();
    assert_eq!(
        ga.night_action(&ctx, &mut state),
        vec![NightAction::Protect {
            target: PlayerId(1)
        }]
    );
}

#[test]
fn guardian_angel_cannot_protect_a_dead_player() {
    let ga = GuardianAngel;
    let ctx = NightContext {
        alive: &[PlayerId(1)],
        self_id: PlayerId(1),
        chosen_target: Some(PlayerId(2)),
        heal_target: None,
        poison_target: None,
        love_targets: None,
        wolf_target: None,
        toggle_choice: false,
    };
    let mut state = RoleState::default();
    assert_eq!(ga.night_action(&ctx, &mut state), vec![]);
}
