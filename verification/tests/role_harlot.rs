#![allow(unused_imports)]

use game_engine::roles::harlot::Harlot;
use game_engine::roles::{DayAction, DayContext, NightAction, NightContext, NightFact, RoleBehavior, RoleState};
use game_engine::{PlayerId, Team};

#[test]
fn harlot_may_visit_herself_to_stay_home() {
    let harlot = Harlot;
    let ctx = NightContext {
        alive: &[PlayerId(1), PlayerId(2)],
        self_id: PlayerId(1),
        chosen_target: Some(PlayerId(1)),
        heal_target: None,
        poison_target: None,
        love_targets: None,
        wolf_target: None,
        toggle_choice: false,
    };
    let mut state = RoleState::default();
    assert_eq!(
        harlot.night_action(&ctx, &mut state),
        vec![NightAction::Visit {
            visitor: PlayerId(1),
            target: PlayerId(1)
        }]
    );
}

#[test]
fn harlot_cannot_visit_a_dead_player() {
    let harlot = Harlot;
    let ctx = NightContext {
        alive: &[PlayerId(1)],
        self_id: PlayerId(1),
        chosen_target: Some(PlayerId(2)),
        heal_target: None,
        poison_target: None,
        love_targets: None,
        wolf_target: None,
        toggle_choice: false,
    };
    let mut state = RoleState::default();
    assert_eq!(harlot.night_action(&ctx, &mut state), vec![]);
}
