#![allow(unused_imports)]

use game_engine::roles::oracle::Oracle;
use game_engine::roles::{DayAction, DayContext, NightAction, NightContext, NightFact, RoleBehavior, RoleState};
use game_engine::{PlayerId, Team};

#[test]
fn oracle_investigates_a_valid_target() {
    let oracle = Oracle;
    let ctx = NightContext {
        alive: &[PlayerId(1), PlayerId(2)],
        self_id: PlayerId(1),
        chosen_target: Some(PlayerId(2)),
        heal_target: None,
        poison_target: None,
        love_targets: None,
        wolf_target: None,
        toggle_choice: false,
    };
    let mut state = RoleState::default();
    assert_eq!(
        oracle.night_action(&ctx, &mut state),
        vec![NightAction::Investigate {
            target: PlayerId(2)
        }]
    );
}
