#![allow(unused_imports)]

use game_engine::roles::wolf_cub::WolfCub;
use game_engine::roles::{DayAction, DayContext, NightAction, NightContext, NightFact, RoleBehavior, RoleState};
use game_engine::{PlayerId, Team};

#[test]
fn wolf_cub_votes_for_a_valid_alive_target() {
    let cub = WolfCub;
    let ctx = NightContext {
        alive: &[PlayerId(1), PlayerId(2)],
        self_id: PlayerId(1),
        chosen_target: Some(PlayerId(2)),
        heal_target: None,
        poison_target: None,
        love_targets: None,
        wolf_target: None,
        toggle_choice: false,
    };
    let mut state = RoleState::default();
    assert_eq!(
        cub.night_action(&ctx, &mut state),
        vec![NightAction::EatVote {
            target: PlayerId(2)
        }]
    );
}
