#![allow(unused_imports)]

use game_engine::roles::blacksmith::Blacksmith;
use game_engine::roles::{DayAction, DayContext, NightAction, NightContext, NightFact, RoleBehavior, RoleState};
use game_engine::{PlayerId, Team};

#[test]
fn blacksmith_spreads_silver_to_a_valid_target_once() {
    let bs = Blacksmith;
    let ctx = DayContext {
        alive: &[PlayerId(1), PlayerId(2)],
        self_id: PlayerId(1),
        chosen_target: Some(PlayerId(2)),
        toggle_choice: false,
    };
    let mut state = RoleState::default();
    assert_eq!(
        bs.day_action(&ctx, &mut state),
        vec![DayAction::SpreadSilver {
            target: PlayerId(2)
        }]
    );
    assert_eq!(bs.day_action(&ctx, &mut state), vec![]);
}
