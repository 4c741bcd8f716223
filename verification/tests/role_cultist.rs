#![allow(unused_imports)]

use game_engine::roles::cultist::Cultist;
use game_engine::roles::{DayAction, DayContext, NightAction, NightContext, NightFact, RoleBehavior, RoleState};
use game_engine::{PlayerId, Team};

#[test]
fn cultist_proposes_a_valid_conversion_target() {
    let cultist = Cultist;
    let ctx = NightContext {
        alive: &[PlayerId(1), PlayerId(2)],
        self_id: PlayerId(1),
        chosen_target: Some(PlayerId(2)),
        heal_target: None,
        poison_target: None,
        love_targets: None,
        wolf_target: None,
        toggle_choice: false,
    };
    let mut state = RoleState::default();
    assert_eq!(
        cultist.night_action(&ctx, &mut state),
        vec![NightAction::ConvertVote {
            target: PlayerId(2)
        }]
    );
}

#[test]
fn cultist_cannot_convert_itself() {
    let cultist = Cultist;
    let ctx = NightContext {
        alive: &[PlayerId(1), PlayerId(2)],
        self_id: PlayerId(1),
        chosen_target: Some(PlayerId(1)),
        heal_target: None,
        poison_target: None,
        love_targets: None,
        wolf_target: None,
        toggle_choice: false,
    };
    let mut state = RoleState::default();
    assert_eq!(cultist.night_action(&ctx, &mut state), vec![]);
}
