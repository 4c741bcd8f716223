#![allow(unused_imports)]

use game_engine::roles::chemist::Chemist;
use game_engine::roles::{DayAction, DayContext, NightAction, NightContext, NightFact, RoleBehavior, RoleState};
use game_engine::{PlayerId, Team};

fn ctx(target: Option<PlayerId>) -> NightContext<'static> {
    NightContext {
        alive: &[PlayerId(1), PlayerId(2)],
        self_id: PlayerId(1),
        chosen_target: target,
        heal_target: None,
        poison_target: None,
        love_targets: None,
        wolf_target: None,
        toggle_choice: false,
    }
}

#[test]
fn chemist_can_gamble_on_a_target_every_night() {
    let chemist = Chemist;
    let mut state = RoleState::default();
    assert_eq!(
        chemist.night_action(&ctx(Some(PlayerId(2))), &mut state),
        vec![NightAction::Chemistry {
            target: PlayerId(2)
        }]
    );
    assert_eq!(
        chemist.night_action(&ctx(Some(PlayerId(2))), &mut state),
        vec![NightAction::Chemistry {
            target: PlayerId(2)
        }],
        "no per-game usage limit, unlike Gunner or Witch"
    );
}

#[test]
fn chemist_cannot_target_itself() {
    let chemist = Chemist;
    let mut state = RoleState::default();
    assert_eq!(chemist.night_action(&ctx(Some(PlayerId(1))), &mut state), vec![]);
}
