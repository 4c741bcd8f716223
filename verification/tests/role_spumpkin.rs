#![allow(unused_imports)]

use game_engine::roles::spumpkin::Spumpkin;
use game_engine::roles::{DayAction, DayContext, NightAction, NightContext, NightFact, RoleBehavior, RoleState};
use game_engine::{PlayerId, Team};

fn ctx(target: Option<PlayerId>) -> DayContext<'static> {
    DayContext {
        alive: &[PlayerId(1), PlayerId(2)],
        self_id: PlayerId(1),
        chosen_target: target,
        toggle_choice: false,
    }
}

#[test]
fn spumpkin_can_try_to_detonate_every_day_until_it_lands() {
    let spumpkin = Spumpkin;
    let mut state = RoleState::default();
    assert_eq!(
        spumpkin.day_action(&ctx(Some(PlayerId(2))), &mut state),
        vec![DayAction::Detonate {
            target: PlayerId(2)
        }]
    );
    assert_eq!(
        spumpkin.day_action(&ctx(Some(PlayerId(2))), &mut state),
        vec![DayAction::Detonate {
            target: PlayerId(2)
        }],
        "a failed (60%) attempt isn't a per-game use, unlike Gunner's bullets"
    );
}

#[test]
fn spumpkin_cannot_detonate_itself() {
    let spumpkin = Spumpkin;
    let mut state = RoleState::default();
    assert_eq!(spumpkin.day_action(&ctx(Some(PlayerId(1))), &mut state), vec![]);
}
