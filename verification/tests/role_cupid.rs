#![allow(unused_imports)]

use game_engine::roles::cupid::Cupid;
use game_engine::roles::{DayAction, DayContext, NightAction, NightContext, NightFact, RoleBehavior, RoleState};
use game_engine::{PlayerId, Team};

#[test]
fn cupid_links_two_distinct_alive_players_once() {
    let cupid = Cupid;
    let ctx = NightContext {
        alive: &[PlayerId(1), PlayerId(2), PlayerId(3)],
        self_id: PlayerId(1),
        chosen_target: None,
        heal_target: None,
        poison_target: None,
        love_targets: Some((PlayerId(2), PlayerId(3))),
        wolf_target: None,
        toggle_choice: false,
    };
    let mut state = RoleState::default();
    assert_eq!(
        cupid.night_action(&ctx, &mut state),
        vec![NightAction::LinkLovers {
            a: PlayerId(2),
            b: PlayerId(3)
        }]
    );
    // Second attempt this game: already used.
    assert_eq!(cupid.night_action(&ctx, &mut state), vec![]);
}

#[test]
fn cupid_cannot_link_a_player_to_themselves() {
    let cupid = Cupid;
    let ctx = NightContext {
        alive: &[PlayerId(1), PlayerId(2)],
        self_id: PlayerId(1),
        chosen_target: None,
        heal_target: None,
        poison_target: None,
        love_targets: Some((PlayerId(2), PlayerId(2))),
        wolf_target: None,
        toggle_choice: false,
    };
    let mut state = RoleState::default();
    assert_eq!(cupid.night_action(&ctx, &mut state), vec![]);
}
