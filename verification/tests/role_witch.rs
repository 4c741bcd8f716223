#![allow(unused_imports)]

use game_engine::roles::witch::Witch;
use game_engine::roles::{DayAction, DayContext, NightAction, NightContext, NightFact, RoleBehavior, RoleState};
use game_engine::{PlayerId, Team};

#[test]
fn witch_can_use_both_potions_the_same_night() {
    let witch = Witch;
    let ctx = NightContext {
        alive: &[PlayerId(1), PlayerId(2), PlayerId(3)],
        self_id: PlayerId(1),
        chosen_target: None,
        heal_target: Some(PlayerId(2)),
        poison_target: Some(PlayerId(3)),
        love_targets: None,
        wolf_target: Some(PlayerId(2)),
        toggle_choice: false,
    };
    let mut state = RoleState::default();
    let actions = witch.night_action(&ctx, &mut state);
    assert_eq!(actions.len(), 2);
    assert!(state.primary_used);
    assert!(state.secondary_used);
}

#[test]
fn witch_cannot_reuse_a_potion_already_spent() {
    let witch = Witch;
    let ctx = NightContext {
        alive: &[PlayerId(1), PlayerId(2)],
        self_id: PlayerId(1),
        chosen_target: None,
        heal_target: Some(PlayerId(2)),
        poison_target: None,
        love_targets: None,
        wolf_target: Some(PlayerId(2)),
        toggle_choice: false,
    };
    let mut state = RoleState {
        primary_used: true,
        secondary_used: false,
        remembered_player: None,
    };
    assert_eq!(witch.night_action(&ctx, &mut state), vec![]);
}

/// The load-bearing test: heal doesn't fire just because a target was
/// chosen — it needs the wolf's target to actually be known and to
/// match. This is what makes `required_facts()` more than decorative.
#[test]
fn witch_cannot_heal_without_a_resolved_wolf_target() {
    let witch = Witch;
    let ctx = NightContext {
        alive: &[PlayerId(1), PlayerId(2)],
        self_id: PlayerId(1),
        chosen_target: None,
        heal_target: Some(PlayerId(2)),
        poison_target: None,
        love_targets: None,
        wolf_target: None,
        toggle_choice: false,
    };
    let mut state = RoleState::default();
    assert_eq!(witch.night_action(&ctx, &mut state), vec![]);
    assert!(!state.primary_used, "potion should not be spent on a no-op");
}

#[test]
fn witch_cannot_heal_someone_other_than_the_wolves_target() {
    let witch = Witch;
    let ctx = NightContext {
        alive: &[PlayerId(1), PlayerId(2), PlayerId(3)],
        self_id: PlayerId(1),
        chosen_target: None,
        heal_target: Some(PlayerId(2)),
        poison_target: None,
        love_targets: None,
        wolf_target: Some(PlayerId(3)),
        toggle_choice: false,
    };
    let mut state = RoleState::default();
    assert_eq!(witch.night_action(&ctx, &mut state), vec![]);
}

#[test]
fn witch_declares_a_dependency_on_the_wolf_target() {
    assert_eq!(Witch.required_facts(), vec![NightFact::WolfTarget]);
}

#[test]
fn witch_is_not_yet_available_to_players() {
    assert!(!Witch.is_available());
}

#[test]
fn each_potion_is_used_once_over_many_nights() {
    let witch = Witch;
    let alive = [PlayerId(1), PlayerId(2), PlayerId(3)];
    let mut state = RoleState::default();
    let mut heals = 0;
    let mut poisons = 0;
    for _night in 0..3 {
        let ctx = NightContext {
            alive: &alive,
            self_id: PlayerId(1),
            chosen_target: None,
            heal_target: Some(PlayerId(2)),
            poison_target: Some(PlayerId(3)),
            love_targets: None,
            wolf_target: Some(PlayerId(2)),
            toggle_choice: false,
        };
        for a in witch.night_action(&ctx, &mut state) {
            match a {
                NightAction::Heal { .. } => heals += 1,
                NightAction::Poison { .. } => poisons += 1,
                _ => {}
            }
        }
        assert!(state.primary_used && state.secondary_used);
    }
    assert_eq!(heals, 1);
    assert_eq!(poisons, 1);
}
