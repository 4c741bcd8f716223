use game_engine::roles::{behavior_for, DayAction, DayContext, NightAction, NightContext, NightFact, RoleBehavior, RoleState, Unimplemented};
use game_engine::{PlayerId, Role, Team};

fn night(chosen: Option<PlayerId>) -> NightContext<'static> {
    NightContext {
        alive: &[PlayerId(1), PlayerId(2), PlayerId(3)],
        self_id: PlayerId(1),
        chosen_target: chosen,
        heal_target: None,
        poison_target: None,
        love_targets: None,
        wolf_target: None,
        toggle_choice: false,
    }
}

#[test]
fn every_wolf_muscle_role_votes_to_eat_and_is_on_the_wolf_team() {
    for role in [Role::Wolf, Role::AlphaWolf, Role::WolfCub, Role::Lycan, Role::SnowWolf] {
        let b = behavior_for(role);
        assert_eq!(b.team(), Team::Wolf);
        assert!(role.is_wolf_muscle());
        let mut st = RoleState::default();
        assert_eq!(
            b.night_action(&night(Some(PlayerId(2))), &mut st),
            vec![NightAction::EatVote { target: PlayerId(2) }]
        );
        assert_eq!(st, RoleState::default());
    }
    assert!(!Role::Sorcerer.is_wolf_muscle());
    assert_eq!(Role::Sorcerer.team(), Team::Wolf);
}

#[test]
fn teams_of_the_solo_roles() {
    assert_eq!(Role::Tanner.team(), Team::Tanner);
    assert_eq!(Role::Cultist.team(), Team::Cult);
    assert_eq!(Role::SerialKiller.team(), Team::SerialKiller);
    assert_eq!(Role::Arsonist.team(), Team::Arsonist);
    assert_eq!(Role::Traitor.team(), Team::Village);
    assert_eq!(Role::Witch.team(), Team::Village);
}

#[test]
fn only_the_witch_needs_a_prior_fact_and_is_held_back() {
    assert_eq!(behavior_for(Role::Witch).required_facts(), vec![NightFact::WolfTarget]);
    assert!(!behavior_for(Role::Witch).is_available());
    assert!(behavior_for(Role::Seer).required_facts().is_empty());
    assert!(behavior_for(Role::Seer).is_available());
}

#[test]
fn passive_roles_do_nothing_day_or_night() {
    for role in [Role::Villager, Role::Tanner, Role::Hunter, Role::Prince, Role::Cursed] {
        let b = behavior_for(role);
        let mut st = RoleState::default();
        assert!(b.night_action(&night(Some(PlayerId(2))), &mut st).is_empty());
        let day = DayContext { alive: &[PlayerId(1), PlayerId(2)], self_id: PlayerId(1), chosen_target: Some(PlayerId(2)), toggle_choice: true };
        assert!(b.day_action(&day, &mut st).is_empty());
        assert_eq!(st, RoleState::default());
    }
}

#[test]
fn a_once_per_game_day_ability_is_spent_only_by_acting() {
    let b = behavior_for(Role::Blacksmith);
    let mut st = RoleState::default();
    let day = DayContext { alive: &[PlayerId(1)], self_id: PlayerId(1), chosen_target: Some(PlayerId(9)), toggle_choice: false };
    assert_eq!(b.day_action(&day, &mut st), Vec::<DayAction>::new());
    assert!(!st.primary_used);
}

#[test]
fn unimplemented_keeps_its_roles_team_and_does_nothing() {
    let u = Unimplemented(Role::Cultist);
    assert_eq!(u.team(), Team::Cult);
    let mut st = RoleState::default();
    assert!(u.night_action(&night(Some(PlayerId(2))), &mut st).is_empty());
}

#[test]
fn guardian_angel_and_harlot_may_name_themselves_but_the_seer_may_not() {
    let mut st = RoleState::default();
    assert_eq!(
        behavior_for(Role::GuardianAngel).night_action(&night(Some(PlayerId(1))), &mut st),
        vec![NightAction::Protect { target: PlayerId(1) }]
    );
    assert!(behavior_for(Role::Seer).night_action(&night(Some(PlayerId(1))), &mut st).is_empty());
}
