use game_engine::orchestrator::{majority_eat_target, NightPlayer, NightResolution, Prompt};
use game_engine::roles::{NightAction, RoleState};
use game_engine::{PlayerId, Role};
use std::collections::HashMap;

/// Plays a whole night against answers decided in advance, keyed by
/// (player, prompt); only one-target questions are scripted.
fn run_scripted(
    players: Vec<NightPlayer>,
    answers: &HashMap<(PlayerId, Prompt), PlayerId>,
) -> (Vec<NightAction>, Option<PlayerId>, HashMap<u64, RoleState>) {
    let mut night = NightResolution::start(players, HashMap::new());
    while let Some(q) = night.question() {
        let reply = if q.count != 1 {
            None
        } else {
            answers.get(&(q.player, q.prompt)).copied().map(|p| vec![p])
        };
        night.answer(reply);
    }
    night.finish()
}

const WOLF_A: PlayerId = PlayerId(1);
const WOLF_B: PlayerId = PlayerId(2);
const VICTIM: PlayerId = PlayerId(3);
const WITCH: PlayerId = PlayerId(4);
const SEER: PlayerId = PlayerId(5);

#[test]
fn witch_is_asked_only_after_the_wolves_target_resolves() {
    let players = vec![
        NightPlayer { id: WOLF_A, role: Role::Wolf },
        NightPlayer { id: WOLF_B, role: Role::Wolf },
        NightPlayer { id: VICTIM, role: Role::Villager },
        NightPlayer { id: WITCH, role: Role::Witch },
        NightPlayer { id: SEER, role: Role::Seer },
    ];

    let mut answers = HashMap::new();
    answers.insert((WOLF_A, Prompt::WolfEat), VICTIM);
    answers.insert((WOLF_B, Prompt::WolfEat), VICTIM);
    answers.insert((WITCH, Prompt::WitchHeal), VICTIM);
    answers.insert((SEER, Prompt::SeerCheck), VICTIM);

    let (actions, wolf_target, _states) = run_scripted(players, &answers);

    assert_eq!(wolf_target, Some(VICTIM), "majority wolf vote should resolve");
    assert!(
        actions.contains(&NightAction::EatVote { target: VICTIM }),
        "expected wolf eat votes in the action list: {actions:?}"
    );
    assert!(
        actions.contains(&NightAction::CheckTeam { target: VICTIM }),
        "expected the Seer's independent check to resolve in stage 1: {actions:?}"
    );
    assert!(
        actions.contains(&NightAction::Heal { target: VICTIM }),
        "Witch's heal should fire once the wolf target she depends on is resolved: {actions:?}"
    );
}

#[test]
fn witch_heal_does_not_fire_if_her_choice_disagrees_with_the_resolved_wolf_target() {
    let players = vec![
        NightPlayer { id: WOLF_A, role: Role::Wolf },
        NightPlayer { id: VICTIM, role: Role::Villager },
        NightPlayer { id: WITCH, role: Role::Witch },
    ];

    let mut answers = HashMap::new();
    answers.insert((WOLF_A, Prompt::WolfEat), VICTIM);
    answers.insert((WITCH, Prompt::WitchHeal), PlayerId(99));

    let (actions, wolf_target, _states) = run_scripted(players, &answers);

    assert_eq!(wolf_target, Some(VICTIM));
    assert!(
        !actions.iter().any(|a| matches!(a, NightAction::Heal { .. })),
        "heal shouldn't fire when it targets someone other than the resolved wolf target: {actions:?}"
    );
}

#[test]
fn a_tied_wolf_vote_resolves_to_no_target() {
    let wolf_c = PlayerId(6);
    let other_victim = PlayerId(7);
    let players = vec![
        NightPlayer { id: WOLF_A, role: Role::Wolf },
        NightPlayer { id: wolf_c, role: Role::Wolf },
        NightPlayer { id: VICTIM, role: Role::Villager },
        NightPlayer { id: other_victim, role: Role::Villager },
    ];

    let mut answers = HashMap::new();
    answers.insert((WOLF_A, Prompt::WolfEat), VICTIM);
    answers.insert((wolf_c, Prompt::WolfEat), other_victim);

    let (_actions, wolf_target, _states) = run_scripted(players, &answers);
    assert_eq!(wolf_target, None, "a tied vote should not resolve to either target");
}

#[test]
fn questions_come_in_stage_order_with_the_witch_last() {
    let players = vec![
        NightPlayer { id: WITCH, role: Role::Witch },
        NightPlayer { id: WOLF_A, role: Role::Wolf },
        NightPlayer { id: VICTIM, role: Role::Villager },
        NightPlayer { id: SEER, role: Role::Seer },
    ];
    let mut night = NightResolution::start(players, HashMap::new());
    let mut asked = vec![];
    while let Some(q) = night.question() {
        asked.push((q.player, q.prompt, q.count));
        night.answer(None);
    }
    assert_eq!(
        asked,
        vec![
            (WOLF_A, Prompt::WolfEat, 1),
            (SEER, Prompt::SeerCheck, 1),
            (WITCH, Prompt::WitchHeal, 1),
            (WITCH, Prompt::WitchPoison, 1),
        ]
    );
    let (actions, wolf_target, states) = night.finish();
    assert!(actions.is_empty());
    assert_eq!(wolf_target, None);
    // every player resolved gets a remembered state, even a silent one
    assert_eq!(states.len(), 4);
}

#[test]
fn cupid_is_asked_for_two_distinct_lovers_and_links_them_once() {
    let cupid = PlayerId(10);
    let a = PlayerId(11);
    let b = PlayerId(12);
    let players = vec![
        NightPlayer { id: cupid, role: Role::Cupid },
        NightPlayer { id: a, role: Role::Villager },
        NightPlayer { id: b, role: Role::Villager },
    ];
    let mut night = NightResolution::start(players.clone(), HashMap::new());
    let q = night.question().unwrap();
    assert_eq!((q.player, q.prompt, q.count), (cupid, Prompt::CupidLink, 2));
    night.answer(Some(vec![a, b]));
    assert!(night.question().is_none());
    let (actions, _, states) = night.finish();
    assert_eq!(actions, vec![NightAction::LinkLovers { a, b }]);
    assert!(states[&cupid.0].primary_used);

    // a second night with the kept state: Cupid is asked but links nobody
    let mut second = NightResolution::start(players, states);
    assert_eq!(second.question().unwrap().prompt, Prompt::CupidLink);
    second.answer(Some(vec![a, b]));
    let (actions, _, _) = second.finish();
    assert!(actions.is_empty());
}

#[test]
fn a_malformed_two_target_answer_counts_as_no_answer() {
    let cupid = PlayerId(10);
    let a = PlayerId(11);
    let players = vec![
        NightPlayer { id: cupid, role: Role::Cupid },
        NightPlayer { id: a, role: Role::Villager },
    ];
    let mut night = NightResolution::start(players, HashMap::new());
    night.answer(Some(vec![a, a]));
    let (actions, _, states) = night.finish();
    assert!(actions.is_empty());
    assert!(!states[&cupid.0].primary_used);
}

#[test]
fn a_malformed_one_target_answer_counts_as_no_answer() {
    let players = vec![
        NightPlayer { id: WOLF_A, role: Role::Wolf },
        NightPlayer { id: VICTIM, role: Role::Villager },
    ];
    let mut night = NightResolution::start(players, HashMap::new());
    night.answer(Some(vec![VICTIM, VICTIM]));
    let (actions, wolf_target, _) = night.finish();
    assert!(actions.is_empty());
    assert_eq!(wolf_target, None);
}

#[test]
fn majority_needs_strictly_the_most_votes() {
    let eat = |t: u64| NightAction::EatVote { target: PlayerId(t) };
    assert_eq!(majority_eat_target(&[]), None);
    assert_eq!(majority_eat_target(&[eat(3)]), Some(PlayerId(3)));
    assert_eq!(majority_eat_target(&[eat(3), eat(4)]), None);
    assert_eq!(majority_eat_target(&[eat(3), eat(4), eat(3)]), Some(PlayerId(3)));
    assert_eq!(
        majority_eat_target(&[eat(4), NightAction::Heal { target: PlayerId(4) }, eat(3), eat(4)]),
        Some(PlayerId(4))
    );
    // only eat votes count
    assert_eq!(
        majority_eat_target(&[NightAction::CheckTeam { target: PlayerId(3) }]),
        None
    );
}

#[test]
fn majority_does_not_depend_on_vote_order() {
    let eat = |t: u64| NightAction::EatVote { target: PlayerId(t) };
    let a = [eat(1), eat(2), eat(2), eat(3)];
    let b = [eat(3), eat(2), eat(1), eat(2)];
    assert_eq!(majority_eat_target(&a), majority_eat_target(&b));
    assert_eq!(majority_eat_target(&a), Some(PlayerId(2)));
}

#[test]
fn the_wolf_target_ignores_the_order_of_the_votes() {
    let a = NightAction::EatVote { target: PlayerId(7) };
    let b = NightAction::EatVote { target: PlayerId(8) };
    let c = NightAction::CheckTeam { target: PlayerId(8) };
    let orders = [
        vec![a, b, a, c],
        vec![c, a, a, b],
        vec![b, c, a, a],
        vec![a, c, b, a],
    ];
    for o in orders.iter() {
        assert_eq!(majority_eat_target(o), Some(PlayerId(7)));
    }
}

#[test]
fn a_night_asks_each_question_once_in_order() {
    let players = vec![
        NightPlayer { id: PlayerId(1), role: Role::Wolf },
        NightPlayer { id: PlayerId(2), role: Role::Cupid },
        NightPlayer { id: PlayerId(3), role: Role::Witch },
        NightPlayer { id: PlayerId(4), role: Role::Villager },
        NightPlayer { id: PlayerId(5), role: Role::Seer },
    ];
    let mut states = HashMap::new();
    let outsider = RoleState { primary_used: true, secondary_used: false, remembered_player: Some(PlayerId(1)) };
    states.insert(99u64, outsider);
    let mut night = NightResolution::start(players, states);
    let mut asked = Vec::new();
    while let Some(q) = night.question() {
        asked.push((q.player, q.prompt, q.count));
        night.answer(None);
    }
    assert_eq!(
        asked,
        vec![
            (PlayerId(1), Prompt::WolfEat, 1),
            (PlayerId(2), Prompt::CupidLink, 2),
            (PlayerId(5), Prompt::SeerCheck, 1),
            (PlayerId(3), Prompt::WitchHeal, 1),
            (PlayerId(3), Prompt::WitchPoison, 1),
        ]
    );
    let (actions, target, states) = night.finish();
    assert!(actions.is_empty());
    assert_eq!(target, None);
    assert_eq!(states.get(&99), Some(&outsider));
    for id in 1..=5u64 {
        assert_eq!(states.get(&id), Some(&RoleState::default()));
    }
}

#[test]
fn potions_come_after_every_other_action() {
    let players = vec![
        NightPlayer { id: PlayerId(4), role: Role::Witch },
        NightPlayer { id: PlayerId(1), role: Role::Wolf },
        NightPlayer { id: PlayerId(5), role: Role::Seer },
        NightPlayer { id: PlayerId(3), role: Role::Villager },
    ];
    let mut answers = HashMap::new();
    answers.insert((PlayerId(1), Prompt::WolfEat), PlayerId(3));
    answers.insert((PlayerId(4), Prompt::WitchHeal), PlayerId(3));
    answers.insert((PlayerId(4), Prompt::WitchPoison), PlayerId(5));
    answers.insert((PlayerId(5), Prompt::SeerCheck), PlayerId(1));
    let (actions, target, _) = run_scripted(players, &answers);
    assert_eq!(
        actions,
        vec![
            NightAction::EatVote { target: PlayerId(3) },
            NightAction::CheckTeam { target: PlayerId(1) },
            NightAction::Heal { target: PlayerId(3) },
            NightAction::Poison { target: PlayerId(5) },
        ]
    );
    assert_eq!(target, Some(PlayerId(3)));
}
