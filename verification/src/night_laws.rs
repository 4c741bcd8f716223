//! What a whole night does, whatever the players answer: which questions it
//! asks and in what order, how its actions accumulate, and which role states
//! it touches. A night is driven from its start by answering each question
//! in turn (`night_after`).

use vstd::prelude::*;
use crate::orchestrator::{
    answer_spec, asked, in_stage, initial_model, law_other_actions_keep_target,
    lemma_resolve_keeps_inv, lemma_settle, law_answer_keeps_inv, majority_spec, model_inv,
    night_done, one_target_prompt_spec, question_spec, resolve_player, settle, settled, state_of,
    NightModel, NightPlayer, Prompt, Question,
};
use crate::roles::{night_model, NightAction, RoleState};
use crate::roles::laws::night_once_role;
use crate::types::{PlayerId, Role};

verus! {

/// The questions a player is asked in the given stage: in stage one, Cupid
/// picks two lovers and a role with a single-target question picks one
/// player; in stage two (the Witch) the heal and then the poison question.
pub open spec fn player_questions(p: NightPlayer, stage_two: bool) -> Seq<Question> {
    if !in_stage(p.role, stage_two) {
        Seq::empty()
    } else if stage_two {
        seq![
            Question { player: p.id, prompt: Prompt::WitchHeal, count: 1 },
            Question { player: p.id, prompt: Prompt::WitchPoison, count: 1 },
        ]
    } else if p.role == Role::Cupid {
        seq![Question { player: p.id, prompt: Prompt::CupidLink, count: 2 }]
    } else {
        match one_target_prompt_spec(p.role) {
            Some(prompt) => seq![Question { player: p.id, prompt, count: 1 }],
            None => Seq::empty(),
        }
    }
}

/// The questions of one stage, for the players from index `from` on, in
/// the players' order.
pub open spec fn stage_questions(players: Seq<NightPlayer>, from: int, stage_two: bool) -> Seq<Question>
    decreases players.len() - from,
{
    if from < 0 || from >= players.len() {
        Seq::empty()
    } else {
        player_questions(players[from], stage_two) + stage_questions(players, from + 1, stage_two)
    }
}

/// Every question a night asks, in order: all of stage one, then stage two.
pub open spec fn night_questions(players: Seq<NightPlayer>) -> Seq<Question> {
    stage_questions(players, 0, false) + stage_questions(players, 0, true)
}

/// The questions a night in progress has yet to ask.
pub open spec fn remaining_questions(m: NightModel) -> Seq<Question> {
    if !m.stage_two {
        stage_questions(m.players, m.next, false) + stage_questions(m.players, 0, true)
    } else if m.heal is Some {
        stage_questions(m.players, m.next, true).drop_first()
    } else {
        stage_questions(m.players, m.next, true)
    }
}

/// The night after answering each reply in turn (a finished night takes no
/// more answers).
pub open spec fn night_after(m: NightModel, replies: Seq<Option<Seq<PlayerId>>>) -> NightModel
    decreases replies.len(),
{
    if replies.len() == 0 || night_done(m) {
        m
    } else {
        night_after(answer_spec(m, replies[0]), replies.drop_first())
    }
}

/// The questions asked while answering each reply in turn.
pub open spec fn asked_over(m: NightModel, replies: Seq<Option<Seq<PlayerId>>>) -> Seq<Question>
    decreases replies.len(),
{
    if replies.len() == 0 || night_done(m) {
        Seq::empty()
    } else {
        match question_spec(m) {
            Some(q) => seq![q] + asked_over(answer_spec(m, replies[0]), replies.drop_first()),
            None => Seq::empty(),
        }
    }
}

/// The players resolved so far have a role state.
pub open spec fn resolved_have_state(m: NightModel) -> bool {
    forall|i: int| 0 <= i < m.players.len() && (
        (in_stage(m.players[i].role, false) && (m.stage_two || i < m.next))
        || (m.stage_two && in_stage(m.players[i].role, true) && i < m.next)
    ) ==> m.states.contains_key((#[trigger] m.players[i]).id.0)
}

/// No player has the id `k`.
pub open spec fn no_player_has(players: Seq<NightPlayer>, k: u64) -> bool {
    forall|i: int| 0 <= i < players.len() ==> (#[trigger] players[i]).id.0 != k
}

/// A role whose night action never changes its state.
pub open spec fn keeps_state(role: Role) -> bool {
    !night_once_role(role) && role != Role::Witch && role != Role::Arsonist
}

/// Every player with the id `k` plays a role that keeps its state.
pub open spec fn all_keep_state(players: Seq<NightPlayer>, k: u64) -> bool {
    forall|i: int| 0 <= i < players.len() && (#[trigger] players[i]).id.0 == k ==> keeps_state(players[i].role)
}

/// From `before` to `after`: ids of no player are untouched, ids whose
/// players all keep their state keep it, and no state is dropped.
pub open spec fn states_kept(players: Seq<NightPlayer>, before: Map<u64, RoleState>, after: Map<u64, RoleState>) -> bool {
    &&& forall|k: u64| #[trigger] no_player_has(players, k) ==> (after.contains_key(k) == before.contains_key(k)
        && (before.contains_key(k) ==> after[k] == before[k]))
    &&& forall|k: u64| #[trigger] all_keep_state(players, k) ==> state_of(after, PlayerId(k)) == state_of(before, PlayerId(k))
    &&& forall|k: u64| #[trigger] before.contains_key(k) ==> after.contains_key(k)
}

/// The actions of `after` extend those of `before`; in stage two only by
/// the Witch's potions.
pub open spec fn actions_extended(before: NightModel, after: NightModel) -> bool {
    &&& before.actions.len() <= after.actions.len()
    &&& after.actions.take(before.actions.len() as int) == before.actions
    &&& before.stage_two ==> after.stage_two && after.wolf_target == before.wolf_target
        && forall|i: int| before.actions.len() <= i < after.actions.len()
            ==> (#[trigger] after.actions[i] is Heal || after.actions[i] is Poison)
}

/// The stages' questions from a player on start with that player's.
proof fn lemma_stage_questions_step(players: Seq<NightPlayer>, from: int, stage_two: bool)
    requires
        0 <= from < players.len(),
    ensures
        stage_questions(players, from, stage_two)
            == player_questions(players[from], stage_two) + stage_questions(players, from + 1, stage_two),
{
}

/// Resolving the current player keeps what a night keeps.
proof fn lemma_resolve_props(
    m: NightModel,
    chosen: Option<PlayerId>,
    heal: Option<PlayerId>,
    poison: Option<PlayerId>,
    love: Option<(PlayerId, PlayerId)>,
)
    requires
        model_inv(m),
        resolved_have_state(m),
        m.next < m.players.len(),
        in_stage(m.players[m.next].role, m.stage_two),
    ensures
        resolved_have_state(resolve_player(m, chosen, heal, poison, love)),
        states_kept(m.players, m.states, resolve_player(m, chosen, heal, poison, love).states),
        actions_extended(m, resolve_player(m, chosen, heal, poison, love)),
        resolve_player(m, chosen, heal, poison, love).players == m.players,
{
    let r = resolve_player(m, chosen, heal, poison, love);
    let p = m.players[m.next];
    let out = night_model(p.role, m.alive, p.id, chosen, heal, poison, love,
        if m.stage_two { m.wolf_target } else { None }, false, state_of(m.states, p.id));
    assert(r.actions.take(m.actions.len() as int) =~= m.actions);
    assert forall|i: int| 0 <= i < r.players.len() && (
        (in_stage(r.players[i].role, false) && (r.stage_two || i < r.next))
        || (r.stage_two && in_stage(r.players[i].role, true) && i < r.next)
    ) implies r.states.contains_key((#[trigger] r.players[i]).id.0) by {
        if i != m.next {
            assert(m.states.contains_key(m.players[i].id.0));
        }
    }
    assert forall|k: u64| #[trigger] no_player_has(m.players, k) implies (r.states.contains_key(k) == m.states.contains_key(k)
        && (m.states.contains_key(k) ==> r.states[k] == m.states[k])) by {
        assert(m.players[m.next].id.0 != k);
    }
    assert forall|k: u64| #[trigger] all_keep_state(m.players, k) implies state_of(r.states, PlayerId(k)) == state_of(m.states, PlayerId(k)) by {
        if p.id.0 == k {
            assert(keeps_state(p.role));
            assert(out.1 == state_of(m.states, p.id));
        }
    }
    if m.stage_two {
        assert(p.role == Role::Witch);
        assert forall|i: int| m.actions.len() <= i < r.actions.len()
            implies (#[trigger] r.actions[i] is Heal || r.actions[i] is Poison) by {
            assert(r.actions[i] == out.0[i - m.actions.len()]);
        }
    }
}

/// Settling keeps what a night keeps, and asks what was left to ask.
proof fn lemma_settle_props(m: NightModel)
    requires
        model_inv(m),
        resolved_have_state(m),
    ensures
        resolved_have_state(settle(m)),
        states_kept(m.players, m.states, settle(m).states),
        actions_extended(m, settle(m)),
        settle(m).players == m.players,
        m.heal is None ==> settle(m).heal is None && remaining_questions(settle(m)) == remaining_questions(m),
    decreases (if m.stage_two { 0int } else { 1int }), m.players.len() - m.next,
{
    if m.next >= m.players.len() {
        if !m.stage_two {
            let n = NightModel { stage_two: true, next: 0, wolf_target: crate::orchestrator::majority_spec(m.actions), ..m };
            assert(resolved_have_state(n));
            lemma_settle_props(n);
            assert(n.actions.take(m.actions.len() as int) =~= m.actions);
            assert(stage_questions(m.players, m.next, false) =~= Seq::<Question>::empty());
            assert(remaining_questions(m) =~= stage_questions(m.players, 0, true));
        } else {
            assert(m.actions.take(m.actions.len() as int) =~= m.actions);
        }
    } else {
        let p = m.players[m.next];
        if !in_stage(p.role, m.stage_two) {
            let n = NightModel { next: m.next + 1, ..m };
            assert(resolved_have_state(n)) by {
                assert forall|i: int| 0 <= i < n.players.len() && (
                    (in_stage(n.players[i].role, false) && (n.stage_two || i < n.next))
                    || (n.stage_two && in_stage(n.players[i].role, true) && i < n.next)
                ) implies n.states.contains_key((#[trigger] n.players[i]).id.0) by {
                    assert(m.players[i] == n.players[i]);
                }
            }
            lemma_settle_props(n);
            lemma_stage_questions_step(m.players, m.next, m.stage_two);
            assert(player_questions(p, m.stage_two) =~= Seq::<Question>::empty());
            assert(stage_questions(m.players, m.next, m.stage_two) =~= stage_questions(m.players, m.next + 1, m.stage_two));
        } else if asked(p.role, m.stage_two) {
            assert(m.actions.take(m.actions.len() as int) =~= m.actions);
        } else {
            let r = resolve_player(m, None, None, None, None);
            lemma_resolve_keeps_inv(m, None, None, None, None);
            lemma_resolve_props(m, None, None, None, None);
            lemma_settle_props(r);
            lemma_stage_questions_step(m.players, m.next, m.stage_two);
            assert(player_questions(p, m.stage_two) =~= Seq::<Question>::empty());
            assert(stage_questions(m.players, m.next, m.stage_two) =~= stage_questions(m.players, m.next + 1, m.stage_two));
            assert(settle(r).actions.take(m.actions.len() as int) =~= m.actions) by {
                assert(settle(r).actions.take(r.actions.len() as int).take(m.actions.len() as int) =~= settle(r).actions.take(m.actions.len() as int));
            }
        }
    }
}

/// A settled night asks the first of its remaining questions; it has none
/// left exactly when it is over.
proof fn lemma_question_is_first_remaining(m: NightModel)
    requires
        model_inv(m),
        settled(m),
    ensures
        night_done(m) <==> remaining_questions(m).len() == 0,
        !night_done(m) ==> question_spec(m) == Some(remaining_questions(m)[0]),
{
    lemma_settle(m);
    if night_done(m) {
        assert(remaining_questions(m) =~= Seq::<Question>::empty());
    } else {
        lemma_stage_questions_step(m.players, m.next, m.stage_two);
    }
}

/// Answering takes away the question asked.
proof fn lemma_answer_props(m: NightModel, reply: Option<Seq<PlayerId>>)
    requires
        model_inv(m),
        settled(m),
        resolved_have_state(m),
        !night_done(m),
    ensures
        remaining_questions(answer_spec(m, reply)) == remaining_questions(m).drop_first(),
        resolved_have_state(answer_spec(m, reply)),
        states_kept(m.players, m.states, answer_spec(m, reply).states),
        actions_extended(m, answer_spec(m, reply)),
        answer_spec(m, reply).players == m.players,
{
    lemma_settle(m);
    law_answer_keeps_inv(m, reply);
    let p = m.players[m.next];
    lemma_stage_questions_step(m.players, m.next, m.stage_two);
    if !m.stage_two {
        let (chosen, love) = if p.role == Role::Cupid {
            (None, crate::orchestrator::two_targets_spec(reply))
        } else {
            (crate::orchestrator::one_target_spec(reply), None)
        };
        let r = resolve_player(m, chosen, None, None, love);
        lemma_resolve_keeps_inv(m, chosen, None, None, love);
        lemma_resolve_props(m, chosen, None, None, love);
        lemma_settle_props(r);
        assert(player_questions(p, false).len() == 1);
        assert(remaining_questions(r) =~= remaining_questions(m).drop_first());
        assert(settle(r).actions.take(m.actions.len() as int) =~= m.actions) by {
            assert(settle(r).actions.take(r.actions.len() as int).take(m.actions.len() as int) =~= settle(r).actions.take(m.actions.len() as int));
        }
    } else {
        match m.heal {
            None => {
                let n = NightModel { heal: Some(crate::orchestrator::one_target_spec(reply)), ..m };
                assert(n.actions.take(m.actions.len() as int) =~= m.actions);
            },
            Some(h) => {
                let r = resolve_player(m, None, h, crate::orchestrator::one_target_spec(reply), None);
                lemma_resolve_keeps_inv(m, None, h, crate::orchestrator::one_target_spec(reply), None);
                lemma_resolve_props(m, None, h, crate::orchestrator::one_target_spec(reply), None);
                lemma_settle_props(r);
                assert(remaining_questions(r) =~= remaining_questions(m).drop_first());
                assert(settle(r).actions.take(m.actions.len() as int) =~= m.actions) by {
                    assert(settle(r).actions.take(r.actions.len() as int).take(m.actions.len() as int) =~= settle(r).actions.take(m.actions.len() as int));
                }
                assert forall|i: int| m.actions.len() <= i < settle(r).actions.len()
                    implies (#[trigger] settle(r).actions[i] is Heal || settle(r).actions[i] is Poison) by {
                    if i < r.actions.len() {
                        assert(r.actions[i] is Heal || r.actions[i] is Poison);
                        assert(settle(r).actions.take(r.actions.len() as int)[i] == r.actions[i]);
                    } else {
                        assert(settle(r).actions[i] is Heal || settle(r).actions[i] is Poison);
                    }
                }
            },
        }
    }
}

/// What holds over any run of answers from a settled night.
proof fn lemma_run(m: NightModel, replies: Seq<Option<Seq<PlayerId>>>)
    requires
        model_inv(m),
        settled(m),
        resolved_have_state(m),
    ensures
        model_inv(night_after(m, replies)),
        settled(night_after(m, replies)),
        resolved_have_state(night_after(m, replies)),
        night_after(m, replies).players == m.players,
        asked_over(m, replies) == remaining_questions(m).take(
            if replies.len() < remaining_questions(m).len() { replies.len() as int } else { remaining_questions(m).len() as int }),
        night_done(night_after(m, replies)) <==> replies.len() >= remaining_questions(m).len(),
        states_kept(m.players, m.states, night_after(m, replies).states),
        actions_extended(m, night_after(m, replies)),
    decreases replies.len(),
{
    lemma_question_is_first_remaining(m);
    if replies.len() == 0 || night_done(m) {
        assert(remaining_questions(m).take(0) =~= Seq::<Question>::empty());
        assert(m.actions.take(m.actions.len() as int) =~= m.actions);
    } else {
        let a = answer_spec(m, replies[0]);
        let rest = replies.drop_first();
        law_answer_keeps_inv(m, replies[0]);
        lemma_answer_props(m, replies[0]);
        lemma_run(a, rest);
        let rem = remaining_questions(m);
        let n = if replies.len() < rem.len() { replies.len() as int } else { rem.len() as int };
        assert(rem.take(n) =~= seq![rem[0]] + rem.drop_first().take(n - 1));
        let z = night_after(a, rest);
        assert(z.actions.take(m.actions.len() as int) =~= m.actions) by {
            assert(z.actions.take(a.actions.len() as int).take(m.actions.len() as int) =~= z.actions.take(m.actions.len() as int));
        }
        if m.stage_two {
            assert forall|i: int| m.actions.len() <= i < z.actions.len()
                implies (#[trigger] z.actions[i] is Heal || z.actions[i] is Poison) by {
                if i < a.actions.len() {
                    assert(a.actions[i] is Heal || a.actions[i] is Poison);
                    assert(z.actions.take(a.actions.len() as int)[i] == a.actions[i]);
                }
            }
        }
        let before = m.states;
        let mid = a.states;
        let after = z.states;
        assert forall|k: u64| #[trigger] no_player_has(m.players, k) implies (after.contains_key(k) == before.contains_key(k)
            && (before.contains_key(k) ==> after[k] == before[k])) by {
            assert(no_player_has(a.players, k));
        }
        assert forall|k: u64| #[trigger] all_keep_state(m.players, k) implies state_of(after, PlayerId(k)) == state_of(before, PlayerId(k)) by {
            assert(all_keep_state(a.players, k));
        }
        assert forall|k: u64| #[trigger] before.contains_key(k) implies after.contains_key(k) by {
            assert(mid.contains_key(k));
        }
    }
}

/// Law: whatever the players answer, a night asks exactly the questions of
/// `night_questions`, in that order: in stage one, in the players' order,
/// Cupid is asked once for two lovers and every role with a single-target
/// question once for one player, nobody else; then in stage two each Witch
/// is asked for her heal and then her poison. After the last answer the
/// night is over, and not before.
pub proof fn law_night_asks_each_question_once(
    players: Seq<NightPlayer>,
    states: Map<u64, RoleState>,
    replies: Seq<Option<Seq<PlayerId>>>,
)
    ensures
        ({
            let start = settle(initial_model(players, states));
            let all = night_questions(players);
            &&& asked_over(start, replies) == all.take(if replies.len() < all.len() { replies.len() as int } else { all.len() as int })
            &&& night_done(night_after(start, replies)) <==> replies.len() >= all.len()
        }),
{
    let m = initial_model(players, states);
    assert(model_inv(m));
    assert(resolved_have_state(m));
    lemma_settle(m);
    lemma_settle_props(m);
    lemma_run(settle(m), replies);
}

/// Law: whatever the players answer, answering only ever appends actions:
/// those produced so far stay first, in order. Once the wolves' vote is
/// tallied (stage two), only the Witch's potions are added and the tallied
/// target no longer changes.
pub proof fn law_night_actions_accumulate(m: NightModel, replies: Seq<Option<Seq<PlayerId>>>)
    requires
        model_inv(m),
        settled(m),
        resolved_have_state(m),
    ensures
        actions_extended(m, night_after(m, replies)),
{
    lemma_run(m, replies);
}

/// Law: over a whole night, whatever the players answer, the role state of
/// an id that is no player's is untouched, an id whose players all play a
/// role that keeps its state (a Wolf, a Seer, a Villager, among others)
/// keeps it, and at the end of the night every player has a state.
pub proof fn law_night_touches_only_its_players(
    players: Seq<NightPlayer>,
    states: Map<u64, RoleState>,
    replies: Seq<Option<Seq<PlayerId>>>,
)
    ensures
        ({
            let end = night_after(settle(initial_model(players, states)), replies);
            &&& states_kept(players, states, end.states)
            &&& night_done(end) ==> forall|i: int| 0 <= i < players.len() ==> end.states.contains_key((#[trigger] players[i]).id.0)
        }),
{
    let m = initial_model(players, states);
    assert(model_inv(m));
    assert(resolved_have_state(m));
    lemma_settle(m);
    lemma_settle_props(m);
    let s = settle(m);
    lemma_run(s, replies);
    let end = night_after(s, replies);
    assert forall|k: u64| #[trigger] no_player_has(players, k) implies (end.states.contains_key(k) == states.contains_key(k)
        && (states.contains_key(k) ==> end.states[k] == states[k])) by {
        assert(no_player_has(s.players, k));
    }
    assert forall|k: u64| #[trigger] all_keep_state(players, k) implies state_of(end.states, PlayerId(k)) == state_of(states, PlayerId(k)) by {
        assert(all_keep_state(s.players, k));
    }
    assert forall|k: u64| #[trigger] states.contains_key(k) implies end.states.contains_key(k) by {
        assert(s.states.contains_key(k));
    }
    if night_done(end) {
        assert forall|i: int| 0 <= i < players.len() implies end.states.contains_key((#[trigger] players[i]).id.0) by {
            assert(end.players[i] == players[i]);
            assert(in_stage(players[i].role, false) || in_stage(players[i].role, true));
        }
    }
}

/// One of the Witch's potions.
pub open spec fn is_potion(a: NightAction) -> bool {
    a is Heal || a is Poison
}

/// Every action after a potion is a potion too.
pub open spec fn potions_last(s: Seq<NightAction>) -> bool {
    forall|i: int, j: int| 0 <= i < j < s.len() && #[trigger] is_potion(s[i]) ==> #[trigger] is_potion(s[j])
}

/// The actions before `k` are no potions and those from `k` on all are.
pub open spec fn splits_at(s: Seq<NightAction>, k: int) -> bool {
    &&& 0 <= k <= s.len()
    &&& forall|i: int| 0 <= i < k ==> !is_potion(#[trigger] s[i])
    &&& forall|i: int| k <= i < s.len() ==> is_potion(#[trigger] s[i])
}

/// The actions of a night in progress are in stage order: potions come
/// last, and none is produced before stage two.
pub open spec fn actions_in_order(m: NightModel) -> bool {
    &&& potions_last(m.actions)
    &&& !m.stage_two ==> forall|i: int| 0 <= i < m.actions.len() ==> !is_potion(#[trigger] m.actions[i])
}

/// Only the Witch brews potions.
proof fn lemma_only_the_witch_brews(
    role: Role,
    alive: Seq<PlayerId>,
    id: PlayerId,
    chosen: Option<PlayerId>,
    heal: Option<PlayerId>,
    poison: Option<PlayerId>,
    love: Option<(PlayerId, PlayerId)>,
    wolf: Option<PlayerId>,
    st: RoleState,
)
    requires
        role != Role::Witch,
    ensures
        forall|i: int| 0 <= i < night_model(role, alive, id, chosen, heal, poison, love, wolf, false, st).0.len()
            ==> !is_potion(#[trigger] night_model(role, alive, id, chosen, heal, poison, love, wolf, false, st).0[i]),
{
}

proof fn lemma_resolve_order(
    m: NightModel,
    chosen: Option<PlayerId>,
    heal: Option<PlayerId>,
    poison: Option<PlayerId>,
    love: Option<(PlayerId, PlayerId)>,
)
    requires
        model_inv(m),
        actions_in_order(m),
        m.next < m.players.len(),
        in_stage(m.players[m.next].role, m.stage_two),
    ensures
        actions_in_order(resolve_player(m, chosen, heal, poison, love)),
{
    let r = resolve_player(m, chosen, heal, poison, love);
    let p = m.players[m.next];
    let wolf = if m.stage_two { m.wolf_target } else { None };
    let out = night_model(p.role, m.alive, p.id, chosen, heal, poison, love, wolf, false, state_of(m.states, p.id));
    let n = m.actions.len();
    if !m.stage_two {
        lemma_only_the_witch_brews(p.role, m.alive, p.id, chosen, heal, poison, love, wolf, state_of(m.states, p.id));
        assert forall|i: int| 0 <= i < r.actions.len() implies !is_potion(#[trigger] r.actions[i]) by {
            if i >= n {
                assert(r.actions[i] == out.0[i - n]);
            } else {
                assert(r.actions[i] == m.actions[i]);
            }
        }
    } else {
        assert(p.role == Role::Witch);
        assert forall|i: int, j: int| 0 <= i < j < r.actions.len() && #[trigger] is_potion(r.actions[i])
            implies #[trigger] is_potion(r.actions[j]) by {
            if j >= n {
                assert(r.actions[j] == out.0[j - n]);
            } else {
                assert(r.actions[i] == m.actions[i] && r.actions[j] == m.actions[j]);
            }
        }
    }
}

proof fn lemma_settle_order(m: NightModel)
    requires
        model_inv(m),
        actions_in_order(m),
    ensures
        actions_in_order(settle(m)),
    decreases (if m.stage_two { 0int } else { 1int }), m.players.len() - m.next,
{
    if m.next >= m.players.len() {
        if !m.stage_two {
            lemma_settle_order(NightModel { stage_two: true, next: 0, wolf_target: majority_spec(m.actions), ..m });
        }
    } else {
        let p = m.players[m.next];
        if !in_stage(p.role, m.stage_two) {
            lemma_settle_order(NightModel { next: m.next + 1, ..m });
        } else if !asked(p.role, m.stage_two) {
            lemma_resolve_keeps_inv(m, None, None, None, None);
            lemma_resolve_order(m, None, None, None, None);
            lemma_settle_order(resolve_player(m, None, None, None, None));
        }
    }
}

proof fn lemma_answer_order(m: NightModel, reply: Option<Seq<PlayerId>>)
    requires
        model_inv(m),
        settled(m),
        actions_in_order(m),
        !night_done(m),
    ensures
        actions_in_order(answer_spec(m, reply)),
{
    lemma_settle(m);
    let p = m.players[m.next];
    if !m.stage_two {
        let (chosen, love) = if p.role == Role::Cupid {
            (None, crate::orchestrator::two_targets_spec(reply))
        } else {
            (crate::orchestrator::one_target_spec(reply), None)
        };
        lemma_resolve_keeps_inv(m, chosen, None, None, love);
        lemma_resolve_order(m, chosen, None, None, love);
        lemma_settle_order(resolve_player(m, chosen, None, None, love));
    } else if let Some(h) = m.heal {
        let poison = crate::orchestrator::one_target_spec(reply);
        lemma_resolve_keeps_inv(m, None, h, poison, None);
        lemma_resolve_order(m, None, h, poison, None);
        lemma_settle_order(resolve_player(m, None, h, poison, None));
    }
}

proof fn lemma_run_order(m: NightModel, replies: Seq<Option<Seq<PlayerId>>>)
    requires
        model_inv(m),
        settled(m),
        actions_in_order(m),
    ensures
        actions_in_order(night_after(m, replies)),
        model_inv(night_after(m, replies)),
    decreases replies.len(),
{
    if replies.len() > 0 && !night_done(m) {
        law_answer_keeps_inv(m, replies[0]);
        lemma_answer_order(m, replies[0]);
        lemma_run_order(answer_spec(m, replies[0]), replies.drop_first());
    }
}

/// Law: whatever the players answer, every action of the roles resolved
/// before the wolves' tally comes before every potion of the Witch, who is
/// resolved after it; and a finished night's wolf target is the tally of
/// the eat votes among the actions before the potions.
pub proof fn law_night_actions_in_stage_order(
    players: Seq<NightPlayer>,
    states: Map<u64, RoleState>,
    replies: Seq<Option<Seq<PlayerId>>>,
)
    ensures
        ({
            let end = night_after(settle(initial_model(players, states)), replies);
            &&& potions_last(end.actions)
            &&& night_done(end) ==> forall|k: int| #[trigger] splits_at(end.actions, k)
                ==> end.wolf_target == majority_spec(end.actions.take(k))
        }),
{
    let m = initial_model(players, states);
    assert(model_inv(m));
    assert(actions_in_order(m));
    lemma_settle(m);
    lemma_settle_order(m);
    lemma_run_order(settle(m), replies);
    let end = night_after(settle(m), replies);
    if night_done(end) {
        assert forall|k: int| #[trigger] splits_at(end.actions, k) implies end.wolf_target == majority_spec(end.actions.take(k)) by {
            let more = end.actions.skip(k);
            assert forall|i: int| 0 <= i < more.len() implies !(#[trigger] more[i] is EatVote) by {
                assert(more[i] == end.actions[i + k]);
                assert(is_potion(end.actions[i + k]));
            }
            law_other_actions_keep_target(end.actions.take(k), more);
            assert(end.actions.take(k) + more =~= end.actions);
        }
    }
}

/// The single-target question each role with a night target is asked.
pub open spec fn target_prompt_table(role: Role) -> Option<Prompt> {
    if role == Role::Wolf {
        Some(Prompt::WolfEat)
    } else if role == Role::Seer {
        Some(Prompt::SeerCheck)
    } else if role == Role::Harlot {
        Some(Prompt::HarlotVisit)
    } else if role == Role::GuardianAngel {
        Some(Prompt::GuardianAngelProtect)
    } else if role == Role::Detective {
        Some(Prompt::DetectiveInvestigate)
    } else if role == Role::Fool {
        Some(Prompt::FoolInvestigate)
    } else if role == Role::WildChild {
        Some(Prompt::WildChildRoleModel)
    } else {
        None
    }
}

/// Law: over a night, a Wolf, Seer, Harlot, Guardian Angel, Detective, Fool
/// or Wild Child player is asked exactly one question, in stage one, for one
/// player, with the role's own prompt (the Wolf to eat, the Seer to check,
/// the Harlot to visit, the Guardian Angel to protect, the Detective and
/// the Fool to investigate, the Wild Child to pick a role model); Cupid is
/// asked once for two lovers; the Witch is asked for her heal and then her
/// poison in stage two; every other role is asked nothing.
pub proof fn law_each_role_is_asked_its_own_question(p: NightPlayer)
    ensures
        target_prompt_table(p.role) matches Some(prompt) ==> player_questions(p, false)
            == seq![Question { player: p.id, prompt, count: 1 }] && player_questions(p, true) == Seq::<Question>::empty(),
        p.role == Role::Cupid ==> player_questions(p, false) == seq![Question { player: p.id, prompt: Prompt::CupidLink, count: 2 }]
            && player_questions(p, true) == Seq::<Question>::empty(),
        p.role == Role::Witch ==> player_questions(p, false) == Seq::<Question>::empty()
            && player_questions(p, true) == seq![
                Question { player: p.id, prompt: Prompt::WitchHeal, count: 1 },
                Question { player: p.id, prompt: Prompt::WitchPoison, count: 1 },
            ],
        target_prompt_table(p.role) is None && p.role != Role::Cupid && p.role != Role::Witch
            ==> player_questions(p, false) == Seq::<Question>::empty() && player_questions(p, true) == Seq::<Question>::empty(),
{
}

} // verus!
