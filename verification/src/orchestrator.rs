//! Ties the role files together into a night resolution, without knowing
//! where questions go or where answers come from. The resolution is a state
//! machine (`NightResolution`): it says which player to ask what, takes the
//! answer back, and runs every role's night action in dependency order.
//! Every role with no required facts is resolved first; then the wolves'
//! eat votes are tallied (`majority_eat_target`), and only then are the roles
//! that depend on the wolf target (the Witch) asked, with that target known.

use vstd::prelude::*;
use std::collections::HashMap;
use crate::roles::{
    behavior_for, fresh_state, night_model, requires_spec, NightAction, NightContext,
    RoleBehavior, RoleState,
};
use crate::types::{PlayerId, Role};

verus! {

broadcast use vstd::std_specs::hash::group_hash_axioms;

/// Why a player is being asked something, so that whoever asks can look up
/// the right prompt text.
#[derive(Debug, Clone, Copy, PartialEq, Eq, Hash, Structural)]
pub enum Prompt {
    WolfEat,
    SeerCheck,
    HarlotVisit,
    GuardianAngelProtect,
    DetectiveInvestigate,
    FoolInvestigate,
    WildChildRoleModel,
    CupidLink,
    WitchHeal,
    WitchPoison,
}

/// What every living player brings into a night: who they are and the role
/// they currently play.
#[derive(Debug, Clone, Copy, PartialEq, Eq, Structural)]
pub struct NightPlayer {
    pub id: PlayerId,
    pub role: Role,
}

/// The single-target question a role is asked at night, if any.
pub open spec fn one_target_prompt_spec(role: Role) -> Option<Prompt> {
    match role {
        Role::Wolf => Some(Prompt::WolfEat),
        Role::Seer => Some(Prompt::SeerCheck),
        Role::Harlot => Some(Prompt::HarlotVisit),
        Role::GuardianAngel => Some(Prompt::GuardianAngelProtect),
        Role::Detective => Some(Prompt::DetectiveInvestigate),
        Role::Fool => Some(Prompt::FoolInvestigate),
        Role::WildChild => Some(Prompt::WildChildRoleModel),
        _ => None,
    }
}

/// Maps a role to the single-target question it needs asked, if any. Roles
/// with none (the Villager, for one) are still resolved, with nothing chosen.
pub fn one_target_prompt(role: Role) -> (p: Option<Prompt>)
    ensures
        p == one_target_prompt_spec(role),
        role == Role::Wolf ==> p == Some(Prompt::WolfEat),
        role == Role::Seer ==> p == Some(Prompt::SeerCheck),
        role == Role::Harlot ==> p == Some(Prompt::HarlotVisit),
        role == Role::GuardianAngel ==> p == Some(Prompt::GuardianAngelProtect),
        role == Role::Detective ==> p == Some(Prompt::DetectiveInvestigate),
        role == Role::Fool ==> p == Some(Prompt::FoolInvestigate),
        role == Role::WildChild ==> p == Some(Prompt::WildChildRoleModel),
        !(role == Role::Wolf || role == Role::Seer || role == Role::Harlot || role == Role::GuardianAngel
            || role == Role::Detective || role == Role::Fool || role == Role::WildChild) ==> p is None,
{
    match role {
        Role::Wolf => Some(Prompt::WolfEat),
        Role::Seer => Some(Prompt::SeerCheck),
        Role::Harlot => Some(Prompt::HarlotVisit),
        Role::GuardianAngel => Some(Prompt::GuardianAngelProtect),
        Role::Detective => Some(Prompt::DetectiveInvestigate),
        Role::Fool => Some(Prompt::FoolInvestigate),
        Role::WildChild => Some(Prompt::WildChildRoleModel),
        _ => None,
    }
}

/// A one-target answer: exactly one player picked, else no answer.
pub open spec fn one_target_spec(picked: Option<Seq<PlayerId>>) -> Option<PlayerId> {
    match picked {
        Some(v) => if v.len() == 1 { Some(v[0]) } else { None },
        None => None,
    }
}

/// A two-target answer: exactly two distinct players picked, else no answer.
pub open spec fn two_targets_spec(picked: Option<Seq<PlayerId>>) -> Option<(PlayerId, PlayerId)> {
    match picked {
        Some(v) => if v.len() == 2 && v[0] != v[1] { Some((v[0], v[1])) } else { None },
        None => None,
    }
}

/// The view of an optional answer.
pub open spec fn reply_view(picked: Option<Vec<PlayerId>>) -> Option<Seq<PlayerId>> {
    match picked {
        Some(v) => Some(v@),
        None => None,
    }
}

/// Reads a one-target answer. A malformed answer (not exactly one player) is
/// treated as no answer rather than trusted.
pub fn one_target_from(picked: Option<Vec<PlayerId>>) -> (r: Option<PlayerId>)
    ensures
        r == one_target_spec(reply_view(picked)),
{
    match picked {
        Some(v) => if v.len() == 1 { Some(v[0]) } else { None },
        None => None,
    }
}

/// Reads a two-target answer (Cupid's): exactly two distinct players, else
/// no answer.
pub fn two_targets_from(picked: Option<Vec<PlayerId>>) -> (r: Option<(PlayerId, PlayerId)>)
    ensures
        r == two_targets_spec(reply_view(picked)),
{
    match picked {
        Some(v) => if v.len() == 2 && v[0].0 != v[1].0 { Some((v[0], v[1])) } else { None },
        None => None,
    }
}

/// The number of eat votes for `t` among `actions`.
pub open spec fn eat_votes(actions: Seq<NightAction>, t: PlayerId) -> nat
    decreases actions.len(),
{
    if actions.len() == 0 {
        0
    } else {
        eat_votes(actions.drop_last(), t) + (if actions.last() == (NightAction::EatVote { target: t }) { 1nat } else { 0nat })
    }
}

/// `t` got strictly more eat votes than anyone else, and at least one.
pub open spec fn is_majority(actions: Seq<NightAction>, t: PlayerId) -> bool {
    eat_votes(actions, t) > 0 && forall|u: PlayerId| u != t ==> #[trigger] eat_votes(actions, u) < eat_votes(actions, t)
}

/// The wolves' target: the one player with strictly the most eat votes; no
/// votes, or a tie for the most, resolves to no target.
pub open spec fn majority_spec(actions: Seq<NightAction>) -> Option<PlayerId> {
    if exists|t: PlayerId| is_majority(actions, t) {
        Some(choose|t: PlayerId| is_majority(actions, t))
    } else {
        None
    }
}

/// At most one player can be the majority.
pub proof fn lemma_majority_unique(actions: Seq<NightAction>, t: PlayerId, u: PlayerId)
    requires
        is_majority(actions, t),
        is_majority(actions, u),
    ensures
        t == u,
{
    if t != u {
        assert(eat_votes(actions, u) < eat_votes(actions, t));
        assert(eat_votes(actions, t) < eat_votes(actions, u));
    }
}

/// The majority is exactly the player that `is_majority` holds of.
pub proof fn lemma_majority_spec(actions: Seq<NightAction>, t: PlayerId)
    ensures
        is_majority(actions, t) <==> majority_spec(actions) == Some(t),
{
    if is_majority(actions, t) {
        let c = choose|x: PlayerId| is_majority(actions, x);
        lemma_majority_unique(actions, t, c);
    }
}

/// Two action lists with the same eat-vote counts have the same majority.
pub proof fn lemma_majority_by_counts(a: Seq<NightAction>, b: Seq<NightAction>)
    requires
        forall|t: PlayerId| #[trigger] eat_votes(a, t) == eat_votes(b, t),
    ensures
        majority_spec(a) == majority_spec(b),
{
    if let Some(t) = majority_spec(a) {
        lemma_majority_spec(a, t);
        assert forall|u: PlayerId| u != t implies #[trigger] eat_votes(b, u) < eat_votes(b, t) by {
            assert(eat_votes(a, u) < eat_votes(a, t));
        }
        lemma_majority_spec(b, t);
    } else if let Some(t) = majority_spec(b) {
        lemma_majority_spec(b, t);
        assert forall|u: PlayerId| u != t implies #[trigger] eat_votes(a, u) < eat_votes(a, t) by {
            assert(eat_votes(b, u) < eat_votes(b, t));
        }
        lemma_majority_spec(a, t);
    }
}

/// Counting over a concatenation adds the counts.
pub proof fn lemma_eat_votes_concat(a: Seq<NightAction>, b: Seq<NightAction>, t: PlayerId)
    ensures
        eat_votes(a + b, t) == eat_votes(a, t) + eat_votes(b, t),
    decreases b.len(),
{
    if b.len() == 0 {
        assert(a + b =~= a);
    } else {
        assert((a + b).drop_last() =~= a + b.drop_last());
        lemma_eat_votes_concat(a, b.drop_last(), t);
    }
}

/// Counting over a prefix one longer adds the next action's vote.
proof fn lemma_eat_votes_take(actions: Seq<NightAction>, i: int, t: PlayerId)
    requires
        0 <= i < actions.len(),
    ensures
        eat_votes(actions.take(i + 1), t) == eat_votes(actions.take(i), t)
            + (if actions[i] == (NightAction::EatVote { target: t }) { 1nat } else { 0nat }),
{
    assert(actions.take(i + 1).drop_last() =~= actions.take(i));
}

/// The eat votes among `actions`, with no more votes than actions.
proof fn lemma_eat_votes_bound(actions: Seq<NightAction>, t: PlayerId)
    ensures
        eat_votes(actions, t) <= actions.len(),
    decreases actions.len(),
{
    if actions.len() > 0 {
        lemma_eat_votes_bound(actions.drop_last(), t);
    }
}

/// Tallies the wolves' eat votes. The player with strictly the most votes is
/// the target; no votes, or a tie for the most, gives no target.
pub fn majority_eat_target(actions: &[NightAction]) -> (r: Option<PlayerId>)
    ensures
        r == majority_spec(actions@),
{
    // tallies[k] = (a voted-for player, their votes so far); players distinct.
    // The leader is found by walking the whole tally, so it is kept as a list
    // in first-vote order rather than a hash map, whose walk order changes
    // from one process to the next and could not be reasoned about here.
    let mut tallies: Vec<(PlayerId, usize)> = Vec::new();
    let mut i: usize = 0;
    while i < actions.len()
        invariant
            0 <= i <= actions@.len(),
            forall|k: int| 0 <= k < tallies@.len() ==> (#[trigger] tallies@[k]).1 == eat_votes(actions@.take(i as int), tallies@[k].0),
            forall|k: int| 0 <= k < tallies@.len() ==> (#[trigger] tallies@[k]).1 > 0,
            forall|k: int, l: int| 0 <= k < l < tallies@.len() ==> (#[trigger] tallies@[k]).0 != (#[trigger] tallies@[l]).0,
            forall|t: PlayerId| eat_votes(actions@.take(i as int), t) > 0 ==>
                exists|k: int| 0 <= k < tallies@.len() && (#[trigger] tallies@[k]).0 == t,
        decreases actions@.len() - i,
    {
        proof {
            assert forall|t: PlayerId| #[trigger] eat_votes(actions@.take(i + 1), t) == eat_votes(actions@.take(i as int), t)
                + (if actions@[i as int] == (NightAction::EatVote { target: t }) { 1nat } else { 0nat }) by {
                lemma_eat_votes_take(actions@, i as int, t);
            }
        }
        let ghost old_tallies = tallies@;
        if let NightAction::EatVote { target } = actions[i] {
            let mut k: usize = 0;
            let mut found = false;
            while k < tallies.len()
                invariant_except_break
                    !found,
                invariant
                    0 <= k <= tallies@.len(),
                    forall|j: int| 0 <= j < k ==> (#[trigger] tallies@[j]).0 != target,
                ensures
                    found ==> k < tallies@.len() && tallies@[k as int].0 == target,
                    !found ==> forall|j: int| 0 <= j < tallies@.len() ==> (#[trigger] tallies@[j]).0 != target,
                decreases tallies@.len() - k,
            {
                if tallies[k].0.0 == target.0 {
                    found = true;
                    break;
                }
                k = k + 1;
            }
            if found {
                proof {
                    lemma_eat_votes_bound(actions@.take(i as int), target);
                }
                let (p, c) = tallies[k];
                tallies.set(k, (p, c + 1));
                proof {
                    assert forall|t: PlayerId| #[trigger] eat_votes(actions@.take(i + 1), t) > 0 implies
                        exists|j: int| 0 <= j < tallies@.len() && (#[trigger] tallies@[j]).0 == t by {
                        if t == target {
                            assert(tallies@[k as int].0 == t);
                        } else {
                            let j = choose|j: int| 0 <= j < old_tallies.len() && (#[trigger] old_tallies[j]).0 == t;
                            assert(tallies@[j].0 == t);
                        }
                    }
                }
            } else {
                proof {
                    if eat_votes(actions@.take(i as int), target) > 0 {
                        let j = choose|j: int| 0 <= j < old_tallies.len() && (#[trigger] old_tallies[j]).0 == target;
                        assert(false);
                    }
                }
                tallies.push((target, 1));
                proof {
                    assert forall|t: PlayerId| #[trigger] eat_votes(actions@.take(i + 1), t) > 0 implies
                        exists|j: int| 0 <= j < tallies@.len() && (#[trigger] tallies@[j]).0 == t by {
                        if t == target {
                            assert(tallies@[old_tallies.len() as int].0 == t);
                        } else {
                            let j = choose|j: int| 0 <= j < old_tallies.len() && (#[trigger] old_tallies[j]).0 == t;
                            assert(tallies@[j].0 == t);
                        }
                    }
                }
            }
        } else {
            proof {
                assert forall|t: PlayerId| #[trigger] eat_votes(actions@.take(i + 1), t) > 0 implies
                    exists|j: int| 0 <= j < tallies@.len() && (#[trigger] tallies@[j]).0 == t by {
                    assert(eat_votes(actions@.take(i as int), t) > 0);
                }
            }
        }
        i = i + 1;
    }
    assert(actions@.take(actions@.len() as int) =~= actions@);
    // find the unique leader, if any
    let mut best: Option<(PlayerId, usize)> = None;
    let mut tied = false;
    let mut k: usize = 0;
    while k < tallies.len()
        invariant
            0 <= k <= tallies@.len(),
            forall|j: int| 0 <= j < tallies@.len() ==> (#[trigger] tallies@[j]).1 == eat_votes(actions@, tallies@[j].0),
            forall|j: int| 0 <= j < tallies@.len() ==> (#[trigger] tallies@[j]).1 > 0,
            forall|j: int, l: int| 0 <= j < l < tallies@.len() ==> (#[trigger] tallies@[j]).0 != (#[trigger] tallies@[l]).0,
            k == 0 <==> best is None,
            best matches Some((b, c)) ==> {
                &&& c == eat_votes(actions@, b)
                &&& exists|j: int| 0 <= j < k && (#[trigger] tallies@[j]).0 == b
                &&& forall|j: int| 0 <= j < k ==> (#[trigger] tallies@[j]).1 <= c
                &&& tied <==> exists|j: int| 0 <= j < k && (#[trigger] tallies@[j]).1 == c && tallies@[j].0 != b
            },
            best is None ==> !tied,
        decreases tallies@.len() - k,
    {
        let (p, c) = tallies[k];
        match best {
            None => {
                best = Some((p, c));
                tied = false;
            },
            Some((_, bc)) => {
                if c > bc {
                    best = Some((p, c));
                    tied = false;
                } else if c == bc {
                    tied = true;
                }
            },
        }
        k = k + 1;
    }
    proof {
        match best {
            Some((b, c)) => {
                let jb = choose|j: int| 0 <= j < tallies@.len() && (#[trigger] tallies@[j]).0 == b;
                assert(tallies@[jb].1 == c);
                if !tied {
                    assert forall|u: PlayerId| u != b implies #[trigger] eat_votes(actions@, u) < eat_votes(actions@, b) by {
                        if eat_votes(actions@, u) > 0 {
                            let ju = choose|j: int| 0 <= j < tallies@.len() && (#[trigger] tallies@[j]).0 == u;
                            assert(tallies@[ju].1 <= c);
                            assert(tallies@[ju].1 != c);
                        }
                    }
                    lemma_majority_spec(actions@, b);
                } else {
                    let jt = choose|j: int| 0 <= j < tallies@.len() && (#[trigger] tallies@[j]).1 == c && tallies@[j].0 != b;
                    if exists|t: PlayerId| is_majority(actions@, t) {
                        let t = choose|t: PlayerId| is_majority(actions@, t);
                        let jm = choose|j: int| 0 <= j < tallies@.len() && (#[trigger] tallies@[j]).0 == t;
                        assert(tallies@[jm].1 <= c);
                        if t != b {
                            assert(eat_votes(actions@, b) < eat_votes(actions@, t));
                        } else {
                            assert(eat_votes(actions@, tallies@[jt].0) < eat_votes(actions@, t));
                        }
                    }
                }
            },
            None => {
                if exists|t: PlayerId| is_majority(actions@, t) {
                    let t = choose|t: PlayerId| is_majority(actions@, t);
                    let jm = choose|j: int| 0 <= j < tallies@.len() && (#[trigger] tallies@[j]).0 == t;
                }
            },
        }
    }
    match best {
        Some((b, _)) if !tied => Some(b),
        _ => None,
    }
}

/// Law: the wolves' target depends only on how many votes each player got,
/// not on the order in which the votes were cast.
pub proof fn law_majority_ignores_order(a: Seq<NightAction>, b: Seq<NightAction>)
    ensures
        majority_spec(a + b) == majority_spec(b + a),
{
    assert forall|t: PlayerId| #[trigger] eat_votes(a + b, t) == eat_votes(b + a, t) by {
        lemma_eat_votes_concat(a, b, t);
        lemma_eat_votes_concat(b, a, t);
    }
    lemma_majority_by_counts(a + b, b + a);
}

/// The eat votes for `t` are the number of times its eat vote occurs.
proof fn lemma_eat_votes_count(actions: Seq<NightAction>, t: PlayerId)
    ensures
        eat_votes(actions, t) == actions.to_multiset().count(NightAction::EatVote { target: t }),
    decreases actions.len(),
{
    broadcast use vstd::seq_lib::group_to_multiset_ensures;
    broadcast use vstd::multiset::group_multiset_properties;
    if actions.len() == 0 {
        assert(actions.to_multiset().len() == 0);
        assert(actions.to_multiset() =~= vstd::multiset::Multiset::<NightAction>::empty());
    } else {
        let init = actions.drop_last();
        lemma_eat_votes_count(init, t);
        assert(actions =~= init.push(actions.last()));
        assert(actions.to_multiset() =~= init.to_multiset().insert(actions.last()));
    }
}

/// Law: the wolves' target depends only on which eat votes were cast, not
/// on their order: any reordering of the actions gives the same target.
pub proof fn law_majority_ignores_permutation(a: Seq<NightAction>, b: Seq<NightAction>)
    requires
        a.to_multiset() == b.to_multiset(),
    ensures
        majority_spec(a) == majority_spec(b),
{
    assert forall|t: PlayerId| #[trigger] eat_votes(a, t) == eat_votes(b, t) by {
        lemma_eat_votes_count(a, t);
        lemma_eat_votes_count(b, t);
    }
    lemma_majority_by_counts(a, b);
}

/// Law: one more vote for the current target keeps it the target.
pub proof fn law_extra_vote_keeps_target(actions: Seq<NightAction>, t: PlayerId)
    requires
        majority_spec(actions) == Some(t),
    ensures
        majority_spec(actions.push(NightAction::EatVote { target: t })) == Some(t),
{
    let more = actions.push(NightAction::EatVote { target: t });
    lemma_majority_spec(actions, t);
    assert(more.drop_last() =~= actions);
    assert forall|u: PlayerId| u != t implies #[trigger] eat_votes(more, u) < eat_votes(more, t) by {
        assert(eat_votes(actions, u) < eat_votes(actions, t));
    }
    lemma_majority_spec(more, t);
}

/// Law: a tie for the most votes resolves to no target.
pub proof fn law_tie_means_no_target(actions: Seq<NightAction>, t: PlayerId, u: PlayerId)
    requires
        t != u,
        eat_votes(actions, t) == eat_votes(actions, u),
        forall|w: PlayerId| #[trigger] eat_votes(actions, w) <= eat_votes(actions, t),
    ensures
        majority_spec(actions) is None,
{
    if let Some(w) = majority_spec(actions) {
        lemma_majority_spec(actions, w);
        if w == t {
            assert(eat_votes(actions, u) < eat_votes(actions, t));
        } else {
            assert(eat_votes(actions, t) < eat_votes(actions, w));
        }
    }
}

/// Law: actions other than eat votes never change the wolves' target.
pub proof fn law_other_actions_keep_target(actions: Seq<NightAction>, more: Seq<NightAction>)
    requires
        forall|i: int| 0 <= i < more.len() ==> !(#[trigger] more[i] is EatVote),
    ensures
        majority_spec(actions + more) == majority_spec(actions),
{
    assert forall|t: PlayerId| #[trigger] eat_votes(actions + more, t) == eat_votes(actions, t) by {
        lemma_eat_votes_concat(actions, more, t);
        lemma_no_eat_votes(more, t);
    }
    lemma_majority_by_counts(actions + more, actions);
}

/// A question for one player: pick `count` distinct players for `prompt`.
#[derive(Debug, Clone, Copy, PartialEq, Eq, Structural)]
pub struct Question {
    pub player: PlayerId,
    pub prompt: Prompt,
    pub count: usize,
}

/// The model of a night in progress.
pub struct NightModel {
    /// Everyone alive at nightfall, in the order they are resolved.
    pub players: Seq<NightPlayer>,
    /// Their ids, in the same order.
    pub alive: Seq<PlayerId>,
    /// Per-player role state, by player id.
    pub states: Map<u64, RoleState>,
    /// Every action produced so far.
    pub actions: Seq<NightAction>,
    /// Whether the roles depending on the wolf target are being resolved.
    pub stage_two: bool,
    /// The index of the player being resolved.
    pub next: int,
    /// The Witch's heal answer, once given and until her poison answer.
    pub heal: Option<Option<PlayerId>>,
    /// The tallied wolf target, once stage one is over.
    pub wolf_target: Option<PlayerId>,
}

/// Whether a role is resolved in the given stage: stage one takes the roles
/// that need no prior fact, stage two the others.
pub open spec fn in_stage(role: Role, stage_two: bool) -> bool {
    (requires_spec(role).len() == 0) != stage_two
}

/// Whether a role resolved in the given stage is asked a question first.
pub open spec fn asked(role: Role, stage_two: bool) -> bool {
    stage_two || role == Role::Cupid || one_target_prompt_spec(role) is Some
}

/// A player's role state; a player seen for the first time starts fresh.
pub open spec fn state_of(states: Map<u64, RoleState>, id: PlayerId) -> RoleState {
    if states.contains_key(id.0) { states[id.0] } else { fresh_state() }
}

/// Runs the current player's night action with the given answers, records
/// their actions and new state, and moves to the next player.
pub open spec fn resolve_player(
    m: NightModel,
    chosen: Option<PlayerId>,
    heal: Option<PlayerId>,
    poison: Option<PlayerId>,
    love: Option<(PlayerId, PlayerId)>,
) -> NightModel {
    let p = m.players[m.next];
    let out = night_model(
        p.role,
        m.alive,
        p.id,
        chosen,
        heal,
        poison,
        love,
        if m.stage_two { m.wolf_target } else { None },
        false,
        state_of(m.states, p.id),
    );
    NightModel {
        states: m.states.insert(p.id.0, out.1),
        actions: m.actions + out.0,
        next: m.next + 1,
        heal: None,
        ..m
    }
}

/// Moves past every player who needs no question: players of the other
/// stage are skipped, and players of this stage who are asked nothing are
/// resolved with nothing chosen. At the end of stage one the eat votes are
/// tallied into the wolf target and stage two begins.
pub open spec fn settle(m: NightModel) -> NightModel
    decreases (if m.stage_two { 0int } else { 1int }), m.players.len() - m.next,
{
    if m.next < 0 {
        m
    } else if m.next >= m.players.len() {
        if m.stage_two {
            m
        } else {
            settle(NightModel { stage_two: true, next: 0, wolf_target: majority_spec(m.actions), ..m })
        }
    } else {
        let p = m.players[m.next];
        if !in_stage(p.role, m.stage_two) {
            settle(NightModel { next: m.next + 1, ..m })
        } else if asked(p.role, m.stage_two) {
            m
        } else {
            settle(resolve_player(m, None, None, None, None))
        }
    }
}

/// The night is over: both stages have run through every player.
pub open spec fn night_done(m: NightModel) -> bool {
    m.stage_two && m.next >= m.players.len()
}

/// The question the current player is to be asked.
pub open spec fn question_spec(m: NightModel) -> Option<Question> {
    if night_done(m) || m.next < 0 || m.next >= m.players.len() {
        None
    } else {
        let p = m.players[m.next];
        if m.stage_two {
            match m.heal {
                None => Some(Question { player: p.id, prompt: Prompt::WitchHeal, count: 1 }),
                Some(_) => Some(Question { player: p.id, prompt: Prompt::WitchPoison, count: 1 }),
            }
        } else if p.role == Role::Cupid {
            Some(Question { player: p.id, prompt: Prompt::CupidLink, count: 2 })
        } else {
            match one_target_prompt_spec(p.role) {
                Some(prompt) => Some(Question { player: p.id, prompt, count: 1 }),
                None => None,
            }
        }
    }
}

/// Takes the current player's answer. Cupid's answer is read as two
/// targets, every other answer as one; the Witch's heal answer is kept until
/// her poison answer arrives.
pub open spec fn answer_spec(m: NightModel, reply: Option<Seq<PlayerId>>) -> NightModel {
    let p = m.players[m.next];
    if !m.stage_two {
        if p.role == Role::Cupid {
            settle(resolve_player(m, None, None, None, two_targets_spec(reply)))
        } else {
            settle(resolve_player(m, one_target_spec(reply), None, None, None))
        }
    } else {
        match m.heal {
            None => NightModel { heal: Some(one_target_spec(reply)), ..m },
            Some(h) => settle(resolve_player(m, None, h, one_target_spec(reply), None)),
        }
    }
}

/// The ids of the given players, in order.
pub open spec fn ids_of(players: Seq<NightPlayer>) -> Seq<PlayerId> {
    players.map_values(|p: NightPlayer| p.id)
}

/// A night about to start: nobody resolved, nothing produced.
pub open spec fn initial_model(players: Seq<NightPlayer>, states: Map<u64, RoleState>) -> NightModel {
    NightModel {
        players,
        alive: ids_of(players),
        states,
        actions: Seq::empty(),
        stage_two: false,
        next: 0,
        heal: None,
        wolf_target: None,
    }
}

/// What holds of every night in progress.
pub open spec fn model_inv(m: NightModel) -> bool {
    &&& 0 <= m.next <= m.players.len()
    &&& m.alive == ids_of(m.players)
    &&& m.heal is Some ==> m.stage_two && m.next < m.players.len() && in_stage(m.players[m.next].role, m.stage_two)
    &&& m.stage_two ==> m.wolf_target == majority_spec(m.actions)
}

/// Resolution has stopped at a question or at the end of the night.
pub open spec fn settled(m: NightModel) -> bool {
    settle(m) == m
}

/// An action list with no eat vote in it counts no votes.
proof fn lemma_no_eat_votes(out: Seq<NightAction>, t: PlayerId)
    requires
        forall|i: int| 0 <= i < out.len() ==> !(#[trigger] out[i] is EatVote),
    ensures
        eat_votes(out, t) == 0,
    decreases out.len(),
{
    if out.len() > 0 {
        assert(out.last() == out[out.len() - 1]);
        lemma_no_eat_votes(out.drop_last(), t);
    }
}

/// Resolving a player keeps the invariant. In stage two only the Witch is
/// resolved, whose potions are not eat votes, so the tallied wolf target
/// stays the majority of all actions.
pub proof fn lemma_resolve_keeps_inv(
    m: NightModel,
    chosen: Option<PlayerId>,
    heal: Option<PlayerId>,
    poison: Option<PlayerId>,
    love: Option<(PlayerId, PlayerId)>,
)
    requires
        model_inv(m),
        m.next < m.players.len(),
        in_stage(m.players[m.next].role, m.stage_two),
    ensures
        model_inv(resolve_player(m, chosen, heal, poison, love)),
{
    let r = resolve_player(m, chosen, heal, poison, love);
    if m.stage_two {
        let p = m.players[m.next];
        let out = night_model(p.role, m.alive, p.id, chosen, heal, poison, love, m.wolf_target, false, state_of(m.states, p.id));
        assert(p.role == Role::Witch);
        assert forall|t: PlayerId| #[trigger] eat_votes(r.actions, t) == eat_votes(m.actions, t) by {
            lemma_eat_votes_concat(m.actions, out.0, t);
            lemma_no_eat_votes(out.0, t);
        }
        lemma_majority_by_counts(r.actions, m.actions);
    }
}

/// Settling keeps the invariant and stops at a question or at the end.
pub proof fn lemma_settle(m: NightModel)
    requires
        model_inv(m),
    ensures
        model_inv(settle(m)),
        settled(settle(m)),
        night_done(settle(m)) || {
            let s = settle(m);
            &&& s.next < s.players.len()
            &&& in_stage(s.players[s.next].role, s.stage_two)
            &&& asked(s.players[s.next].role, s.stage_two)
        },
    decreases (if m.stage_two { 0int } else { 1int }), m.players.len() - m.next,
{
    if m.next >= m.players.len() {
        if !m.stage_two {
            let n = NightModel { stage_two: true, next: 0, wolf_target: majority_spec(m.actions), ..m };
            lemma_settle(n);
        }
    } else {
        let p = m.players[m.next];
        if !in_stage(p.role, m.stage_two) {
            lemma_settle(NightModel { next: m.next + 1, ..m });
        } else if asked(p.role, m.stage_two) {
        } else {
            lemma_resolve_keeps_inv(m, None, None, None, None);
            lemma_settle(resolve_player(m, None, None, None, None));
        }
    }
}

/// Law: a settled night in progress always has a question to ask.
pub proof fn law_unfinished_night_asks(m: NightModel)
    requires
        model_inv(m),
        settled(m),
        !night_done(m),
    ensures
        question_spec(m) is Some,
{
    lemma_settle(m);
}

/// Law: answering keeps the night well formed and brings it to the next
/// question or to its end.
pub proof fn law_answer_keeps_inv(m: NightModel, reply: Option<Seq<PlayerId>>)
    requires
        model_inv(m),
        settled(m),
        !night_done(m),
    ensures
        model_inv(answer_spec(m, reply)),
        settled(answer_spec(m, reply)),
{
    lemma_settle(m);
    let p = m.players[m.next];
    if !m.stage_two {
        if p.role == Role::Cupid {
            lemma_resolve_keeps_inv(m, None, None, None, two_targets_spec(reply));
            lemma_settle(resolve_player(m, None, None, None, two_targets_spec(reply)));
        } else {
            lemma_resolve_keeps_inv(m, one_target_spec(reply), None, None, None);
            lemma_settle(resolve_player(m, one_target_spec(reply), None, None, None));
        }
    } else {
        match m.heal {
            None => {
                let n = NightModel { heal: Some(one_target_spec(reply)), ..m };
                assert(settle(n) == n);
            },
            Some(h) => {
                lemma_resolve_keeps_inv(m, None, h, one_target_spec(reply), None);
                lemma_settle(resolve_player(m, None, h, one_target_spec(reply), None));
            },
        }
    }
}

/// Law: the wolf target a night ends with is the majority of the eat votes
/// among every action the night produced.
pub proof fn law_wolf_target_is_majority(m: NightModel)
    requires
        model_inv(m),
        night_done(m),
    ensures
        m.wolf_target == majority_spec(m.actions),
{
}

/// Law: the Witch is asked only once the wolves' vote has been tallied, and
/// nobody else is asked about potions.
pub proof fn law_witch_asked_after_tally(m: NightModel)
    requires
        model_inv(m),
        settled(m),
        question_spec(m) matches Some(q) && (q.prompt == Prompt::WitchHeal || q.prompt == Prompt::WitchPoison),
    ensures
        m.stage_two,
        m.wolf_target == majority_spec(m.actions),
        m.players[m.next].role == Role::Witch,
{
    lemma_settle(m);
}

/// The working state of a night being resolved.
struct Night {
    players: Vec<NightPlayer>,
    alive: Vec<PlayerId>,
    states: HashMap<u64, RoleState>,
    actions: Vec<NightAction>,
    stage_two: bool,
    next: usize,
    heal: Option<Option<PlayerId>>,
    wolf_target: Option<PlayerId>,
}

impl View for Night {
    type V = NightModel;

    closed spec fn view(&self) -> NightModel {
        NightModel {
            players: self.players@,
            alive: self.alive@,
            states: self.states@,
            actions: self.actions@,
            stage_two: self.stage_two,
            next: self.next as int,
            heal: self.heal,
            wolf_target: self.wolf_target,
        }
    }
}

impl Night {
    /// Well formed: the invariant holds and resolution has stopped at a
    /// question or at the end of the night.
    spec fn wf(&self) -> bool {
        model_inv(self@) && settled(self@)
    }

    /// Starts a night for the living `players`, with the role state kept
    /// from earlier nights, and resolves everyone up to the first question.
    fn start(players: Vec<NightPlayer>, states: HashMap<u64, RoleState>) -> (r: Night)
        ensures
            r.wf(),
            r@ == settle(initial_model(players@, states@)),
    {
        let mut alive: Vec<PlayerId> = Vec::new();
        let mut i: usize = 0;
        while i < players.len()
            invariant
                0 <= i <= players@.len(),
                alive@ == ids_of(players@.take(i as int)),
            decreases players@.len() - i,
        {
            proof {
                assert(ids_of(players@.take(i + 1)) =~= ids_of(players@.take(i as int)).push(players@[i as int].id));
            }
            alive.push(players[i].id);
            i = i + 1;
        }
        assert(players@.take(players@.len() as int) =~= players@);
        let mut r = Night {
            players,
            alive,
            states,
            actions: Vec::new(),
            stage_two: false,
            next: 0,
            heal: None,
            wolf_target: None,
        };
        assert(r@ == initial_model(r.players@, r.states@));
        r.settle();
        r
    }

    /// Runs the current player's night action and moves on.
    fn resolve_current(
        &mut self,
        chosen: Option<PlayerId>,
        heal: Option<PlayerId>,
        poison: Option<PlayerId>,
        love: Option<(PlayerId, PlayerId)>,
    )
        requires
            model_inv(old(self)@),
            old(self)@.next < old(self)@.players.len(),
            in_stage(old(self)@.players[old(self)@.next].role, old(self)@.stage_two),
        ensures
            final(self)@ == resolve_player(old(self)@, chosen, heal, poison, love),
            model_inv(final(self)@),
    {
        proof {
            lemma_resolve_keeps_inv(self@, chosen, heal, poison, love);
        }
        let len = self.players.len();
        let p = self.players[self.next];
        let mut st = match self.states.get(&p.id.0) {
            Some(s) => *s,
            None => RoleState::new(),
        };
        let wolf = if self.stage_two { self.wolf_target } else { None };
        let mut acts = {
            let ctx = NightContext {
                alive: self.alive.as_slice(),
                self_id: p.id,
                chosen_target: chosen,
                heal_target: heal,
                poison_target: poison,
                love_targets: love,
                wolf_target: wolf,
                toggle_choice: false,
            };
            behavior_for(p.role).night_action(&ctx, &mut st)
        };
        self.states.insert(p.id.0, st);
        self.actions.append(&mut acts);
        assert(self.next < len);
        self.next = self.next + 1;
        self.heal = None;
    }

    /// Resolves everyone who needs no question, up to the next question or
    /// the end of the night.
    fn settle(&mut self)
        requires
            model_inv(old(self)@),
        ensures
            final(self)@ == settle(old(self)@),
            model_inv(final(self)@),
            settled(final(self)@),
    {
        proof {
            lemma_settle(self@);
        }
        let ghost target = settle(self@);
        loop
            invariant
                model_inv(self@),
                settle(self@) == target,
            ensures
                self@ == target,
            decreases (if self.stage_two { 0int } else { 1int }), self.players@.len() - self.next,
        {
            if self.next >= self.players.len() {
                if self.stage_two {
                    break;
                }
                let w = majority_eat_target(self.actions.as_slice());
                self.wolf_target = w;
                self.stage_two = true;
                self.next = 0;
            } else {
                let p = self.players[self.next];
                let needs = behavior_for(p.role).required_facts();
                let in_this_stage = (needs.len() == 0) != self.stage_two;
                if !in_this_stage {
                    self.next = self.next + 1;
                } else if self.stage_two || p.role == Role::Cupid || one_target_prompt(p.role).is_some() {
                    break;
                } else {
                    self.resolve_current(None, None, None, None);
                }
            }
        }
    }

    /// The question to ask next, or `None` once the night is over.
    fn question(&self) -> (q: Option<Question>)
        requires
            self.wf(),
        ensures
            q == question_spec(self@),
            q is None <==> night_done(self@),
    {
        proof {
            lemma_settle(self@);
        }
        if self.stage_two && self.next >= self.players.len() {
            return None;
        }
        let p = self.players[self.next];
        if self.stage_two {
            match self.heal {
                None => Some(Question { player: p.id, prompt: Prompt::WitchHeal, count: 1 }),
                Some(_) => Some(Question { player: p.id, prompt: Prompt::WitchPoison, count: 1 }),
            }
        } else if p.role == Role::Cupid {
            Some(Question { player: p.id, prompt: Prompt::CupidLink, count: 2 })
        } else {
            match one_target_prompt(p.role) {
                Some(prompt) => Some(Question { player: p.id, prompt, count: 1 }),
                None => None,
            }
        }
    }

    /// Whether the night is over.
    fn is_done(&self) -> (b: bool)
        ensures
            b == night_done(self@),
    {
        self.stage_two && self.next >= self.players.len()
    }

    /// Takes the answer to the current question (`None`: the player declined
    /// or timed out) and resolves up to the next question.
    fn answer(&mut self, reply: Option<Vec<PlayerId>>)
        requires
            old(self).wf(),
            !night_done(old(self)@),
        ensures
            final(self).wf(),
            final(self)@ == answer_spec(old(self)@, reply_view(reply)),
    {
        proof {
            lemma_settle(self@);
            law_answer_keeps_inv(self@, reply_view(reply));
        }
        let p = self.players[self.next];
        if !self.stage_two {
            if p.role == Role::Cupid {
                let love = two_targets_from(reply);
                self.resolve_current(None, None, None, love);
            } else {
                let chosen = one_target_from(reply);
                self.resolve_current(chosen, None, None, None);
            }
            self.settle();
        } else {
            match self.heal {
                None => {
                    self.heal = Some(one_target_from(reply));
                },
                Some(h) => {
                    let poison = one_target_from(reply);
                    self.resolve_current(None, h, poison, None);
                    self.settle();
                },
            }
        }
    }

    /// Ends the night: every action produced, the resolved wolf target, and
    /// the role state to keep for later nights.
    fn finish(self) -> (r: (Vec<NightAction>, Option<PlayerId>, HashMap<u64, RoleState>))
        requires
            self.wf(),
            night_done(self@),
        ensures
            r.0@ == self@.actions,
            r.1 == self@.wolf_target,
            r.1 == majority_spec(r.0@),
            r.2@ == self@.states,
    {
        (self.actions, self.wolf_target, self.states)
    }
    /// A night with nobody in it, already over.
    fn finished() -> (r: Night)
        ensures
            r.wf(),
            night_done(r@),
    {
        let r = Night {
            players: Vec::new(),
            alive: Vec::new(),
            states: HashMap::new(),
            actions: Vec::new(),
            stage_two: true,
            next: 0,
            heal: None,
            wolf_target: None,
        };
        proof {
            assert(r@.alive =~= ids_of(r@.players));
            if exists|t: PlayerId| is_majority(r@.actions, t) {
                let t = choose|t: PlayerId| is_majority(r@.actions, t);
                assert(eat_votes(r@.actions, t) == 0);
            }
        }
        r
    }
}

/// A night being resolved, one question at a time. It is always well
/// formed: its invariant holds and resolution has stopped at a question or
/// at the end of the night.
pub struct NightResolution {
    night: Night,
}

impl View for NightResolution {
    type V = NightModel;

    closed spec fn view(&self) -> NightModel {
        self.night@
    }
}

impl NightResolution {
    #[verifier::type_invariant]
    spec fn well_formed(self) -> bool {
        self.night.wf()
    }

    /// Starts a night for the living `players`, with the role state kept
    /// from earlier nights, and resolves everyone up to the first question.
    pub fn start(players: Vec<NightPlayer>, states: HashMap<u64, RoleState>) -> (r: NightResolution)
        ensures
            r@ == settle(initial_model(players@, states@)),
            model_inv(r@),
            settled(r@),
    {
        NightResolution { night: Night::start(players, states) }
    }

    /// The question to ask next, or `None` once the night is over.
    pub fn question(&self) -> (q: Option<Question>)
        ensures
            q == question_spec(self@),
            q is None <==> night_done(self@),
            model_inv(self@),
            settled(self@),
    {
        proof {
            use_type_invariant(self);
        }
        self.night.question()
    }

    /// Whether the night is over.
    pub fn is_done(&self) -> (b: bool)
        ensures
            b == night_done(self@),
    {
        self.night.is_done()
    }

    /// Takes the answer to the current question (`None`: the player declined
    /// or timed out) and resolves up to the next question.
    pub fn answer(&mut self, reply: Option<Vec<PlayerId>>)
        requires
            !night_done(old(self)@),
        ensures
            final(self)@ == answer_spec(old(self)@, reply_view(reply)),
            model_inv(final(self)@),
            settled(final(self)@),
    {
        proof {
            use_type_invariant(&*self);
        }
        let mut night = Night::finished();
        std::mem::swap(&mut night, &mut self.night);
        night.answer(reply);
        self.night = night;
    }

    /// Ends the night: every action produced, the resolved wolf target, and
    /// the role state to keep for later nights.
    pub fn finish(self) -> (r: (Vec<NightAction>, Option<PlayerId>, HashMap<u64, RoleState>))
        requires
            night_done(self@),
        ensures
            r.0@ == self@.actions,
            r.1 == self@.wolf_target,
            r.1 == majority_spec(r.0@),
            r.2@ == self@.states,
    {
        proof {
            use_type_invariant(&self);
        }
        self.night.finish()
    }
}

} // verus!
