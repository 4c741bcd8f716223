//! Properties that hold of every role's night and day behavior at once.

use vstd::prelude::*;
use crate::roles::{
    day_action_within, day_outcome, night_action_within, night_outcome, witch_outcome, DayAction,
    DayContext, NightAction, NightContext, RoleState,
};
use crate::types::{is_wolf_muscle_spec, role_team, PlayerId, Role, Team};

verus! {

/// Roles whose night ability can be used once per game (the primary flag).
pub open spec fn night_once_role(role: Role) -> bool {
    match role {
        Role::Cupid | Role::WildChild | Role::Doppelganger | Role::Thief | Role::Sandman => true,
        _ => false,
    }
}

/// Roles whose day ability can be used once per game (the primary flag).
pub open spec fn day_once_role(role: Role) -> bool {
    match role {
        Role::Blacksmith | Role::Mayor | Role::Pacifist | Role::Troublemaker => true,
        _ => false,
    }
}

/// Whether an action names `p` as its target.
pub open spec fn night_targets(a: NightAction, p: crate::types::PlayerId) -> bool {
    match a {
        NightAction::EatVote { target } | NightAction::CheckTeam { target }
        | NightAction::Heal { target } | NightAction::Poison { target }
        | NightAction::Investigate { target } | NightAction::Protect { target }
        | NightAction::ChooseRoleModel { target } | NightAction::StealRole { target }
        | NightAction::ConvertVote { target } | NightAction::SerialKillVote { target }
        | NightAction::Chemistry { target } | NightAction::Douse { target }
        | NightAction::Visit { target, .. } => target == p,
        NightAction::LinkLovers { a, b } => a == p || b == p,
        NightAction::Detonate | NightAction::SandmanSleep => false,
    }
}

/// Law: every night action any role emits names only living players, and a
/// visit is always made by the visitor themself.
pub proof fn law_night_actions_name_the_living(role: Role, ctx: &NightContext, st: RoleState)
    ensures
        forall|i: int| 0 <= i < night_outcome(role, ctx, st).0.len()
            ==> night_action_within(ctx.alive@, ctx.self_id, #[trigger] night_outcome(role, ctx, st).0[i]),
{
}

/// Law: every day action any role emits names only living players.
pub proof fn law_day_actions_name_the_living(role: Role, ctx: &DayContext, st: RoleState)
    ensures
        forall|i: int| 0 <= i < day_outcome(role, ctx, st).0.len()
            ==> day_action_within(ctx.alive@, #[trigger] day_outcome(role, ctx, st).0[i]),
{
}

/// Law: a spent ability stays spent; night and day never reset a flag.
pub proof fn law_flags_stay_spent(role: Role, nctx: &NightContext, dctx: &DayContext, st: RoleState)
    ensures
        st.primary_used ==> night_outcome(role, nctx, st).1.primary_used,
        st.secondary_used ==> night_outcome(role, nctx, st).1.secondary_used,
        st.primary_used ==> day_outcome(role, dctx, st).1.primary_used,
        st.secondary_used ==> day_outcome(role, dctx, st).1.secondary_used,
{
}

/// Law: an ability is never spent on a no-op: a flag only flips when the
/// role emits an action.
pub proof fn law_no_flag_spent_without_action(role: Role, nctx: &NightContext, dctx: &DayContext, st: RoleState)
    ensures
        (!st.primary_used && night_outcome(role, nctx, st).1.primary_used) ==> night_outcome(role, nctx, st).0.len() > 0,
        (!st.secondary_used && night_outcome(role, nctx, st).1.secondary_used) ==> night_outcome(role, nctx, st).0.len() > 0,
        (!st.primary_used && day_outcome(role, dctx, st).1.primary_used) ==> day_outcome(role, dctx, st).0.len() > 0,
        day_outcome(role, dctx, st).1.secondary_used == st.secondary_used,
{
}

/// Law: a once-per-game ability does nothing once its flag is spent; the
/// Witch's spent potions are never used again.
pub proof fn law_once_per_game(role: Role, nctx: &NightContext, dctx: &DayContext, st: RoleState)
    ensures
        night_once_role(role) && st.primary_used ==> night_outcome(role, nctx, st).0.len() == 0,
        day_once_role(role) && st.primary_used ==> day_outcome(role, dctx, st).0.len() == 0,
        role == Role::Witch && st.primary_used ==> forall|i: int| 0 <= i < night_outcome(role, nctx, st).0.len()
            ==> !(#[trigger] night_outcome(role, nctx, st).0[i] is Heal),
        role == Role::Witch && st.secondary_used ==> forall|i: int| 0 <= i < night_outcome(role, nctx, st).0.len()
            ==> !(#[trigger] night_outcome(role, nctx, st).0[i] is Poison),
{
}

/// Law: only the Witch can act twice in one night; every other role emits
/// at most one action per night and per day.
pub proof fn law_at_most_one_action(role: Role, nctx: &NightContext, dctx: &DayContext, st: RoleState)
    ensures
        role != Role::Witch ==> night_outcome(role, nctx, st).0.len() <= 1,
        night_outcome(role, nctx, st).0.len() <= 2,
        day_outcome(role, dctx, st).0.len() <= 1,
{
}

/// Law: only the Guardian Angel and the Harlot can name themselves; every
/// other role's night action leaves the chooser out.
pub proof fn law_only_protect_and_visit_name_self(role: Role, ctx: &NightContext, st: RoleState)
    requires
        role != Role::GuardianAngel,
        role != Role::Harlot,
    ensures
        forall|i: int| 0 <= i < night_outcome(role, ctx, st).0.len()
            ==> !night_targets(#[trigger] night_outcome(role, ctx, st).0[i], ctx.self_id)
                || night_outcome(role, ctx, st).0[i] is Heal
                || night_outcome(role, ctx, st).0[i] is Poison
                || night_outcome(role, ctx, st).0[i] is LinkLovers,
{
}

/// Law: wolf muscle is on the wolf team, and its only night action is an
/// eat vote.
pub proof fn law_wolf_muscle_votes_to_eat(role: Role, ctx: &NightContext, st: RoleState)
    requires
        is_wolf_muscle_spec(role),
    ensures
        role_team(role) == Team::Wolf,
        night_outcome(role, ctx, st).1 == st,
        forall|i: int| 0 <= i < night_outcome(role, ctx, st).0.len()
            ==> #[trigger] night_outcome(role, ctx, st).0[i] is EatVote,
{
}

/// Law: roles whose ability has no per-game limit keep their state, so the
/// same choice on a later night gives the same action.
pub proof fn law_unlimited_abilities_keep_state(role: Role, nctx: &NightContext, dctx: &DayContext, st: RoleState)
    ensures
        !night_once_role(role) && role != Role::Witch && role != Role::Arsonist
            ==> night_outcome(role, nctx, st).1 == st,
        !day_once_role(role) ==> day_outcome(role, dctx, st).1 == st,
{
}

/// Law: the Witch's heal only ever saves the wolves' resolved target; with
/// no resolved target she cannot heal at all.
pub proof fn law_heal_only_the_wolf_target(ctx: &NightContext, st: RoleState)
    ensures
        forall|i: int| 0 <= i < night_outcome(Role::Witch, ctx, st).0.len()
            ==> (#[trigger] night_outcome(Role::Witch, ctx, st).0[i] matches NightAction::Heal { target }
                ==> ctx.wolf_target == Some(target)),
{
}

/// What the Witch's night action reads of one night: the living players,
/// her heal and poison picks, and the wolves' resolved target.
pub struct WitchNight {
    pub alive: Seq<PlayerId>,
    pub heal: Option<PlayerId>,
    pub poison: Option<PlayerId>,
    pub wolf: Option<PlayerId>,
}

/// The Witch's night on the given inputs.
pub open spec fn witch_night(n: WitchNight, st: RoleState) -> (Seq<NightAction>, RoleState) {
    witch_outcome(n.alive, n.heal, n.poison, n.wolf, st)
}

/// The number of heals among some actions.
pub open spec fn heals_in(actions: Seq<NightAction>) -> nat
    decreases actions.len(),
{
    if actions.len() == 0 {
        0
    } else {
        heals_in(actions.drop_last()) + (if actions.last() is Heal { 1nat } else { 0nat })
    }
}

/// The number of poisonings among some actions.
pub open spec fn poisons_in(actions: Seq<NightAction>) -> nat
    decreases actions.len(),
{
    if actions.len() == 0 {
        0
    } else {
        poisons_in(actions.drop_last()) + (if actions.last() is Poison { 1nat } else { 0nat })
    }
}

/// One night: a potion is used exactly when its flag flips, and no flag is
/// ever cleared.
proof fn lemma_witch_one_night(n: WitchNight, st: RoleState)
    ensures
        st.primary_used ==> witch_night(n, st).1.primary_used,
        st.secondary_used ==> witch_night(n, st).1.secondary_used,
        heals_in(witch_night(n, st).0) == (if !st.primary_used && witch_night(n, st).1.primary_used { 1nat } else { 0nat }),
        poisons_in(witch_night(n, st).0) == (if !st.secondary_used && witch_night(n, st).1.secondary_used { 1nat } else { 0nat }),
{
    reveal_with_fuel(heals_in, 3);
    reveal_with_fuel(poisons_in, 3);
    let out = witch_night(n, st).0;
    if out.len() == 2 {
        assert(out.drop_last().drop_last() =~= Seq::<NightAction>::empty());
    } else if out.len() == 1 {
        assert(out.drop_last() =~= Seq::<NightAction>::empty());
    }
}

/// Law: the Witch's night action is her night on the fields of its context.
pub proof fn law_witch_reads_its_night(ctx: &NightContext, st: RoleState)
    ensures
        night_outcome(Role::Witch, ctx, st) == witch_night(
            WitchNight { alive: ctx.alive@, heal: ctx.heal_target, poison: ctx.poison_target, wolf: ctx.wolf_target },
            st,
        ),
{
}

/// The Witch's state after successive calls of her night action on the
/// given contexts, all sharing one state.
pub open spec fn witch_after_calls<'a>(ctxs: Seq<NightContext<'a>>, st: RoleState) -> RoleState
    decreases ctxs.len(),
{
    if ctxs.len() == 0 {
        st
    } else {
        night_outcome(Role::Witch, &ctxs.last(), witch_after_calls(ctxs.drop_last(), st)).1
    }
}

/// The heals made over those calls.
pub open spec fn heals_over_calls<'a>(ctxs: Seq<NightContext<'a>>, st: RoleState) -> nat
    decreases ctxs.len(),
{
    if ctxs.len() == 0 {
        0
    } else {
        heals_over_calls(ctxs.drop_last(), st)
            + heals_in(night_outcome(Role::Witch, &ctxs.last(), witch_after_calls(ctxs.drop_last(), st)).0)
    }
}

/// The poisonings made over those calls.
pub open spec fn poisons_over_calls<'a>(ctxs: Seq<NightContext<'a>>, st: RoleState) -> nat
    decreases ctxs.len(),
{
    if ctxs.len() == 0 {
        0
    } else {
        poisons_over_calls(ctxs.drop_last(), st)
            + poisons_in(night_outcome(Role::Witch, &ctxs.last(), witch_after_calls(ctxs.drop_last(), st)).0)
    }
}

/// Law: over any sequence of calls of the Witch's night action sharing one
/// state, her flags never go from spent to unspent, and each potion is used
/// at most once: exactly once if its flag was unspent at the start and is
/// spent at the end, never otherwise (so never when already spent).
pub proof fn law_each_potion_used_at_most_once_over_calls<'a>(ctxs: Seq<NightContext<'a>>, st: RoleState)
    ensures
        st.primary_used ==> witch_after_calls(ctxs, st).primary_used,
        st.secondary_used ==> witch_after_calls(ctxs, st).secondary_used,
        heals_over_calls(ctxs, st) == (if !st.primary_used && witch_after_calls(ctxs, st).primary_used { 1nat } else { 0nat }),
        poisons_over_calls(ctxs, st) == (if !st.secondary_used && witch_after_calls(ctxs, st).secondary_used { 1nat } else { 0nat }),
        heals_over_calls(ctxs, st) <= 1,
        poisons_over_calls(ctxs, st) <= 1,
    decreases ctxs.len(),
{
    if ctxs.len() > 0 {
        law_each_potion_used_at_most_once_over_calls(ctxs.drop_last(), st);
        let c = ctxs.last();
        let before = witch_after_calls(ctxs.drop_last(), st);
        lemma_witch_one_night(
            WitchNight { alive: c.alive@, heal: c.heal_target, poison: c.poison_target, wolf: c.wolf_target },
            before,
        );
    }
}

/// Law: a role with an every-night single target acts on a pick that is a
/// living player other than itself: exactly one action on that player, its
/// state unchanged. The Seer checks the player's team; wolf muscle votes to
/// eat; the Detective, Fool, Oracle, Sorcerer and Cultist Hunter
/// investigate; the Cultist votes to convert; the Serial Killer votes to
/// kill; the Chemist brews; the Guardian Angel protects; the Harlot visits.
pub proof fn law_a_valid_pick_is_acted_on(ctx: &NightContext, st: RoleState, t: PlayerId)
    requires
        ctx.chosen_target == Some(t),
        t != ctx.self_id,
        ctx.alive@.contains(t),
    ensures
        night_outcome(Role::Seer, ctx, st) == (seq![NightAction::CheckTeam { target: t }], st),
        night_outcome(Role::Wolf, ctx, st) == (seq![NightAction::EatVote { target: t }], st),
        night_outcome(Role::AlphaWolf, ctx, st) == (seq![NightAction::EatVote { target: t }], st),
        night_outcome(Role::WolfCub, ctx, st) == (seq![NightAction::EatVote { target: t }], st),
        night_outcome(Role::Lycan, ctx, st) == (seq![NightAction::EatVote { target: t }], st),
        night_outcome(Role::SnowWolf, ctx, st) == (seq![NightAction::EatVote { target: t }], st),
        night_outcome(Role::Detective, ctx, st) == (seq![NightAction::Investigate { target: t }], st),
        night_outcome(Role::Fool, ctx, st) == (seq![NightAction::Investigate { target: t }], st),
        night_outcome(Role::Oracle, ctx, st) == (seq![NightAction::Investigate { target: t }], st),
        night_outcome(Role::Sorcerer, ctx, st) == (seq![NightAction::Investigate { target: t }], st),
        night_outcome(Role::CultistHunter, ctx, st) == (seq![NightAction::Investigate { target: t }], st),
        night_outcome(Role::Cultist, ctx, st) == (seq![NightAction::ConvertVote { target: t }], st),
        night_outcome(Role::SerialKiller, ctx, st) == (seq![NightAction::SerialKillVote { target: t }], st),
        night_outcome(Role::Chemist, ctx, st) == (seq![NightAction::Chemistry { target: t }], st),
        night_outcome(Role::GuardianAngel, ctx, st) == (seq![NightAction::Protect { target: t }], st),
        night_outcome(Role::Harlot, ctx, st) == (seq![NightAction::Visit { visitor: ctx.self_id, target: t }], st),
{
}

/// Law: a pick that is not a living player, or no pick, gives these roles
/// no action; a pick of themselves gives none either, except to the
/// Guardian Angel and the Harlot, who may protect or visit themselves.
pub proof fn law_an_invalid_pick_is_ignored(ctx: &NightContext, st: RoleState)
    ensures
        (ctx.chosen_target matches Some(t) && t == ctx.self_id) ==> {
            &&& night_outcome(Role::Seer, ctx, st).0.len() == 0
            &&& night_outcome(Role::Wolf, ctx, st).0.len() == 0
            &&& night_outcome(Role::Detective, ctx, st).0.len() == 0
            &&& night_outcome(Role::Fool, ctx, st).0.len() == 0
        },
        (ctx.chosen_target is None || (ctx.chosen_target matches Some(t) && !ctx.alive@.contains(t))) ==> {
            &&& night_outcome(Role::Seer, ctx, st).0.len() == 0
            &&& night_outcome(Role::Wolf, ctx, st).0.len() == 0
            &&& night_outcome(Role::Detective, ctx, st).0.len() == 0
            &&& night_outcome(Role::Fool, ctx, st).0.len() == 0
            &&& night_outcome(Role::GuardianAngel, ctx, st).0.len() == 0
            &&& night_outcome(Role::Harlot, ctx, st).0.len() == 0
        },
        (ctx.chosen_target == Some(ctx.self_id) && ctx.alive@.contains(ctx.self_id)) ==> {
            &&& night_outcome(Role::GuardianAngel, ctx, st) == (seq![NightAction::Protect { target: ctx.self_id }], st)
            &&& night_outcome(Role::Harlot, ctx, st)
                == (seq![NightAction::Visit { visitor: ctx.self_id, target: ctx.self_id }], st)
        },
{
}

} // verus!
