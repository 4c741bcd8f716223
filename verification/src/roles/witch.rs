//! The Witch has two independent one-shot potions: heal (cancel tonight's
//! wolf kill; the primary flag) and poison (kill a living player outright; the
//! secondary flag). Both can be used on the same night, which is why a night
//! hook returns a `Vec`.
//!
//! Heal only ever targets the wolves' victim, so it needs the resolved
//! `wolf_target`: the Witch declares that dependency in `required_facts`, and
//! the orchestrator asks her only once the wolf vote is tallied. She is not
//! yet dealt to players (`is_available` is false).

use vstd::prelude::*;
use crate::roles::{
    available_spec, is_alive, night_outcome, requires_spec, NightAction, NightContext,
    NightFact, RoleBehavior, RoleState,
};
use crate::types::{Role, Team, role_team};

verus! {

pub struct Witch;

impl RoleBehavior for Witch {
    fn team(&self) -> (t: Team)
        ensures
            t == role_team(Role::Witch),
    {
        Role::Witch.team()
    }

    fn night_action(&self, ctx: &NightContext, state: &mut RoleState) -> (actions: Vec<NightAction>)
        ensures
            (actions@, *final(state)) == night_outcome(Role::Witch, ctx, *old(state)),
    {
        let mut actions: Vec<NightAction> = Vec::new();

        // Heal is valid only on the resolved wolf target.
        if !state.primary_used {
            if let (Some(target), Some(wolf_target)) = (ctx.heal_target, ctx.wolf_target) {
                if target.0 == wolf_target.0 && is_alive(ctx.alive, target) {
                    state.primary_used = true;
                    actions.push(NightAction::Heal { target });
                }
            }
        }

        // Poison has no dependency: any living player, any night.
        if !state.secondary_used {
            if let Some(target) = ctx.poison_target {
                if is_alive(ctx.alive, target) {
                    state.secondary_used = true;
                    actions.push(NightAction::Poison { target });
                }
            }
        }

        actions
    }

    fn required_facts(&self) -> (facts: Vec<NightFact>)
        ensures
            facts@ == requires_spec(Role::Witch),
    {
        vec![NightFact::WolfTarget]
    }

    fn is_available(&self) -> (b: bool)
        ensures
            b == available_spec(Role::Witch),
    {
        false
    }
}

} // verus!
