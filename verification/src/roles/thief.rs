//! The Thief steals another living player's role, once (the primary flag).
//! The payoff is immediate, hence its own `StealRole` action.

use vstd::prelude::*;
use crate::roles::{is_alive, night_outcome, NightAction, NightContext, RoleBehavior, RoleState};
use crate::types::{Role, Team, role_team};

verus! {

pub struct Thief;

impl RoleBehavior for Thief {
    fn team(&self) -> (t: Team)
        ensures
            t == role_team(Role::Thief),
    {
        Role::Thief.team()
    }

    fn night_action(&self, ctx: &NightContext, state: &mut RoleState) -> (actions: Vec<NightAction>)
        ensures
            (actions@, *final(state)) == night_outcome(Role::Thief, ctx, *old(state)),
    {
        if state.primary_used {
            return vec![];
        }
        if let Some(target) = ctx.chosen_target {
            if target.0 != ctx.self_id.0 && is_alive(ctx.alive, target) {
                state.primary_used = true;
                return vec![NightAction::StealRole { target }];
            }
        }
        vec![]
    }
}

} // verus!
