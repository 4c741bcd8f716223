//! The Blacksmith spreads protective silver to another living player during the
//! day, once per game (the primary flag). Whether the silver protects anyone is
//! resolution logic not attempted here.

use vstd::prelude::*;
use crate::roles::{is_alive, day_outcome, DayAction, DayContext, RoleBehavior, RoleState};
use crate::types::{Role, Team, role_team};

verus! {

pub struct Blacksmith;

impl RoleBehavior for Blacksmith {
    fn team(&self) -> (t: Team)
        ensures
            t == role_team(Role::Blacksmith),
    {
        Role::Blacksmith.team()
    }

    fn day_action(&self, ctx: &DayContext, state: &mut RoleState) -> (actions: Vec<DayAction>)
        ensures
            (actions@, *final(state)) == day_outcome(Role::Blacksmith, ctx, *old(state)),
    {
        if state.primary_used {
            return vec![];
        }
        if let Some(target) = ctx.chosen_target {
            if target.0 != ctx.self_id.0 && is_alive(ctx.alive, target) {
                state.primary_used = true;
                return vec![DayAction::SpreadSilver { target }];
            }
        }
        vec![]
    }
}

} // verus!
