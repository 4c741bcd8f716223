//! The Oracle checks one other living player overnight and would be shown a
//! role the target does not have; this file only validates the target.

use vstd::prelude::*;
use crate::roles::{is_alive, night_outcome, NightAction, NightContext, RoleBehavior, RoleState};
use crate::types::{Role, Team, role_team};

verus! {

pub struct Oracle;

impl RoleBehavior for Oracle {
    fn team(&self) -> (t: Team)
        ensures
            t == role_team(Role::Oracle),
    {
        Role::Oracle.team()
    }

    fn night_action(&self, ctx: &NightContext, state: &mut RoleState) -> (actions: Vec<NightAction>)
        ensures
            (actions@, *final(state)) == night_outcome(Role::Oracle, ctx, *old(state)),
    {
        match ctx.chosen_target {
            Some(target) if target.0 != ctx.self_id.0 && is_alive(ctx.alive, target) => {
                vec![NightAction::Investigate { target }]
            },
            _ => vec![],
        }
    }
}

} // verus!
