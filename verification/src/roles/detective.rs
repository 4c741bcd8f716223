//! The Detective investigates one other living player overnight (and would
//! learn their exact role). The chance of being spotted by the wolves is not
//! modeled.

use vstd::prelude::*;
use crate::roles::{is_alive, night_outcome, NightAction, NightContext, RoleBehavior, RoleState};
use crate::types::{Role, Team, role_team};

verus! {

pub struct Detective;

impl RoleBehavior for Detective {
    fn team(&self) -> (t: Team)
        ensures
            t == role_team(Role::Detective),
    {
        Role::Detective.team()
    }

    fn night_action(&self, ctx: &NightContext, state: &mut RoleState) -> (actions: Vec<NightAction>)
        ensures
            (actions@, *final(state)) == night_outcome(Role::Detective, ctx, *old(state)),
    {
        match ctx.chosen_target {
            Some(target) if target.0 != ctx.self_id.0 && is_alive(ctx.alive, target) => {
                vec![NightAction::Investigate { target }]
            },
            _ => vec![],
        }
    }
}

} // verus!
