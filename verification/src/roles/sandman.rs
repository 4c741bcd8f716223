//! The Sandman chooses, once per game, whether to put everyone to sleep
//! overnight: a yes/no toggle, carried by `NightContext::toggle_choice`.

use vstd::prelude::*;
use crate::roles::{night_outcome, NightAction, NightContext, RoleBehavior, RoleState};
use crate::types::{Role, Team, role_team};

verus! {

pub struct Sandman;

impl RoleBehavior for Sandman {
    fn team(&self) -> (t: Team)
        ensures
            t == role_team(Role::Sandman),
    {
        Role::Sandman.team()
    }

    fn night_action(&self, ctx: &NightContext, state: &mut RoleState) -> (actions: Vec<NightAction>)
        ensures
            (actions@, *final(state)) == night_outcome(Role::Sandman, ctx, *old(state)),
    {
        if state.primary_used || !ctx.toggle_choice {
            return vec![];
        }
        state.primary_used = true;
        vec![NightAction::SandmanSleep]
    }
}

} // verus!
