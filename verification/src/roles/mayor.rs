//! The Mayor chooses, once, whether to reveal their role publicly: a yes/no
//! toggle carried by `DayContext::toggle_choice`. The doubled lynch vote that
//! follows is a matter of vote weight, not of this action.

use vstd::prelude::*;
use crate::roles::{day_outcome, DayAction, DayContext, RoleBehavior, RoleState};
use crate::types::{Role, Team, role_team};

verus! {

pub struct Mayor;

impl RoleBehavior for Mayor {
    fn team(&self) -> (t: Team)
        ensures
            t == role_team(Role::Mayor),
    {
        Role::Mayor.team()
    }

    fn day_action(&self, ctx: &DayContext, state: &mut RoleState) -> (actions: Vec<DayAction>)
        ensures
            (actions@, *final(state)) == day_outcome(Role::Mayor, ctx, *old(state)),
    {
        if state.primary_used || !ctx.toggle_choice {
            return vec![];
        }
        state.primary_used = true;
        vec![DayAction::Reveal]
    }
}

} // verus!
