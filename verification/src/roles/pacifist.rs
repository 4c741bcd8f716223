//! The Pacifist chooses, once, whether to veto the day's lynch: a yes/no
//! toggle, like the Mayor's reveal.

use vstd::prelude::*;
use crate::roles::{day_outcome, DayAction, DayContext, RoleBehavior, RoleState};
use crate::types::{Role, Team, role_team};

verus! {

pub struct Pacifist;

impl RoleBehavior for Pacifist {
    fn team(&self) -> (t: Team)
        ensures
            t == role_team(Role::Pacifist),
    {
        Role::Pacifist.team()
    }

    fn day_action(&self, ctx: &DayContext, state: &mut RoleState) -> (actions: Vec<DayAction>)
        ensures
            (actions@, *final(state)) == day_outcome(Role::Pacifist, ctx, *old(state)),
    {
        if state.primary_used || !ctx.toggle_choice {
            return vec![];
        }
        state.primary_used = true;
        vec![DayAction::Pacify]
    }
}

} // verus!
