//! The Troublemaker chooses, once, to force a second lynch vote today: a
//! yes/no toggle, like the Mayor's reveal. Trouble overrides a same-day veto
//! where day results are applied.

use vstd::prelude::*;
use crate::roles::{day_outcome, DayAction, DayContext, RoleBehavior, RoleState};
use crate::types::{Role, Team, role_team};

verus! {

pub struct Troublemaker;

impl RoleBehavior for Troublemaker {
    fn team(&self) -> (t: Team)
        ensures
            t == role_team(Role::Troublemaker),
    {
        Role::Troublemaker.team()
    }

    fn day_action(&self, ctx: &DayContext, state: &mut RoleState) -> (actions: Vec<DayAction>)
        ensures
            (actions@, *final(state)) == day_outcome(Role::Troublemaker, ctx, *old(state)),
    {
        if state.primary_used || !ctx.toggle_choice {
            return vec![];
        }
        state.primary_used = true;
        vec![DayAction::Trouble]
    }
}

} // verus!
