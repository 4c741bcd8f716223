//! The Fool investigates one other living player overnight, exactly like the
//! Detective; the answer the Fool receives is fake, which is a display matter
//! decided elsewhere.

use vstd::prelude::*;
use crate::roles::{is_alive, night_outcome, NightAction, NightContext, RoleBehavior, RoleState};
use crate::types::{Role, Team, role_team};

verus! {

pub struct Fool;

impl RoleBehavior for Fool {
    fn team(&self) -> (t: Team)
        ensures
            t == role_team(Role::Fool),
    {
        Role::Fool.team()
    }

    fn night_action(&self, ctx: &NightContext, state: &mut RoleState) -> (actions: Vec<NightAction>)
        ensures
            (actions@, *final(state)) == night_outcome(Role::Fool, ctx, *old(state)),
    {
        match ctx.chosen_target {
            Some(target) if target.0 != ctx.self_id.0 && is_alive(ctx.alive, target) => {
                vec![NightAction::Investigate { target }]
            },
            _ => vec![],
        }
    }
}

} // verus!
