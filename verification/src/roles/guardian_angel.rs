//! The Guardian Angel protects one living player overnight; protecting herself
//! is allowed.

use vstd::prelude::*;
use crate::roles::{is_alive, night_outcome, NightAction, NightContext, RoleBehavior, RoleState};
use crate::types::{Role, Team, role_team};

verus! {

pub struct GuardianAngel;

impl RoleBehavior for GuardianAngel {
    fn team(&self) -> (t: Team)
        ensures
            t == role_team(Role::GuardianAngel),
    {
        Role::GuardianAngel.team()
    }

    fn night_action(&self, ctx: &NightContext, state: &mut RoleState) -> (actions: Vec<NightAction>)
        ensures
            (actions@, *final(state)) == night_outcome(Role::GuardianAngel, ctx, *old(state)),
    {
        match ctx.chosen_target {
            Some(target) if is_alive(ctx.alive, target) => vec![NightAction::Protect { target }],
            _ => vec![],
        }
    }
}

} // verus!
