//! The Cultist Hunter checks one other living player overnight, hunting for
//! Cultists; what comes back is decided elsewhere.

use vstd::prelude::*;
use crate::roles::{is_alive, night_outcome, NightAction, NightContext, RoleBehavior, RoleState};
use crate::types::{Role, Team, role_team};

verus! {

pub struct CultistHunter;

impl RoleBehavior for CultistHunter {
    fn team(&self) -> (t: Team)
        ensures
            t == role_team(Role::CultistHunter),
    {
        Role::CultistHunter.team()
    }

    fn night_action(&self, ctx: &NightContext, state: &mut RoleState) -> (actions: Vec<NightAction>)
        ensures
            (actions@, *final(state)) == night_outcome(Role::CultistHunter, ctx, *old(state)),
    {
        match ctx.chosen_target {
            Some(target) if target.0 != ctx.self_id.0 && is_alive(ctx.alive, target) => {
                vec![NightAction::Investigate { target }]
            },
            _ => vec![],
        }
    }
}

} // verus!
