//! The Chemist gambles on a kill every night against another living player.
//! There is no per-game limit: the coin flip, resolved elsewhere, is the only
//! gate.

use vstd::prelude::*;
use crate::roles::{is_alive, night_outcome, NightAction, NightContext, RoleBehavior, RoleState};
use crate::types::{Role, Team, role_team};

verus! {

pub struct Chemist;

impl RoleBehavior for Chemist {
    fn team(&self) -> (t: Team)
        ensures
            t == role_team(Role::Chemist),
    {
        Role::Chemist.team()
    }

    fn night_action(&self, ctx: &NightContext, state: &mut RoleState) -> (actions: Vec<NightAction>)
        ensures
            (actions@, *final(state)) == night_outcome(Role::Chemist, ctx, *old(state)),
    {
        match ctx.chosen_target {
            Some(target) if target.0 != ctx.self_id.0 && is_alive(ctx.alive, target) => {
                vec![NightAction::Chemistry { target }]
            },
            _ => vec![],
        }
    }
}

} // verus!
