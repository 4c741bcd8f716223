//! The Arsonist either douses another living player (no limit; the latest
//! target is remembered) or, with the toggle set, sparks and detonates everyone
//! doused so far. Only the most recent douse target fits in `RoleState`.

use vstd::prelude::*;
use crate::roles::{is_alive, night_outcome, NightAction, NightContext, RoleBehavior, RoleState};
use crate::types::{Role, Team, role_team};

verus! {

pub struct Arsonist;

impl RoleBehavior for Arsonist {
    fn team(&self) -> (t: Team)
        ensures
            t == role_team(Role::Arsonist),
    {
        Role::Arsonist.team()
    }

    fn night_action(&self, ctx: &NightContext, state: &mut RoleState) -> (actions: Vec<NightAction>)
        ensures
            (actions@, *final(state)) == night_outcome(Role::Arsonist, ctx, *old(state)),
    {
        if ctx.toggle_choice {
            return vec![NightAction::Detonate];
        }
        if let Some(target) = ctx.chosen_target {
            if target.0 != ctx.self_id.0 && is_alive(ctx.alive, target) {
                state.remembered_player = Some(target);
                return vec![NightAction::Douse { target }];
            }
        }
        vec![]
    }
}

} // verus!
