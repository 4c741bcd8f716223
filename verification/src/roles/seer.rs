//! The Seer checks one other living player's team each night.

use vstd::prelude::*;
use crate::roles::{is_alive, night_outcome, NightAction, NightContext, RoleBehavior, RoleState};
use crate::types::{Role, Team, role_team};

verus! {

pub struct Seer;

impl RoleBehavior for Seer {
    fn team(&self) -> (t: Team)
        ensures
            t == role_team(Role::Seer),
    {
        Role::Seer.team()
    }

    fn night_action(&self, ctx: &NightContext, state: &mut RoleState) -> (actions: Vec<NightAction>)
        ensures
            (actions@, *final(state)) == night_outcome(Role::Seer, ctx, *old(state)),
            ctx.chosen_target matches Some(t) ==> (t != ctx.self_id && ctx.alive@.contains(t)
                ==> actions@ == seq![NightAction::CheckTeam { target: t }]),
            *final(state) == *old(state),
    {
        match ctx.chosen_target {
            Some(target) if target.0 != ctx.self_id.0 && is_alive(ctx.alive, target) => {
                vec![NightAction::CheckTeam { target }]
            },
            _ => vec![],
        }
    }
}

} // verus!
