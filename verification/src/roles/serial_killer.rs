//! The Serial Killer kills another living player overnight, alone, so there is
//! no vote to tally.

use vstd::prelude::*;
use crate::roles::{is_alive, night_outcome, NightAction, NightContext, RoleBehavior, RoleState};
use crate::types::{Role, Team, role_team};

verus! {

pub struct SerialKiller;

impl RoleBehavior for SerialKiller {
    fn team(&self) -> (t: Team)
        ensures
            t == role_team(Role::SerialKiller),
    {
        Role::SerialKiller.team()
    }

    fn night_action(&self, ctx: &NightContext, state: &mut RoleState) -> (actions: Vec<NightAction>)
        ensures
            (actions@, *final(state)) == night_outcome(Role::SerialKiller, ctx, *old(state)),
    {
        match ctx.chosen_target {
            Some(target) if target.0 != ctx.self_id.0 && is_alive(ctx.alive, target) => {
                vec![NightAction::SerialKillVote { target }]
            },
            _ => vec![],
        }
    }
}

} // verus!
