//! The wolves' night eat vote. Each wolf submits a candidate; the
//! orchestrator tallies the votes of every wolf (`majority_eat_target`) —
//! this file only validates one wolf's own vote: another living player.

use vstd::prelude::*;
use crate::roles::{is_alive, night_outcome, NightAction, NightContext, RoleBehavior, RoleState};
use crate::types::{PlayerId, Role, Team, role_team};

verus! {

pub struct Wolf;

impl RoleBehavior for Wolf {
    fn team(&self) -> (t: Team)
        ensures
            t == role_team(Role::Wolf),
    {
        Role::Wolf.team()
    }

    fn night_action(&self, ctx: &NightContext, state: &mut RoleState) -> (actions: Vec<NightAction>)
        ensures
            (actions@, *final(state)) == night_outcome(Role::Wolf, ctx, *old(state)),
    {
        match ctx.chosen_target {
            Some(target) if is_valid_target(ctx, target) => vec![NightAction::EatVote { target }],
            _ => vec![],
        }
    }
}

fn is_valid_target(ctx: &NightContext, target: PlayerId) -> (b: bool)
    ensures
        b == (target != ctx.self_id && ctx.alive@.contains(target)),
{
    target.0 != ctx.self_id.0 && is_alive(ctx.alive, target)
}

} // verus!
