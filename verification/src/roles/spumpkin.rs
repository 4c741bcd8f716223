//! The Spumpkin tries to detonate on another living player during the day.
//! There is no per-game limit: a failed attempt can be tried again tomorrow,
//! and the coin flip is resolved elsewhere.

use vstd::prelude::*;
use crate::roles::{is_alive, day_outcome, DayAction, DayContext, RoleBehavior, RoleState};
use crate::types::{Role, Team, role_team};

verus! {

pub struct Spumpkin;

impl RoleBehavior for Spumpkin {
    fn team(&self) -> (t: Team)
        ensures
            t == role_team(Role::Spumpkin),
    {
        Role::Spumpkin.team()
    }

    fn day_action(&self, ctx: &DayContext, state: &mut RoleState) -> (actions: Vec<DayAction>)
        ensures
            (actions@, *final(state)) == day_outcome(Role::Spumpkin, ctx, *old(state)),
    {
        match ctx.chosen_target {
            Some(target) if target.0 != ctx.self_id.0 && is_alive(ctx.alive, target) => {
                vec![DayAction::Detonate { target }]
            },
            _ => vec![],
        }
    }
}

} // verus!
