//! The Harlot visits one living player overnight; visiting herself means
//! staying home. The visit carries the visitor's id, so that a resolution step
//! can tell who visited whom.

use vstd::prelude::*;
use crate::roles::{is_alive, night_outcome, NightAction, NightContext, RoleBehavior, RoleState};
use crate::types::{Role, Team, role_team};

verus! {

pub struct Harlot;

impl RoleBehavior for Harlot {
    fn team(&self) -> (t: Team)
        ensures
            t == role_team(Role::Harlot),
    {
        Role::Harlot.team()
    }

    fn night_action(&self, ctx: &NightContext, state: &mut RoleState) -> (actions: Vec<NightAction>)
        ensures
            (actions@, *final(state)) == night_outcome(Role::Harlot, ctx, *old(state)),
    {
        match ctx.chosen_target {
            Some(target) if is_alive(ctx.alive, target) => {
                vec![NightAction::Visit { visitor: ctx.self_id, target }]
            },
            _ => vec![],
        }
    }
}

} // verus!
