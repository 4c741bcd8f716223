//! The Doppelganger picks a role model once, exactly as the Wild Child does,
//! and remembers whom; copying the role model's role on their death is decided
//! elsewhere.

use vstd::prelude::*;
use crate::roles::{is_alive, night_outcome, NightAction, NightContext, RoleBehavior, RoleState};
use crate::types::{Role, Team, role_team};

verus! {

pub struct Doppelganger;

impl RoleBehavior for Doppelganger {
    fn team(&self) -> (t: Team)
        ensures
            t == role_team(Role::Doppelganger),
    {
        Role::Doppelganger.team()
    }

    fn night_action(&self, ctx: &NightContext, state: &mut RoleState) -> (actions: Vec<NightAction>)
        ensures
            (actions@, *final(state)) == night_outcome(Role::Doppelganger, ctx, *old(state)),
    {
        if state.primary_used {
            return vec![];
        }
        if let Some(target) = ctx.chosen_target {
            if target.0 != ctx.self_id.0 && is_alive(ctx.alive, target) {
                state.primary_used = true;
                state.remembered_player = Some(target);
                return vec![NightAction::ChooseRoleModel { target }];
            }
        }
        vec![]
    }
}

} // verus!
