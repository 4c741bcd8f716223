//! The Wild Child picks a role model once, typically the first night: another
//! living player, remembered in `RoleState::remembered_player`. Turning Wolf
//! when the role model dies is decided elsewhere from that remembered id.

use vstd::prelude::*;
use crate::roles::{is_alive, night_outcome, NightAction, NightContext, RoleBehavior, RoleState};
use crate::types::{Role, Team, role_team};

verus! {

pub struct WildChild;

impl RoleBehavior for WildChild {
    fn team(&self) -> (t: Team)
        ensures
            t == role_team(Role::WildChild),
    {
        Role::WildChild.team()
    }

    fn night_action(&self, ctx: &NightContext, state: &mut RoleState) -> (actions: Vec<NightAction>)
        ensures
            (actions@, *final(state)) == night_outcome(Role::WildChild, ctx, *old(state)),
    {
        if state.primary_used {
            return vec![];
        }
        if let Some(target) = ctx.chosen_target {
            if target.0 != ctx.self_id.0 && is_alive(ctx.alive, target) {
                state.primary_used = true;
                state.remembered_player = Some(target);
                return vec![NightAction::ChooseRoleModel { target }];
            }
        }
        vec![]
    }
}

} // verus!
