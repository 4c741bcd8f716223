//! Cupid links two players as lovers, once (the primary flag). The link itself
//! lives in `lovers::LoversState`; Cupid only produces the `LinkLovers` action,
//! for two distinct living players.

use vstd::prelude::*;
use crate::roles::{is_alive, night_outcome, NightAction, NightContext, RoleBehavior, RoleState};
use crate::types::{Role, Team, role_team};

verus! {

pub struct Cupid;

impl RoleBehavior for Cupid {
    fn team(&self) -> (t: Team)
        ensures
            t == role_team(Role::Cupid),
    {
        Role::Cupid.team()
    }

    fn night_action(&self, ctx: &NightContext, state: &mut RoleState) -> (actions: Vec<NightAction>)
        ensures
            (actions@, *final(state)) == night_outcome(Role::Cupid, ctx, *old(state)),
    {
        if state.primary_used {
            return vec![];
        }
        if let Some((a, b)) = ctx.love_targets {
            if a.0 != b.0 && is_alive(ctx.alive, a) && is_alive(ctx.alive, b) {
                state.primary_used = true;
                return vec![NightAction::LinkLovers { a, b }];
            }
        }
        vec![]
    }
}

} // verus!
