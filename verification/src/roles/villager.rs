//! The role that does nothing special: a team and no action.

use vstd::prelude::*;
use crate::roles::RoleBehavior;
use crate::types::{Role, Team, role_team};

verus! {

pub struct Villager;

impl RoleBehavior for Villager {
    fn team(&self) -> (t: Team)
        ensures
            t == role_team(Role::Villager),
    {
        Role::Villager.team()
    }
}

} // verus!
