//! The Drunk has no action: mechanically a Villager.

use vstd::prelude::*;
use crate::roles::RoleBehavior;
use crate::types::{Role, Team, role_team};

verus! {

pub struct Drunk;

impl RoleBehavior for Drunk {
    fn team(&self) -> (t: Team)
        ensures
            t == role_team(Role::Drunk),
    {
        Role::Drunk.team()
    }
}

} // verus!
