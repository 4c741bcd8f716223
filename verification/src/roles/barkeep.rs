//! The Barkeep has no action modeled: a Village role with no decision.

use vstd::prelude::*;
use crate::roles::RoleBehavior;
use crate::types::{Role, Team, role_team};

verus! {

pub struct Barkeep;

impl RoleBehavior for Barkeep {
    fn team(&self) -> (t: Team)
        ensures
            t == role_team(Role::Barkeep),
    {
        Role::Barkeep.team()
    }
}

} // verus!
