//! The Grave Digger has no action: the trap sprung on whoever visits them
//! belongs to the visiting role's resolution.

use vstd::prelude::*;
use crate::roles::RoleBehavior;
use crate::types::{Role, Team, role_team};

verus! {

pub struct GraveDigger;

impl RoleBehavior for GraveDigger {
    fn team(&self) -> (t: Team)
        ensures
            t == role_team(Role::GraveDigger),
    {
        Role::GraveDigger.team()
    }
}

} // verus!
