//! The Hunter has no action of their own; the revenge shot on death needs a
//! question asked after the death and is not modeled here.

use vstd::prelude::*;
use crate::roles::RoleBehavior;
use crate::types::{Role, Team, role_team};

verus! {

pub struct Hunter;

impl RoleBehavior for Hunter {
    fn team(&self) -> (t: Team)
        ensures
            t == role_team(Role::Hunter),
    {
        Role::Hunter.team()
    }
}

} // verus!
