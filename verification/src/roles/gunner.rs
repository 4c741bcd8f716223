//! The Gunner's shot is a day ability not modeled here; the role has no night
//! action.

use vstd::prelude::*;
use crate::roles::RoleBehavior;
use crate::types::{Role, Team, role_team};

verus! {

pub struct Gunner;

impl RoleBehavior for Gunner {
    fn team(&self) -> (t: Team)
        ensures
            t == role_team(Role::Gunner),
    {
        Role::Gunner.team()
    }
}

} // verus!
