//! Masons have no action: knowing the other Masons is information only.

use vstd::prelude::*;
use crate::roles::RoleBehavior;
use crate::types::{Role, Team, role_team};

verus! {

pub struct Mason;

impl RoleBehavior for Mason {
    fn team(&self) -> (t: Team)
        ensures
            t == role_team(Role::Mason),
    {
        Role::Mason.team()
    }
}

} // verus!
