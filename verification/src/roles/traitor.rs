//! The Traitor has no action; turning Wolf once the last wolf dies is
//! triggered by the living roster, not by the Traitor.

use vstd::prelude::*;
use crate::roles::RoleBehavior;
use crate::types::{Role, Team, role_team};

verus! {

pub struct Traitor;

impl RoleBehavior for Traitor {
    fn team(&self) -> (t: Team)
        ensures
            t == role_team(Role::Traitor),
    {
        Role::Traitor.team()
    }
}

} // verus!
