//! The Tanner has no action; winning by being lynched is a win condition, not
//! an action.

use vstd::prelude::*;
use crate::roles::RoleBehavior;
use crate::types::{Role, Team, role_team};

verus! {

pub struct Tanner;

impl RoleBehavior for Tanner {
    fn team(&self) -> (t: Team)
        ensures
            t == role_team(Role::Tanner),
    {
        Role::Tanner.team()
    }
}

} // verus!
