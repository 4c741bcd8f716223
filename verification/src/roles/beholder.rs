//! The Beholder silently learns who the Seer is; that is information only,
//! so there is no action.

use vstd::prelude::*;
use crate::roles::RoleBehavior;
use crate::types::{Role, Team, role_team};

verus! {

pub struct Beholder;

impl RoleBehavior for Beholder {
    fn team(&self) -> (t: Team)
        ensures
            t == role_team(Role::Beholder),
    {
        Role::Beholder.team()
    }
}

} // verus!
