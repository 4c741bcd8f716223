//! The Prince has no action: surviving the first lynch is decided where the
//! lynch is applied.

use vstd::prelude::*;
use crate::roles::RoleBehavior;
use crate::types::{Role, Team, role_team};

verus! {

pub struct Prince;

impl RoleBehavior for Prince {
    fn team(&self) -> (t: Team)
        ensures
            t == role_team(Role::Prince),
    {
        Role::Prince.team()
    }
}

} // verus!
