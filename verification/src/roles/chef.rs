//! The Chef has no action modeled: a Village role with no decision.

use vstd::prelude::*;
use crate::roles::RoleBehavior;
use crate::types::{Role, Team, role_team};

verus! {

pub struct Chef;

impl RoleBehavior for Chef {
    fn team(&self) -> (t: Team)
        ensures
            t == role_team(Role::Chef),
    {
        Role::Chef.team()
    }
}

} // verus!
