//! Cursed has no action of its own; turning Wolf when bitten is triggered by
//! someone else's action and is not modeled here.

use vstd::prelude::*;
use crate::roles::RoleBehavior;
use crate::types::{Role, Team, role_team};

verus! {

pub struct Cursed;

impl RoleBehavior for Cursed {
    fn team(&self) -> (t: Team)
        ensures
            t == role_team(Role::Cursed),
    {
        Role::Cursed.team()
    }
}

} // verus!
