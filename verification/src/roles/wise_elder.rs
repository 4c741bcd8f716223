//! The Wise Elder has no action; the demotion of a Gunner who shoots them
//! belongs to the Gunner's resolution.

use vstd::prelude::*;
use crate::roles::RoleBehavior;
use crate::types::{Role, Team, role_team};

verus! {

pub struct WiseElder;

impl RoleBehavior for WiseElder {
    fn team(&self) -> (t: Team)
        ensures
            t == role_team(Role::WiseElder),
    {
        Role::WiseElder.team()
    }
}

} // verus!
