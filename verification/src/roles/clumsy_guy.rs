//! ClumsyGuy has no action; the random redirection of their lynch vote is not
//! modeled.

use vstd::prelude::*;
use crate::roles::RoleBehavior;
use crate::types::{Role, Team, role_team};

verus! {

pub struct ClumsyGuy;

impl RoleBehavior for ClumsyGuy {
    fn team(&self) -> (t: Team)
        ensures
            t == role_team(Role::ClumsyGuy),
    {
        Role::ClumsyGuy.team()
    }
}

} // verus!
