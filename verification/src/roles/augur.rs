//! The Augur has no choice to make: each night they are told a role that is
//! not in the game, which is presentation, not a decision.

use vstd::prelude::*;
use crate::roles::RoleBehavior;
use crate::types::{Role, Team, role_team};

verus! {

pub struct Augur;

impl RoleBehavior for Augur {
    fn team(&self) -> (t: Team)
        ensures
            t == role_team(Role::Augur),
    {
        Role::Augur.team()
    }
}

} // verus!
