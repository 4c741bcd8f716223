//! No action of her own: the Apprentice Seer is a silent backup who would
//! become the Seer once the Seer dies.

use vstd::prelude::*;
use crate::roles::RoleBehavior;
use crate::types::{Role, Team, role_team};

verus! {

pub struct ApprenticeSeer;

impl RoleBehavior for ApprenticeSeer {
    fn team(&self) -> (t: Team)
        ensures
            t == role_team(Role::ApprenticeSeer),
    {
        Role::ApprenticeSeer.team()
    }
}

} // verus!
