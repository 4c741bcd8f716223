//! Wolf Man is Village and has no action of his own; reading as a wolf to
//! seeing roles is a display matter.

use vstd::prelude::*;
use crate::roles::RoleBehavior;
use crate::types::{Role, Team, role_team};

verus! {

pub struct WolfMan;

impl RoleBehavior for WolfMan {
    fn team(&self) -> (t: Team)
        ensures
            t == role_team(Role::WolfMan),
    {
        Role::WolfMan.team()
    }
}

} // verus!
