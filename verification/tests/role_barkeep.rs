#![allow(unused_imports)]

use game_engine::roles::barkeep::Barkeep;
use game_engine::roles::{DayAction, DayContext, NightAction, NightContext, NightFact, RoleBehavior, RoleState};
use game_engine::{PlayerId, Team};

#[test]
fn barkeep_is_village_team() {
    assert_eq!(Barkeep.team(), Team::Village);
}
