#![allow(unused_imports)]

use game_engine::roles::grave_digger::GraveDigger;
use game_engine::roles::{DayAction, DayContext, NightAction, NightContext, NightFact, RoleBehavior, RoleState};
use game_engine::{PlayerId, Team};

#[test]
fn grave_digger_is_village_team() {
    assert_eq!(GraveDigger.team(), Team::Village);
}
