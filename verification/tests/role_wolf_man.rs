#![allow(unused_imports)]

use game_engine::roles::wolf_man::WolfMan;
use game_engine::roles::{DayAction, DayContext, NightAction, NightContext, NightFact, RoleBehavior, RoleState};
use game_engine::{PlayerId, Team};

#[test]
fn wolf_man_is_village_team_despite_reading_as_wolf_to_seers() {
    assert_eq!(WolfMan.team(), Team::Village);
}
