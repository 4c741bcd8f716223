#![allow(unused_imports)]

use game_engine::roles::augur::Augur;
use game_engine::roles::{DayAction, DayContext, NightAction, NightContext, NightFact, RoleBehavior, RoleState};
use game_engine::{PlayerId, Team};

#[test]
fn augur_is_village_team() {
    assert_eq!(Augur.team(), Team::Village);
}
