//! Dispatches a `Role` to its behavior. Every match below names every
//! variant explicitly, so adding a `Role` without saying what it does is a
//! compile error rather than a silent default.

use vstd::prelude::*;
use crate::roles::{
    available_spec, day_outcome, night_outcome, requires_spec, DayAction, DayContext,
    NightAction, NightContext, NightFact, RoleBehavior, RoleState,
};
use crate::roles::{
    alpha_wolf, apprentice_seer, arsonist, augur, barkeep, beholder, blacksmith, chef,
    chemist, clumsy_guy, cultist, cultist_hunter, cupid, cursed, detective, doppelganger,
    drunk, fool, grave_digger, guardian_angel, gunner, harlot, hunter, lycan, mason, mayor,
    oracle, pacifist, prince, sandman, seer, serial_killer, snow_wolf, sorcerer, spumpkin,
    tanner, thief, traitor, troublemaker, villager, wild_child, wise_elder, witch, wolf,
    wolf_cub, wolf_man,
};
use crate::types::{Role, Team, role_team};

verus! {

/// The behavior of one role, chosen by `behavior_for`.
pub struct Behavior(pub Role);

/// The behavior for `role`.
pub fn behavior_for(role: Role) -> (b: Behavior)
    ensures
        b.0 == role,
{
    Behavior(role)
}

impl RoleBehavior for Behavior {
    fn team(&self) -> (t: Team)
        ensures
            t == role_team(self.0),
    {
        match self.0 {
            Role::Villager => villager::Villager.team(),
            Role::Wolf => wolf::Wolf.team(),
            Role::Seer => seer::Seer.team(),
            Role::Witch => witch::Witch.team(),
            Role::Cupid => cupid::Cupid.team(),
            Role::Drunk => drunk::Drunk.team(),
            Role::Harlot => harlot::Harlot.team(),
            Role::Traitor => traitor::Traitor.team(),
            Role::GuardianAngel => guardian_angel::GuardianAngel.team(),
            Role::Detective => detective::Detective.team(),
            Role::Cursed => cursed::Cursed.team(),
            Role::Gunner => gunner::Gunner.team(),
            Role::Tanner => tanner::Tanner.team(),
            Role::Fool => fool::Fool.team(),
            Role::WildChild => wild_child::WildChild.team(),
            Role::Beholder => beholder::Beholder.team(),
            Role::ApprenticeSeer => apprentice_seer::ApprenticeSeer.team(),
            Role::Cultist => cultist::Cultist.team(),
            Role::CultistHunter => cultist_hunter::CultistHunter.team(),
            Role::Mason => mason::Mason.team(),
            Role::Doppelganger => doppelganger::Doppelganger.team(),
            Role::Hunter => hunter::Hunter.team(),
            Role::SerialKiller => serial_killer::SerialKiller.team(),
            Role::Sorcerer => sorcerer::Sorcerer.team(),
            Role::AlphaWolf => alpha_wolf::AlphaWolf.team(),
            Role::WolfCub => wolf_cub::WolfCub.team(),
            Role::Blacksmith => blacksmith::Blacksmith.team(),
            Role::ClumsyGuy => clumsy_guy::ClumsyGuy.team(),
            Role::Mayor => mayor::Mayor.team(),
            Role::Prince => prince::Prince.team(),
            Role::Lycan => lycan::Lycan.team(),
            Role::Pacifist => pacifist::Pacifist.team(),
            Role::WiseElder => wise_elder::WiseElder.team(),
            Role::Oracle => oracle::Oracle.team(),
            Role::Sandman => sandman::Sandman.team(),
            Role::WolfMan => wolf_man::WolfMan.team(),
            Role::Thief => thief::Thief.team(),
            Role::Troublemaker => troublemaker::Troublemaker.team(),
            Role::Chemist => chemist::Chemist.team(),
            Role::SnowWolf => snow_wolf::SnowWolf.team(),
            Role::GraveDigger => grave_digger::GraveDigger.team(),
            Role::Augur => augur::Augur.team(),
            Role::Arsonist => arsonist::Arsonist.team(),
            Role::Spumpkin => spumpkin::Spumpkin.team(),
            Role::Chef => chef::Chef.team(),
            Role::Barkeep => barkeep::Barkeep.team(),
        }
    }

    fn night_action(&self, ctx: &NightContext, state: &mut RoleState) -> (actions: Vec<NightAction>)
        ensures
            (actions@, *final(state)) == night_outcome(self.0, ctx, *old(state)),
    {
        match self.0 {
            Role::Villager => villager::Villager.night_action(ctx, state),
            Role::Wolf => wolf::Wolf.night_action(ctx, state),
            Role::Seer => seer::Seer.night_action(ctx, state),
            Role::Witch => witch::Witch.night_action(ctx, state),
            Role::Cupid => cupid::Cupid.night_action(ctx, state),
            Role::Drunk => drunk::Drunk.night_action(ctx, state),
            Role::Harlot => harlot::Harlot.night_action(ctx, state),
            Role::Traitor => traitor::Traitor.night_action(ctx, state),
            Role::GuardianAngel => guardian_angel::GuardianAngel.night_action(ctx, state),
            Role::Detective => detective::Detective.night_action(ctx, state),
            Role::Cursed => cursed::Cursed.night_action(ctx, state),
            Role::Gunner => gunner::Gunner.night_action(ctx, state),
            Role::Tanner => tanner::Tanner.night_action(ctx, state),
            Role::Fool => fool::Fool.night_action(ctx, state),
            Role::WildChild => wild_child::WildChild.night_action(ctx, state),
            Role::Beholder => beholder::Beholder.night_action(ctx, state),
            Role::ApprenticeSeer => apprentice_seer::ApprenticeSeer.night_action(ctx, state),
            Role::Cultist => cultist::Cultist.night_action(ctx, state),
            Role::CultistHunter => cultist_hunter::CultistHunter.night_action(ctx, state),
            Role::Mason => mason::Mason.night_action(ctx, state),
            Role::Doppelganger => doppelganger::Doppelganger.night_action(ctx, state),
            Role::Hunter => hunter::Hunter.night_action(ctx, state),
            Role::SerialKiller => serial_killer::SerialKiller.night_action(ctx, state),
            Role::Sorcerer => sorcerer::Sorcerer.night_action(ctx, state),
            Role::AlphaWolf => alpha_wolf::AlphaWolf.night_action(ctx, state),
            Role::WolfCub => wolf_cub::WolfCub.night_action(ctx, state),
            Role::Blacksmith => blacksmith::Blacksmith.night_action(ctx, state),
            Role::ClumsyGuy => clumsy_guy::ClumsyGuy.night_action(ctx, state),
            Role::Mayor => mayor::Mayor.night_action(ctx, state),
            Role::Prince => prince::Prince.night_action(ctx, state),
            Role::Lycan => lycan::Lycan.night_action(ctx, state),
            Role::Pacifist => pacifist::Pacifist.night_action(ctx, state),
            Role::WiseElder => wise_elder::WiseElder.night_action(ctx, state),
            Role::Oracle => oracle::Oracle.night_action(ctx, state),
            Role::Sandman => sandman::Sandman.night_action(ctx, state),
            Role::WolfMan => wolf_man::WolfMan.night_action(ctx, state),
            Role::Thief => thief::Thief.night_action(ctx, state),
            Role::Troublemaker => troublemaker::Troublemaker.night_action(ctx, state),
            Role::Chemist => chemist::Chemist.night_action(ctx, state),
            Role::SnowWolf => snow_wolf::SnowWolf.night_action(ctx, state),
            Role::GraveDigger => grave_digger::GraveDigger.night_action(ctx, state),
            Role::Augur => augur::Augur.night_action(ctx, state),
            Role::Arsonist => arsonist::Arsonist.night_action(ctx, state),
            Role::Spumpkin => spumpkin::Spumpkin.night_action(ctx, state),
            Role::Chef => chef::Chef.night_action(ctx, state),
            Role::Barkeep => barkeep::Barkeep.night_action(ctx, state),
        }
    }

    fn day_action(&self, ctx: &DayContext, state: &mut RoleState) -> (actions: Vec<DayAction>)
        ensures
            (actions@, *final(state)) == day_outcome(self.0, ctx, *old(state)),
    {
        match self.0 {
            Role::Villager => villager::Villager.day_action(ctx, state),
            Role::Wolf => wolf::Wolf.day_action(ctx, state),
            Role::Seer => seer::Seer.day_action(ctx, state),
            Role::Witch => witch::Witch.day_action(ctx, state),
            Role::Cupid => cupid::Cupid.day_action(ctx, state),
            Role::Drunk => drunk::Drunk.day_action(ctx, state),
            Role::Harlot => harlot::Harlot.day_action(ctx, state),
            Role::Traitor => traitor::Traitor.day_action(ctx, state),
            Role::GuardianAngel => guardian_angel::GuardianAngel.day_action(ctx, state),
            Role::Detective => detective::Detective.day_action(ctx, state),
            Role::Cursed => cursed::Cursed.day_action(ctx, state),
            Role::Gunner => gunner::Gunner.day_action(ctx, state),
            Role::Tanner => tanner::Tanner.day_action(ctx, state),
            Role::Fool => fool::Fool.day_action(ctx, state),
            Role::WildChild => wild_child::WildChild.day_action(ctx, state),
            Role::Beholder => beholder::Beholder.day_action(ctx, state),
            Role::ApprenticeSeer => apprentice_seer::ApprenticeSeer.day_action(ctx, state),
            Role::Cultist => cultist::Cultist.day_action(ctx, state),
            Role::CultistHunter => cultist_hunter::CultistHunter.day_action(ctx, state),
            Role::Mason => mason::Mason.day_action(ctx, state),
            Role::Doppelganger => doppelganger::Doppelganger.day_action(ctx, state),
            Role::Hunter => hunter::Hunter.day_action(ctx, state),
            Role::SerialKiller => serial_killer::SerialKiller.day_action(ctx, state),
            Role::Sorcerer => sorcerer::Sorcerer.day_action(ctx, state),
            Role::AlphaWolf => alpha_wolf::AlphaWolf.day_action(ctx, state),
            Role::WolfCub => wolf_cub::WolfCub.day_action(ctx, state),
            Role::Blacksmith => blacksmith::Blacksmith.day_action(ctx, state),
            Role::ClumsyGuy => clumsy_guy::ClumsyGuy.day_action(ctx, state),
            Role::Mayor => mayor::Mayor.day_action(ctx, state),
            Role::Prince => prince::Prince.day_action(ctx, state),
            Role::Lycan => lycan::Lycan.day_action(ctx, state),
            Role::Pacifist => pacifist::Pacifist.day_action(ctx, state),
            Role::WiseElder => wise_elder::WiseElder.day_action(ctx, state),
            Role::Oracle => oracle::Oracle.day_action(ctx, state),
            Role::Sandman => sandman::Sandman.day_action(ctx, state),
            Role::WolfMan => wolf_man::WolfMan.day_action(ctx, state),
            Role::Thief => thief::Thief.day_action(ctx, state),
            Role::Troublemaker => troublemaker::Troublemaker.day_action(ctx, state),
            Role::Chemist => chemist::Chemist.day_action(ctx, state),
            Role::SnowWolf => snow_wolf::SnowWolf.day_action(ctx, state),
            Role::GraveDigger => grave_digger::GraveDigger.day_action(ctx, state),
            Role::Augur => augur::Augur.day_action(ctx, state),
            Role::Arsonist => arsonist::Arsonist.day_action(ctx, state),
            Role::Spumpkin => spumpkin::Spumpkin.day_action(ctx, state),
            Role::Chef => chef::Chef.day_action(ctx, state),
            Role::Barkeep => barkeep::Barkeep.day_action(ctx, state),
        }
    }

    fn required_facts(&self) -> (facts: Vec<NightFact>)
        ensures
            facts@ == requires_spec(self.0),
    {
        match self.0 {
            Role::Villager => villager::Villager.required_facts(),
            Role::Wolf => wolf::Wolf.required_facts(),
            Role::Seer => seer::Seer.required_facts(),
            Role::Witch => witch::Witch.required_facts(),
            Role::Cupid => cupid::Cupid.required_facts(),
            Role::Drunk => drunk::Drunk.required_facts(),
            Role::Harlot => harlot::Harlot.required_facts(),
            Role::Traitor => traitor::Traitor.required_facts(),
            Role::GuardianAngel => guardian_angel::GuardianAngel.required_facts(),
            Role::Detective => detective::Detective.required_facts(),
            Role::Cursed => cursed::Cursed.required_facts(),
            Role::Gunner => gunner::Gunner.required_facts(),
            Role::Tanner => tanner::Tanner.required_facts(),
            Role::Fool => fool::Fool.required_facts(),
            Role::WildChild => wild_child::WildChild.required_facts(),
            Role::Beholder => beholder::Beholder.required_facts(),
            Role::ApprenticeSeer => apprentice_seer::ApprenticeSeer.required_facts(),
            Role::Cultist => cultist::Cultist.required_facts(),
            Role::CultistHunter => cultist_hunter::CultistHunter.required_facts(),
            Role::Mason => mason::Mason.required_facts(),
            Role::Doppelganger => doppelganger::Doppelganger.required_facts(),
            Role::Hunter => hunter::Hunter.required_facts(),
            Role::SerialKiller => serial_killer::SerialKiller.required_facts(),
            Role::Sorcerer => sorcerer::Sorcerer.required_facts(),
            Role::AlphaWolf => alpha_wolf::AlphaWolf.required_facts(),
            Role::WolfCub => wolf_cub::WolfCub.required_facts(),
            Role::Blacksmith => blacksmith::Blacksmith.required_facts(),
            Role::ClumsyGuy => clumsy_guy::ClumsyGuy.required_facts(),
            Role::Mayor => mayor::Mayor.required_facts(),
            Role::Prince => prince::Prince.required_facts(),
            Role::Lycan => lycan::Lycan.required_facts(),
            Role::Pacifist => pacifist::Pacifist.required_facts(),
            Role::WiseElder => wise_elder::WiseElder.required_facts(),
            Role::Oracle => oracle::Oracle.required_facts(),
            Role::Sandman => sandman::Sandman.required_facts(),
            Role::WolfMan => wolf_man::WolfMan.required_facts(),
            Role::Thief => thief::Thief.required_facts(),
            Role::Troublemaker => troublemaker::Troublemaker.required_facts(),
            Role::Chemist => chemist::Chemist.required_facts(),
            Role::SnowWolf => snow_wolf::SnowWolf.required_facts(),
            Role::GraveDigger => grave_digger::GraveDigger.required_facts(),
            Role::Augur => augur::Augur.required_facts(),
            Role::Arsonist => arsonist::Arsonist.required_facts(),
            Role::Spumpkin => spumpkin::Spumpkin.required_facts(),
            Role::Chef => chef::Chef.required_facts(),
            Role::Barkeep => barkeep::Barkeep.required_facts(),
        }
    }

    fn is_available(&self) -> (b: bool)
        ensures
            b == available_spec(self.0),
    {
        match self.0 {
            Role::Villager => villager::Villager.is_available(),
            Role::Wolf => wolf::Wolf.is_available(),
            Role::Seer => seer::Seer.is_available(),
            Role::Witch => witch::Witch.is_available(),
            Role::Cupid => cupid::Cupid.is_available(),
            Role::Drunk => drunk::Drunk.is_available(),
            Role::Harlot => harlot::Harlot.is_available(),
            Role::Traitor => traitor::Traitor.is_available(),
            Role::GuardianAngel => guardian_angel::GuardianAngel.is_available(),
            Role::Detective => detective::Detective.is_available(),
            Role::Cursed => cursed::Cursed.is_available(),
            Role::Gunner => gunner::Gunner.is_available(),
            Role::Tanner => tanner::Tanner.is_available(),
            Role::Fool => fool::Fool.is_available(),
            Role::WildChild => wild_child::WildChild.is_available(),
            Role::Beholder => beholder::Beholder.is_available(),
            Role::ApprenticeSeer => apprentice_seer::ApprenticeSeer.is_available(),
            Role::Cultist => cultist::Cultist.is_available(),
            Role::CultistHunter => cultist_hunter::CultistHunter.is_available(),
            Role::Mason => mason::Mason.is_available(),
            Role::Doppelganger => doppelganger::Doppelganger.is_available(),
            Role::Hunter => hunter::Hunter.is_available(),
            Role::SerialKiller => serial_killer::SerialKiller.is_available(),
            Role::Sorcerer => sorcerer::Sorcerer.is_available(),
            Role::AlphaWolf => alpha_wolf::AlphaWolf.is_available(),
            Role::WolfCub => wolf_cub::WolfCub.is_available(),
            Role::Blacksmith => blacksmith::Blacksmith.is_available(),
            Role::ClumsyGuy => clumsy_guy::ClumsyGuy.is_available(),
            Role::Mayor => mayor::Mayor.is_available(),
            Role::Prince => prince::Prince.is_available(),
            Role::Lycan => lycan::Lycan.is_available(),
            Role::Pacifist => pacifist::Pacifist.is_available(),
            Role::WiseElder => wise_elder::WiseElder.is_available(),
            Role::Oracle => oracle::Oracle.is_available(),
            Role::Sandman => sandman::Sandman.is_available(),
            Role::WolfMan => wolf_man::WolfMan.is_available(),
            Role::Thief => thief::Thief.is_available(),
            Role::Troublemaker => troublemaker::Troublemaker.is_available(),
            Role::Chemist => chemist::Chemist.is_available(),
            Role::SnowWolf => snow_wolf::SnowWolf.is_available(),
            Role::GraveDigger => grave_digger::GraveDigger.is_available(),
            Role::Augur => augur::Augur.is_available(),
            Role::Arsonist => arsonist::Arsonist.is_available(),
            Role::Spumpkin => spumpkin::Spumpkin.is_available(),
            Role::Chef => chef::Chef.is_available(),
            Role::Barkeep => barkeep::Barkeep.is_available(),
        }
    }
}

} // verus!
