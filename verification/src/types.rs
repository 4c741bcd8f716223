//! Identity and classification of players: who they are, which role they
//! hold, which team that role plays for, and how a player can die.

use vstd::prelude::*;

verus! {

/// Deliberately just a `u64` wrapper: a role's logic refers to other players
/// only by id, never by reaching into their private state.
#[derive(Debug, Clone, Copy, PartialEq, Eq, Hash, Structural)]
pub struct PlayerId(pub u64);

/// The sides a game can be won by.
#[derive(Debug, Clone, Copy, PartialEq, Eq, Hash, Structural)]
pub enum Team {
    Village,
    Wolf,
    Tanner,
    Cult,
    SerialKiller,
    Lovers,
    Arsonist,
}

/// Every role a player can be dealt.
#[derive(Debug, Clone, Copy, PartialEq, Eq, Hash, Structural)]
pub enum Role {
    Villager,
    Wolf,
    Seer,
    Witch,
    Cupid,
    Drunk,
    Harlot,
    Traitor,
    GuardianAngel,
    Detective,
    Cursed,
    Gunner,
    Tanner,
    Fool,
    WildChild,
    Beholder,
    ApprenticeSeer,
    Cultist,
    CultistHunter,
    Mason,
    Doppelganger,
    Hunter,
    SerialKiller,
    Sorcerer,
    AlphaWolf,
    WolfCub,
    Blacksmith,
    ClumsyGuy,
    Mayor,
    Prince,
    Lycan,
    Pacifist,
    WiseElder,
    Oracle,
    Sandman,
    WolfMan,
    Thief,
    Troublemaker,
    Chemist,
    SnowWolf,
    GraveDigger,
    Augur,
    Arsonist,
    Spumpkin,
    Chef,
    Barkeep,
}

/// How a player died.
#[derive(Debug, Clone, Copy, PartialEq, Eq, Hash, Structural)]
pub enum KillMethod {
    Lynch,
    Eat,
    HunterShot,
    LoverDied,
    Chemistry,
    FallGrave,
}

/// The wolf-team roles that carry the night eat vote.
pub open spec fn is_wolf_muscle_spec(role: Role) -> bool {
    match role {
        Role::Wolf | Role::AlphaWolf | Role::WolfCub | Role::Lycan | Role::SnowWolf => true,
        _ => false,
    }
}

/// The team each role plays for before any transformation: wolf muscle and the
/// Sorcerer side with the wolves, Tanner, Cultist, Serial Killer and Arsonist
/// each play for themselves, and every other role is Village.
pub open spec fn role_team(role: Role) -> Team {
    match role {
        Role::Wolf | Role::AlphaWolf | Role::WolfCub | Role::Lycan | Role::SnowWolf
        | Role::Sorcerer => Team::Wolf,
        Role::Tanner => Team::Tanner,
        Role::Cultist => Team::Cult,
        Role::SerialKiller => Team::SerialKiller,
        Role::Arsonist => Team::Arsonist,
        _ => Team::Village,
    }
}

impl Role {
    /// The team this role plays for.
    pub fn team(&self) -> (t: Team)
        ensures
            t == role_team(*self),
    {
        match self {
            Role::Wolf | Role::AlphaWolf | Role::WolfCub | Role::Lycan | Role::SnowWolf
            | Role::Sorcerer => Team::Wolf,
            Role::Tanner => Team::Tanner,
            Role::Cultist => Team::Cult,
            Role::SerialKiller => Team::SerialKiller,
            Role::Arsonist => Team::Arsonist,
            _ => Team::Village,
        }
    }

    /// Whether this role is wolf muscle (casts the night eat vote).
    pub fn is_wolf_muscle(&self) -> (b: bool)
        ensures
            b == is_wolf_muscle_spec(*self),
    {
        match self {
            Role::Wolf | Role::AlphaWolf | Role::WolfCub | Role::Lycan | Role::SnowWolf => true,
            _ => false,
        }
    }
}

/// A player's standing in a finished or running game.
#[derive(Debug, Clone, Copy)]
pub struct PlayerState {
    pub id: u64,
    pub role: Role,
    pub alive: bool,
}

/// One death, as recorded for the game history.
#[derive(Debug, Clone, Copy)]
pub struct KillEvent {
    pub killer_id: u64,
    pub victim_id: u64,
    pub method: KillMethod,
    pub day: u32,
}

} // verus!
