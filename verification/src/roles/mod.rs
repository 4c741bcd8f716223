//! Every role's logic lives in its own file here, each implementing the one
//! shared trait `RoleBehavior`. What each role does is stated once, as the
//! spec functions `night_outcome` and `day_outcome` below; every role's
//! implementation is proved to compute exactly its row of those tables, and
//! `behavior_for` dispatches a `Role` to that implementation.

use vstd::prelude::*;
use crate::types::{PlayerId, Role, Team, role_team};

pub mod alpha_wolf;
pub mod apprentice_seer;
pub mod arsonist;
pub mod augur;
pub mod barkeep;
pub mod beholder;
pub mod blacksmith;
pub mod chef;
pub mod chemist;
pub mod clumsy_guy;
pub mod cultist;
pub mod cultist_hunter;
pub mod cupid;
pub mod cursed;
pub mod detective;
pub mod doppelganger;
pub mod drunk;
pub mod fool;
pub mod grave_digger;
pub mod guardian_angel;
pub mod gunner;
pub mod harlot;
pub mod hunter;
pub mod lycan;
pub mod mason;
pub mod mayor;
pub mod oracle;
pub mod pacifist;
pub mod prince;
pub mod sandman;
pub mod seer;
pub mod serial_killer;
pub mod snow_wolf;
pub mod sorcerer;
pub mod spumpkin;
pub mod tanner;
pub mod thief;
pub mod traitor;
pub mod troublemaker;
pub mod villager;
pub mod wild_child;
pub mod wise_elder;
pub mod witch;
pub mod wolf;
pub mod wolf_cub;
pub mod wolf_man;
pub mod lovers;
pub mod dispatch;
pub mod laws;



pub use lovers::LoversState;
pub use dispatch::{behavior_for, Behavior};

verus! {

/// What a night action resolves to. Roles only ever describe intent; the
/// orchestrator is responsible for applying these.
#[derive(Debug, Clone, Copy, PartialEq, Eq, Structural)]
pub enum NightAction {
    EatVote { target: PlayerId },
    CheckTeam { target: PlayerId },
    Heal { target: PlayerId },
    Poison { target: PlayerId },
    LinkLovers { a: PlayerId, b: PlayerId },
    Investigate { target: PlayerId },
    Protect { target: PlayerId },
    Visit { visitor: PlayerId, target: PlayerId },
    ChooseRoleModel { target: PlayerId },
    StealRole { target: PlayerId },
    ConvertVote { target: PlayerId },
    SerialKillVote { target: PlayerId },
    Chemistry { target: PlayerId },
    Douse { target: PlayerId },
    Detonate,
    SandmanSleep,
}

/// What a day action resolves to.
#[derive(Debug, Clone, Copy, PartialEq, Eq, Structural)]
pub enum DayAction {
    SpreadSilver { target: PlayerId },
    Reveal,
    Pacify,
    Trouble,
    Detonate { target: PlayerId },
}

/// A fact about the night that must be resolved before a role can be asked.
#[derive(Debug, Clone, Copy, PartialEq, Eq, Structural)]
pub enum NightFact {
    WolfTarget,
}

/// Everything a role's `night_action` needs to decide what to do. The
/// `chosen_*`, `*_target` and `toggle_choice` fields carry the player's
/// already-collected answers; a role validates and shapes them.
pub struct NightContext<'a> {
    pub alive: &'a [PlayerId],
    pub self_id: PlayerId,
    pub chosen_target: Option<PlayerId>,
    pub heal_target: Option<PlayerId>,
    pub poison_target: Option<PlayerId>,
    pub love_targets: Option<(PlayerId, PlayerId)>,
    pub wolf_target: Option<PlayerId>,
    pub toggle_choice: bool,
}

/// Everything a role's `day_action` needs to decide what to do.
pub struct DayContext<'a> {
    pub alive: &'a [PlayerId],
    pub self_id: PlayerId,
    pub chosen_target: Option<PlayerId>,
    pub toggle_choice: bool,
}

/// Per-player state that persists across nights: two one-shot flags whose
/// meaning each role documents, and a remembered player (a role model, the
/// latest douse target).
#[derive(Debug, Clone, Copy, PartialEq, Eq, Structural)]
pub struct RoleState {
    pub primary_used: bool,
    pub secondary_used: bool,
    pub remembered_player: Option<PlayerId>,
}

impl RoleState {
    /// A fresh state: nothing used, nobody remembered.
    pub fn new() -> (s: RoleState)
        ensures
            s == fresh_state(),
    {
        RoleState { primary_used: false, secondary_used: false, remembered_player: None }
    }
}

impl Default for RoleState {
    fn default() -> (s: RoleState)
        ensures
            s == fresh_state(),
    {
        RoleState::new()
    }
}

pub open spec fn fresh_state() -> RoleState {
    RoleState { primary_used: false, secondary_used: false, remembered_player: None }
}

/// Whether `p` is among the living players.
pub fn is_alive(alive: &[PlayerId], p: PlayerId) -> (b: bool)
    ensures
        b == alive@.contains(p),
{
    let mut i: usize = 0;
    while i < alive.len()
        invariant
            0 <= i <= alive@.len(),
            forall|j: int| 0 <= j < i ==> alive@[j] != p,
        decreases alive@.len() - i,
    {
        if alive[i].0 == p.0 {
            assert(alive@[i as int] == p);
            return true;
        }
        i = i + 1;
    }
    false
}

/// The chosen target, if it is a living player other than the chooser.
pub open spec fn other_target(alive: Seq<PlayerId>, self_id: PlayerId, chosen: Option<PlayerId>) -> Option<PlayerId> {
    match chosen {
        Some(t) => if t != self_id && alive.contains(t) { Some(t) } else { None },
        None => None,
    }
}

/// The chosen target, if it is a living player (the chooser included).
pub open spec fn any_target(alive: Seq<PlayerId>, chosen: Option<PlayerId>) -> Option<PlayerId> {
    match chosen {
        Some(t) => if alive.contains(t) { Some(t) } else { None },
        None => None,
    }
}

/// A one-target night action that may be taken every night.
pub open spec fn every_night(target: Option<PlayerId>, make: spec_fn(PlayerId) -> NightAction, st: RoleState) -> (Seq<NightAction>, RoleState) {
    match target {
        Some(t) => (seq![make(t)], st),
        None => (Seq::empty(), st),
    }
}

/// A role-model pick: once per game, remembering whom.
pub open spec fn role_model_pick(target: Option<PlayerId>, st: RoleState) -> (Seq<NightAction>, RoleState) {
    if st.primary_used {
        (Seq::empty(), st)
    } else {
        match target {
            Some(t) => (
                seq![NightAction::ChooseRoleModel { target: t }],
                RoleState { primary_used: true, remembered_player: Some(t), ..st },
            ),
            None => (Seq::empty(), st),
        }
    }
}

/// A once-per-game yes/no night action.
pub open spec fn night_toggle_once(toggle: bool, action: NightAction, st: RoleState) -> (Seq<NightAction>, RoleState) {
    if st.primary_used || !toggle {
        (Seq::empty(), st)
    } else {
        (seq![action], RoleState { primary_used: true, ..st })
    }
}

/// A once-per-game yes/no day action.
pub open spec fn day_toggle_once(toggle: bool, action: DayAction, st: RoleState) -> (Seq<DayAction>, RoleState) {
    if st.primary_used || !toggle {
        (Seq::empty(), st)
    } else {
        (seq![action], RoleState { primary_used: true, ..st })
    }
}

/// Cupid's link: once per game, two distinct living players.
pub open spec fn cupid_outcome(alive: Seq<PlayerId>, love: Option<(PlayerId, PlayerId)>, st: RoleState) -> (Seq<NightAction>, RoleState) {
    if st.primary_used {
        (Seq::empty(), st)
    } else {
        match love {
            Some((a, b)) => if a != b && alive.contains(a) && alive.contains(b) {
                (seq![NightAction::LinkLovers { a, b }], RoleState { primary_used: true, ..st })
            } else {
                (Seq::empty(), st)
            },
            None => (Seq::empty(), st),
        }
    }
}

/// The Witch's two potions. Heal (primary flag) only on the resolved wolf
/// target, if living; poison (secondary flag) on any living player.
pub open spec fn witch_outcome(
    alive: Seq<PlayerId>,
    heal: Option<PlayerId>,
    poison: Option<PlayerId>,
    wolf: Option<PlayerId>,
    st: RoleState,
) -> (Seq<NightAction>, RoleState) {
    let heals = !st.primary_used && heal is Some && wolf is Some && heal->0 == wolf->0
        && alive.contains(heal->0);
    let after_heal: (Seq<NightAction>, RoleState) = if heals {
        (seq![NightAction::Heal { target: heal->0 }], RoleState { primary_used: true, ..st })
    } else {
        (Seq::empty(), st)
    };
    let poisons = !st.secondary_used && poison is Some && alive.contains(poison->0);
    if poisons {
        (
            after_heal.0.push(NightAction::Poison { target: poison->0 }),
            RoleState { secondary_used: true, ..after_heal.1 },
        )
    } else {
        after_heal
    }
}

/// The Arsonist: spark (toggle) detonates; otherwise douse another living
/// player, remembering the latest douse target.
pub open spec fn arsonist_outcome(toggle: bool, target: Option<PlayerId>, st: RoleState) -> (Seq<NightAction>, RoleState) {
    if toggle {
        (seq![NightAction::Detonate], st)
    } else {
        match target {
            Some(t) => (seq![NightAction::Douse { target: t }], RoleState { remembered_player: Some(t), ..st }),
            None => (Seq::empty(), st),
        }
    }
}

/// What each role does in the night, given the fields of its context: the
/// actions it emits and its state afterwards.
pub open spec fn night_model(
    role: Role,
    alive: Seq<PlayerId>,
    self_id: PlayerId,
    chosen: Option<PlayerId>,
    heal: Option<PlayerId>,
    poison: Option<PlayerId>,
    love: Option<(PlayerId, PlayerId)>,
    wolf: Option<PlayerId>,
    toggle: bool,
    st: RoleState,
) -> (Seq<NightAction>, RoleState) {
    let other = other_target(alive, self_id, chosen);
    let any = any_target(alive, chosen);
    match role {
        Role::Wolf | Role::AlphaWolf | Role::WolfCub | Role::Lycan | Role::SnowWolf =>
            every_night(other, |t: PlayerId| NightAction::EatVote { target: t }, st),
        Role::Seer => every_night(other, |t: PlayerId| NightAction::CheckTeam { target: t }, st),
        Role::Detective | Role::Fool | Role::Oracle | Role::Sorcerer | Role::CultistHunter =>
            every_night(other, |t: PlayerId| NightAction::Investigate { target: t }, st),
        Role::Cultist => every_night(other, |t: PlayerId| NightAction::ConvertVote { target: t }, st),
        Role::SerialKiller => every_night(other, |t: PlayerId| NightAction::SerialKillVote { target: t }, st),
        Role::Chemist => every_night(other, |t: PlayerId| NightAction::Chemistry { target: t }, st),
        Role::GuardianAngel => every_night(any, |t: PlayerId| NightAction::Protect { target: t }, st),
        Role::Harlot => every_night(
            any,
            |t: PlayerId| NightAction::Visit { visitor: self_id, target: t },
            st,
        ),
        Role::WildChild | Role::Doppelganger => role_model_pick(other, st),
        Role::Thief => if st.primary_used {
            (Seq::empty(), st)
        } else {
            match other {
                Some(t) => (seq![NightAction::StealRole { target: t }], RoleState { primary_used: true, ..st }),
                None => (Seq::empty(), st),
            }
        },
        Role::Cupid => cupid_outcome(alive, love, st),
        Role::Sandman => night_toggle_once(toggle, NightAction::SandmanSleep, st),
        Role::Arsonist => arsonist_outcome(toggle, other, st),
        Role::Witch => witch_outcome(alive, heal, poison, wolf, st),
        _ => (Seq::empty(), st),
    }
}

/// What each role does in the night: the actions it emits and its state
/// afterwards, given the context and its state before.
pub open spec fn night_outcome(role: Role, ctx: &NightContext, st: RoleState) -> (Seq<NightAction>, RoleState) {
    night_model(
        role,
        ctx.alive@,
        ctx.self_id,
        ctx.chosen_target,
        ctx.heal_target,
        ctx.poison_target,
        ctx.love_targets,
        ctx.wolf_target,
        ctx.toggle_choice,
        st,
    )
}

/// What each role does in the day.
pub open spec fn day_outcome(role: Role, ctx: &DayContext, st: RoleState) -> (Seq<DayAction>, RoleState) {
    let other = other_target(ctx.alive@, ctx.self_id, ctx.chosen_target);
    match role {
        Role::Blacksmith => if st.primary_used {
            (Seq::empty(), st)
        } else {
            match other {
                Some(t) => (seq![DayAction::SpreadSilver { target: t }], RoleState { primary_used: true, ..st }),
                None => (Seq::empty(), st),
            }
        },
        Role::Mayor => day_toggle_once(ctx.toggle_choice, DayAction::Reveal, st),
        Role::Pacifist => day_toggle_once(ctx.toggle_choice, DayAction::Pacify, st),
        Role::Troublemaker => day_toggle_once(ctx.toggle_choice, DayAction::Trouble, st),
        Role::Spumpkin => match other {
            Some(t) => (seq![DayAction::Detonate { target: t }], st),
            None => (Seq::empty(), st),
        },
        _ => (Seq::empty(), st),
    }
}

/// The facts a role must have resolved before it can be asked at night.
pub open spec fn requires_spec(role: Role) -> Seq<NightFact> {
    match role {
        Role::Witch => seq![NightFact::WolfTarget],
        _ => Seq::empty(),
    }
}

/// Whether a role can be dealt to players yet.
pub open spec fn available_spec(role: Role) -> bool {
    match role {
        Role::Witch => false,
        _ => true,
    }
}

/// A night action only ever names living players, and a visit is always
/// made by the chooser.
pub open spec fn night_action_within(alive: Seq<PlayerId>, self_id: PlayerId, a: NightAction) -> bool {
    match a {
        NightAction::EatVote { target } => alive.contains(target),
        NightAction::CheckTeam { target } => alive.contains(target),
        NightAction::Heal { target } => alive.contains(target),
        NightAction::Poison { target } => alive.contains(target),
        NightAction::LinkLovers { a, b } => alive.contains(a) && alive.contains(b) && a != b,
        NightAction::Investigate { target } => alive.contains(target),
        NightAction::Protect { target } => alive.contains(target),
        NightAction::Visit { visitor, target } => visitor == self_id && alive.contains(target),
        NightAction::ChooseRoleModel { target } => alive.contains(target),
        NightAction::StealRole { target } => alive.contains(target),
        NightAction::ConvertVote { target } => alive.contains(target),
        NightAction::SerialKillVote { target } => alive.contains(target),
        NightAction::Chemistry { target } => alive.contains(target),
        NightAction::Douse { target } => alive.contains(target),
        NightAction::Detonate => true,
        NightAction::SandmanSleep => true,
    }
}

/// A day action only ever names living players.
pub open spec fn day_action_within(alive: Seq<PlayerId>, a: DayAction) -> bool {
    match a {
        DayAction::SpreadSilver { target } => alive.contains(target),
        DayAction::Detonate { target } => alive.contains(target),
        _ => true,
    }
}

/// The seam every role implements. Each hook's contract in the trait holds
/// of every role: actions only name living players. Each implementation
/// states in addition that it computes its role's row of `night_outcome`
/// and `day_outcome`.
pub trait RoleBehavior {
    fn team(&self) -> (t: Team);

    /// Called once per night for this role; returns zero, one, or (the
    /// Witch) two actions. Most roles do nothing.
    fn night_action(&self, ctx: &NightContext, state: &mut RoleState) -> (actions: Vec<NightAction>)
        ensures
            forall|i: int| 0 <= i < actions@.len() ==> night_action_within(ctx.alive@, ctx.self_id, #[trigger] actions@[i]),
        default_ensures
            actions@ == Seq::<NightAction>::empty(),
            *final(state) == *old(state),
    {
        Vec::new()
    }

    /// Called once per day for this role. Most roles do nothing.
    fn day_action(&self, ctx: &DayContext, state: &mut RoleState) -> (actions: Vec<DayAction>)
        ensures
            forall|i: int| 0 <= i < actions@.len() ==> day_action_within(ctx.alive@, #[trigger] actions@[i]),
        default_ensures
            actions@ == Seq::<DayAction>::empty(),
            *final(state) == *old(state),
    {
        Vec::new()
    }

    /// Facts that must be resolved before this role is asked at night.
    fn required_facts(&self) -> (facts: Vec<NightFact>)
        default_ensures
            facts@ == Seq::<NightFact>::empty(),
    {
        Vec::new()
    }

    /// Whether this role can be dealt to players yet.
    fn is_available(&self) -> (b: bool)
        default_ensures
            b,
    {
        true
    }
}

/// A role without behavior of its own: its team is its role's team and it
/// takes no action.
pub struct Unimplemented(pub Role);

impl RoleBehavior for Unimplemented {
    fn team(&self) -> (t: Team)
        ensures
            t == role_team(self.0),
    {
        self.0.team()
    }
}

} // verus!
