//! Werewolf game logic: roles and their night and day actions, lover links,
//! the night orchestration state machine, bookkeeping between phases,
//! language packs and the admission arithmetic of the bot's control plane.

pub mod control;
pub mod game;
pub mod i18n;
pub mod orchestrator;
pub mod night_laws;
pub mod roles;
pub mod types;

pub use types::{KillEvent, KillMethod, PlayerId, PlayerState, Role, Team};
