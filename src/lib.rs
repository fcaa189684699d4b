//! Decision core of an agent that plays a turn-based browser game for one
//! account: it reads a snapshot of the account and decides the next command.

pub mod scorer;
pub mod budget;
pub mod clock;
pub mod wait;
pub mod command;
pub mod expedition;
pub mod snapshot;
pub mod equipment;
pub mod inventory;
pub mod arena;
pub mod dungeon;
pub mod quest;
pub mod scheduler;
