//! A turn-based trading game: six commodities, six places, a month of days,
//! a loan shark, a bank, random events and armed encounters.
//!
//! The library holds the whole game state and every rule that changes it.
//! A front end renders the state, shows the notices and hands the player's
//! answers back in through `GameState::answer`.

mod commodity;
mod random;
mod numbers;
mod game;
mod inventory;
mod market;
mod events;
mod encounter;
mod turn;
mod flow;
pub mod laws;

pub use commodity::{Drug, Location, NUM_DRUGS};
pub use game::{
    GameState, Notice, Phase, Stage, QTY_CAP, MONEY_CAP, PRICE_CAP, DAYS_TOTAL, FATAL_DAMAGE,
    START_CASH, START_DEBT, MAX_LOAN, START_HOLD,
};
pub use inventory::Direction;
pub use events::{Event, CAPACITY_GATE};
pub use encounter::Clash;
pub use turn::{Rank, score_for};
pub use flow::{Input, INTERRUPT};
