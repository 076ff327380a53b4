//! The world data model: the collection of entities plus global counters.

use vstd::prelude::*;
use crate::entity::Hacker;

verus! {

/// Global weather. Dormant state: initialized to Clear and never changed
/// by any behavior.
#[derive(Clone, Copy, Debug, PartialEq, Eq, Structural)]
pub enum WeatherState {
    Clear,
    Rain,
    Snow,
    Hail,
}

/// The world: an ordered collection of hackers plus global counters.
/// Insertion order is spawn order and is also the render/update iteration
/// order, which determines draw layering when entities overlap. `time`
/// and `money` are dormant counters, reserved for future logic.
///
/// Startup pushes exactly one hacker, and nothing ever removes one, so
/// after startup the collection is never empty: index 0 stays valid.
#[derive(Clone, Debug, PartialEq)]
pub struct GameState {
    pub hackers: Vec<Hacker>,
    pub time: u32,
    pub money: u32,
    pub weather: WeatherState,
}

impl Default for GameState {
    /// An empty world: no hackers yet, zeroed counters, clear weather.
    fn default() -> (s: GameState)
        ensures
            s.hackers@.len() == 0,
            s.time == 0,
            s.money == 0,
            s.weather == WeatherState::Clear,
    {
        GameState { hackers: Vec::new(), time: 0, money: 0, weather: WeatherState::Clear }
    }
}

} // verus!
