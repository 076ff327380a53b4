//! The per-tick driver core: input for the tick is fully applied to the
//! state, then the screen that is current *after* that dispatch is
//! rendered — a status change takes effect for rendering in the very
//! tick it occurred. On an exit request the tick renders nothing.
//!
//! The unverified shell around this polls the key source, hands the
//! result in as a plain event, flushes the grid afterwards, and sleeps
//! the fixed tick delay.

use vstd::prelude::*;
use crate::entity::Hacker;
use crate::machine::{
    handle_input, next_action, next_hackers, next_status, GameStatus, KeyEvent, LoopAction,
    TickInput,
};
use crate::surface::{
    hacker_fits, planning_rendered, render_hackers_seq, splash_rendered, Grid, SurfaceError,
};
use crate::world::GameState;

verus! {

/// What the renderer of the given screen leaves on the surface.
pub open spec fn screen_rendered(
    status: GameStatus,
    hackers: Seq<Hacker>,
    cells: Seq<char>,
    width: int,
    height: int,
) -> Seq<char> {
    match status {
        GameStatus::Splash => splash_rendered(cells, width, height),
        GameStatus::Planning => planning_rendered(cells, width, height),
        GameStatus::Tables => render_hackers_seq(cells, width, hackers),
    }
}

/// One tick, after the poll: dispatch the input through the transition
/// table, and, when the loop is to continue, render the now-current
/// screen into the grid. On an exit request (the interrupt, or a decode
/// failure) nothing is rendered and the grid is untouched: the loop ends
/// before its render step. The only failure is an
/// entity that does not fit on the surface while the tables screen
/// renders; the grid is then untouched and the first offender is named.
pub fn tick(status: GameStatus, state: &mut GameState, input: TickInput, grid: &mut Grid) -> (r:
    Result<(GameStatus, LoopAction), SurfaceError>)
    requires
        old(grid).wf(),
        status is Tables && input == TickInput::Key(KeyEvent::Char('s')) ==> old(
            state,
        ).hackers@.len() >= 1,
    ensures
        final(state).hackers@ == next_hackers(status, old(state).hackers@, input),
        final(state).time == old(state).time,
        final(state).money == old(state).money,
        final(state).weather == old(state).weather,
        final(grid).wf(),
        final(grid).spec_width() == old(grid).spec_width(),
        final(grid).spec_height() == old(grid).spec_height(),
        match r {
            Ok(sa) => {
                &&& sa.0 == next_status(status, input)
                &&& sa.1 == next_action(input)
                &&& sa.1 != LoopAction::Continue ==> final(grid)@ == old(grid)@
                &&& sa.1 == LoopAction::Continue ==> final(grid)@ == screen_rendered(
                    sa.0,
                    final(state).hackers@,
                    old(grid)@,
                    old(grid).spec_width() as int,
                    old(grid).spec_height() as int,
                )
            },
            Err(e) => {
                &&& next_action(input) == LoopAction::Continue
                &&& next_status(status, input) is Tables
                &&& e matches SurfaceError::OutOfBounds(j) && j < final(state).hackers@.len()
                    && !hacker_fits(
                    final(state).hackers@[j as int],
                    old(grid).spec_width(),
                    old(grid).spec_height(),
                )
                &&& final(grid)@ == old(grid)@
            },
        },
{
    let (st, action) = handle_input(status, state, input);
    match action {
        LoopAction::Continue => match st {
            GameStatus::Splash => {
                grid.render_splash();
                Ok((st, action))
            },
            GameStatus::Planning => {
                grid.render_planning();
                Ok((st, action))
            },
            GameStatus::Tables => match grid.render_tables(&state.hackers) {
                Ok(()) => Ok((st, action)),
                Err(e) => Err(e),
            },
        },
        _ => Ok((st, action)),
    }
}

} // verus!
