//! The screen state machine: which screen is active, how one tick's input
//! moves it, and how the input changes the world.

use vstd::prelude::*;
use crate::entity::{Hacker, HackerSitState};
use crate::world::GameState;

verus! {

/// The top-level screen mode, governing both which input handler and
/// which renderer are active this tick.
#[derive(Clone, Copy, Debug, PartialEq, Eq, Structural)]
pub enum GameStatus {
    Splash,
    Planning,
    Tables,
}

/// A decoded key event, as the input adapter hands it to the dispatcher.
/// `Other` stands for every key the transition table never distinguishes.
#[derive(Clone, Copy, Debug, PartialEq, Eq, Structural)]
pub enum KeyEvent {
    Char(char),
    Ctrl(char),
    Esc,
    Other,
}

/// What the non-blocking poll of the input source yielded this tick:
/// nothing, a decoded key, or a raw event it could not decode.
#[derive(Clone, Copy, Debug, PartialEq, Eq, Structural)]
pub enum TickInput {
    NoEvent,
    Key(KeyEvent),
    DecodeFailure,
}

/// What the driver must do after the dispatch step of a tick. A decode
/// failure is unrecoverable and ends the loop as a process failure; the
/// interrupt signal ends it with success.
#[derive(Clone, Copy, Debug, PartialEq, Eq, Structural)]
pub enum LoopAction {
    Continue,
    ExitSuccess,
    ExitFailure,
}

/// The interrupt signal: control+c, the one input interpreted uniformly
/// across all screen states as an unconditional loop-exit request.
pub open spec fn is_interrupt(input: TickInput) -> bool {
    input == TickInput::Key(KeyEvent::Ctrl('c'))
}

/// The transition table on the screen status. Space moves Splash to
/// Planning; escape moves Planning to Tables; Tables never leaves; every
/// other key, the interrupt included, and a tick without an event leave
/// the status unchanged.
pub open spec fn next_status(status: GameStatus, input: TickInput) -> GameStatus {
    match input {
        TickInput::Key(k) => match status {
            GameStatus::Splash => if k == KeyEvent::Char(' ') {
                GameStatus::Planning
            } else {
                GameStatus::Splash
            },
            GameStatus::Planning => if k == KeyEvent::Esc {
                GameStatus::Tables
            } else {
                GameStatus::Planning
            },
            GameStatus::Tables => GameStatus::Tables,
        },
        _ => status,
    }
}

/// The loop action a tick's input demands. It depends on the input alone,
/// never on the screen status: the interrupt exits with success from any
/// state, a decode failure is fatal from any state, all else continues.
pub open spec fn next_action(input: TickInput) -> LoopAction {
    if is_interrupt(input) {
        LoopAction::ExitSuccess
    } else if input is DecodeFailure {
        LoopAction::ExitFailure
    } else {
        LoopAction::Continue
    }
}

/// The given hacker, stood up from its seat.
pub open spec fn stand_up(h: Hacker) -> Hacker {
    Hacker { sit_state: HackerSitState::Standing, ..h }
}

/// How one tick's input changes the entity collection: on the tables
/// screen the `s` key stands the first hacker up; nothing else ever
/// touches an entity.
pub open spec fn next_hackers(status: GameStatus, hackers: Seq<Hacker>, input: TickInput) -> Seq<
    Hacker,
> {
    if status is Tables && input == TickInput::Key(KeyEvent::Char('s')) {
        hackers.update(0, stand_up(hackers[0]))
    } else {
        hackers
    }
}

/// Applies one tick's input: dispatches on the current screen status,
/// returns the status for the rest of this same tick together with the
/// loop action, and mutates the world exactly as the transition table
/// says. The counters and the weather are never touched.
///
/// Standing the first hacker up reads index 0, so that arm demands the
/// startup invariant (a non-empty world); an unverified caller must check
/// it and fail fast rather than dispatch on an empty world.
pub fn handle_input(status: GameStatus, state: &mut GameState, input: TickInput) -> (r: (
    GameStatus,
    LoopAction,
))
    requires
        status is Tables && input == TickInput::Key(KeyEvent::Char('s'))
            ==> old(state).hackers@.len() >= 1,
    ensures
        r.0 == next_status(status, input),
        r.1 == next_action(input),
        final(state).hackers@ == next_hackers(status, old(state).hackers@, input),
        final(state).time == old(state).time,
        final(state).money == old(state).money,
        final(state).weather == old(state).weather,
{
    match input {
        TickInput::NoEvent => (status, LoopAction::Continue),
        TickInput::DecodeFailure => (status, LoopAction::ExitFailure),
        TickInput::Key(k) => match status {
            GameStatus::Splash => match k {
                KeyEvent::Char(' ') => (GameStatus::Planning, LoopAction::Continue),
                KeyEvent::Ctrl('c') => (GameStatus::Splash, LoopAction::ExitSuccess),
                _ => (GameStatus::Splash, LoopAction::Continue),
            },
            GameStatus::Planning => match k {
                KeyEvent::Ctrl('c') => (GameStatus::Planning, LoopAction::ExitSuccess),
                KeyEvent::Esc => (GameStatus::Tables, LoopAction::Continue),
                _ => (GameStatus::Planning, LoopAction::Continue),
            },
            GameStatus::Tables => match k {
                KeyEvent::Char('s') => {
                    let h = state.hackers[0];
                    state.hackers[0] = Hacker { sit_state: HackerSitState::Standing, ..h };
                    (GameStatus::Tables, LoopAction::Continue)
                },
                KeyEvent::Ctrl('c') => (GameStatus::Tables, LoopAction::ExitSuccess),
                _ => (GameStatus::Tables, LoopAction::Continue),
            },
        },
    }
}

/// The screen status after a whole sequence of ticks' inputs.
pub open spec fn run_status(status: GameStatus, inputs: Seq<TickInput>) -> GameStatus
    decreases inputs.len(),
{
    if inputs.len() == 0 {
        status
    } else {
        run_status(next_status(status, inputs[0]), inputs.drop_first())
    }
}

/// The entity collection after a whole sequence of ticks' inputs, with
/// the screen status evolving alongside it.
pub open spec fn run_hackers(
    status: GameStatus,
    hackers: Seq<Hacker>,
    inputs: Seq<TickInput>,
) -> Seq<Hacker>
    decreases inputs.len(),
{
    if inputs.len() == 0 {
        hackers
    } else {
        run_hackers(
            next_status(status, inputs[0]),
            next_hackers(status, hackers, inputs[0]),
            inputs.drop_first(),
        )
    }
}

/// Law: over any sequence of ticks in which the input source yields no
/// event, the screen status never changes and no entity changes — in
/// particular the first hacker's sitting state stays what it was.
pub proof fn lemma_quiescent_ticks(
    status: GameStatus,
    hackers: Seq<Hacker>,
    inputs: Seq<TickInput>,
)
    requires
        forall|i: int| 0 <= i < inputs.len() ==> inputs[i] is NoEvent,
    ensures
        run_status(status, inputs) == status,
        run_hackers(status, hackers, inputs) == hackers,
        hackers.len() >= 1 ==> run_hackers(status, hackers, inputs)[0].sit_state
            == hackers[0].sit_state,
    decreases inputs.len(),
{
    if inputs.len() > 0 {
        assert(inputs[0] is NoEvent);
        assert(forall|i: int|
            0 <= i < inputs.drop_first().len() ==> #[trigger] inputs.drop_first()[i]
                == inputs[i + 1]);
        lemma_quiescent_ticks(status, hackers, inputs.drop_first());
    }
}

/// Law: from Splash, space and only space moves the status to Planning;
/// every other key leaves it at Splash.
pub proof fn lemma_splash_space_only(k: KeyEvent)
    ensures
        next_status(GameStatus::Splash, TickInput::Key(k)) == GameStatus::Planning <==> k
            == KeyEvent::Char(' '),
        k != KeyEvent::Char(' ') ==> next_status(GameStatus::Splash, TickInput::Key(k))
            == GameStatus::Splash,
{
}

/// Law: from Planning, escape and only escape moves the status to Tables;
/// every other key leaves it at Planning.
pub proof fn lemma_planning_escape_only(k: KeyEvent)
    ensures
        next_status(GameStatus::Planning, TickInput::Key(k)) == GameStatus::Tables <==> k
            == KeyEvent::Esc,
        k != KeyEvent::Esc ==> next_status(GameStatus::Planning, TickInput::Key(k))
            == GameStatus::Planning,
{
}

/// Law: the interrupt signal, and only it, ends the loop with success,
/// from every screen state alike; it moves neither the status nor an
/// entity. (That the action never depends on the status at all is already
/// in `next_action`'s signature.)
pub proof fn lemma_interrupt_uniform(status: GameStatus, hackers: Seq<Hacker>, input: TickInput)
    ensures
        next_action(input) == LoopAction::ExitSuccess <==> is_interrupt(input),
        is_interrupt(input) ==> next_status(status, input) == status,
        is_interrupt(input) ==> next_hackers(status, hackers, input) == hackers,
{
}

/// Law: on the tables screen, pressing `s` stands the first hacker up,
/// and doing it again changes nothing: the first hacker stays standing,
/// never reverting to sitting, and the collection is unchanged by the
/// second press.
pub proof fn lemma_stand_idempotent(hackers: Seq<Hacker>)
    requires
        hackers.len() >= 1,
    ensures
        ({
            let skey = TickInput::Key(KeyEvent::Char('s'));
            let once = next_hackers(GameStatus::Tables, hackers, skey);
            &&& once[0].sit_state == HackerSitState::Standing
            &&& once.len() == hackers.len()
            &&& next_hackers(GameStatus::Tables, once, skey) == once
        }),
{
    let skey = TickInput::Key(KeyEvent::Char('s'));
    let once = next_hackers(GameStatus::Tables, hackers, skey);
    assert(once[0] == stand_up(hackers[0]));
    assert(stand_up(once[0]) == once[0]);
    assert(once.update(0, stand_up(once[0])) =~= once);
}

} // verus!
