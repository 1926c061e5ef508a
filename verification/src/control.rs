//! Starting and stopping a run from the UI thread.
//!
//! Neither call waits for the session thread. A start hands back the session
//! for the caller to drive on a thread of its own; a stop only posts the request
//! to quit, which the session honours at the next turn of its loop.

use crate::frame::{FRAME_HEIGHT, FRAME_WIDTH};
use crate::queue::InstructionQueue;
use crate::session::{action_of, pending_after_step, Session, SessionAction, SessionPhase};
use vstd::prelude::*;

verus! {

/// What the UI knows of the game: whether it takes it to be running, and the
/// size of the frames it expects, width first.
///
/// `running` is the UI's own belief. It is set by a start and cleared by a stop,
/// and by nothing else: a session that ends by itself leaves it as it is.
#[derive(Clone, Copy, Debug, PartialEq, Eq)]
pub struct GameState {
    pub running: bool,
    pub size: [usize; 2],
}

impl Default for GameState {
    /// No game running; frames of the standard size.
    fn default() -> (state: GameState)
        ensures
            !state.running,
            state.size@ == seq![FRAME_WIDTH, FRAME_HEIGHT],
    {
        GameState { running: false, size: [FRAME_WIDTH, FRAME_HEIGHT] }
    }
}

/// The name under which the viewport's texture is cached.
pub open spec fn viewport_texture() -> Seq<char> {
    "viewport_texture"@
}

/// What is pending after a stop that found `pending`: the request to quit has
/// joined the tail.
pub open spec fn pending_after_close<T>(pending: Seq<T>, quit: T) -> Seq<T> {
    pending.push(quit)
}

/// Starts a game: marks it as running and returns the session that will run
/// `code_string`. The caller drives the session on a new thread.
///
/// The queue is only looked at. The session remembers how many instructions
/// were pending at this moment: they were posted while no session of this
/// start ran, and the session's first step drops them. What is posted from now
/// on reaches the session.
///
/// Only one session may run at a time; the caller offers no start while
/// `running` is set.
pub fn launch_game<T>(
    code_string: &str,
    game_state: &mut GameState,
    queue: &InstructionQueue<T>,
) -> (session: Session)
    ensures
        final(game_state).running,
        final(game_state).size == old(game_state).size,
        session@.script == code_string@,
        session@.phase == SessionPhase::Created,
        session@.stale == queue@.len(),
{
    game_state.running = true;
    Session::new(code_string, queue.len())
}

/// Asks the running game to stop: posts `quit`, the instruction that calls the
/// entry object's `quit`, and marks the game as not running at once, before the
/// session has seen the request. Returns the name of the cached texture that the
/// caller now has to discard.
///
/// May be called at any time, also when no game runs.
pub fn close_game<T>(game_state: &mut GameState, queue: &mut InstructionQueue<T>, quit: T) -> (forget:
    &'static str)
    ensures
        !final(game_state).running,
        final(game_state).size == old(game_state).size,
        final(queue)@ == pending_after_close(old(queue)@, quit),
        forget@ == viewport_texture(),
{
    queue.enqueue(quit);
    game_state.running = false;
    "viewport_texture"
}

/// What the button that starts and stops the game does when clicked: it stops a
/// game that is marked as running and starts one otherwise. Returns the session
/// to drive after a start, and the name of the texture to discard after a stop.
pub fn toggle_game<T>(
    code_string: &str,
    game_state: &mut GameState,
    queue: &mut InstructionQueue<T>,
    quit: T,
) -> (outcome: Result<Session, &'static str>)
    ensures
        final(game_state).running == !old(game_state).running,
        final(game_state).size == old(game_state).size,
        old(game_state).running ==> {
            &&& outcome matches Err(forget)
            &&& forget@ == viewport_texture()
            &&& final(queue)@ == pending_after_close(old(queue)@, quit)
        },
        !old(game_state).running ==> {
            &&& outcome matches Ok(session)
            &&& session@.script == code_string@
            &&& session@.phase == SessionPhase::Created
            &&& session@.stale == old(queue)@.len()
            &&& final(queue)@ == old(queue)@
        },
{
    if game_state.running {
        Err(close_game(game_state, queue, quit))
    } else {
        Ok(launch_game(code_string, game_state, queue))
    }
}

/// A stop while no game runs does no harm. The request to quit waits in the
/// queue, and the next start leaves it there. The session of that start drops
/// it at its first step, together with whatever else was pending at the start,
/// and keeps what was posted after the start: that session is not asked to
/// quit. With nothing posted after the start, its first advance carries no
/// instruction.
pub proof fn lemma_stale_quit_is_dropped<T>(pending: Seq<T>, quit: T, later: Seq<T>)
    ensures
        pending_after_step(
            pending_after_close(pending, quit) + later,
            pending_after_close(pending, quit).len(),
            SessionPhase::Loading,
        ) == later,
        action_of(Seq::<T>::empty(), SessionPhase::Stepping) == SessionAction::<T>::Advance(None),
{
    crate::session::lemma_first_step_keeps_later_posts(pending_after_close(pending, quit), later);
}

} // verus!
