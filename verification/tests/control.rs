use redengine::control::{close_game, launch_game, toggle_game, GameState};
use redengine::frame::FrameSlot;
use redengine::queue::InstructionQueue;
use redengine::session::{SessionAction, SessionEvent, SessionPhase};

#[test]
fn default_state_is_stopped_with_the_standard_size() {
    let state = GameState::default();
    assert!(!state.running);
    assert_eq!(state.size, [1280, 720]);
}

#[test]
fn launch_marks_the_game_as_running_and_hands_out_the_session() {
    let mut state = GameState { running: false, size: [640, 480] };
    let queue: InstructionQueue<&str> = InstructionQueue::new();
    let session = launch_game("game = Game()", &mut state, &queue);
    assert!(state.running);
    assert_eq!(state.size, [640, 480]);
    assert_eq!(session.script(), "game = Game()");
    assert_eq!(session.phase(), SessionPhase::Created);
    assert_eq!(session.stale(), 0);
    assert!(queue.is_empty());
}

#[test]
fn launch_leaves_the_queue_as_it_is() {
    let mut state = GameState::default();
    let mut queue: InstructionQueue<&str> = InstructionQueue::new();
    queue.enqueue("a");
    queue.enqueue("b");
    let session = launch_game("game = Game()", &mut state, &queue);
    assert_eq!(session.stale(), 2);
    assert_eq!(queue.len(), 2);
    assert_eq!(queue.drain_one(), Some("a"));
    assert_eq!(queue.drain_one(), Some("b"));
    assert_eq!(queue.drain_one(), None);
}

#[test]
fn close_posts_the_quit_and_marks_the_game_as_stopped() {
    let mut state = GameState { running: true, size: [1280, 720] };
    let mut queue: InstructionQueue<&str> = InstructionQueue::new();
    queue.enqueue("other");
    let forget = close_game(&mut state, &mut queue, "quit");
    assert_eq!(forget, "viewport_texture");
    assert!(!state.running);
    assert_eq!(state.size, [1280, 720]);
    assert_eq!(queue.drain_one(), Some("other"));
    assert_eq!(queue.drain_one(), Some("quit"));
    assert_eq!(queue.drain_one(), None);
}

#[test]
fn stop_before_any_start_is_harmless() {
    let mut state = GameState::default();
    let mut queue: InstructionQueue<&str> = InstructionQueue::new();
    let mut slot = FrameSlot::new();
    close_game(&mut state, &mut queue, "quit");
    assert!(!state.running);
    assert_eq!(queue.len(), 1);
    // the next start leaves the stale request where it is
    let mut session = launch_game("game = Game()", &mut state, &queue);
    assert!(state.running);
    assert_eq!(queue.len(), 1);
    // the new session drops it at its first step and is not asked to quit
    session.step(SessionEvent::Started, &mut queue, &mut slot);
    assert!(queue.is_empty());
    session.step(SessionEvent::ScriptExecuted, &mut queue, &mut slot);
    assert_eq!(
        session.step(SessionEvent::EntryResolved, &mut queue, &mut slot),
        SessionAction::Advance(None)
    );
}

#[test]
fn stale_stop_is_dropped_and_what_is_posted_after_the_start_is_kept() {
    let mut state = GameState::default();
    let mut queue: InstructionQueue<&str> = InstructionQueue::new();
    let mut slot = FrameSlot::new();
    close_game(&mut state, &mut queue, "stale quit");
    let mut session = launch_game("game = Game()", &mut state, &queue);
    queue.enqueue("posted after the start");
    session.step(SessionEvent::Started, &mut queue, &mut slot);
    assert_eq!(queue.len(), 1);
    session.step(SessionEvent::ScriptExecuted, &mut queue, &mut slot);
    assert_eq!(
        session.step(SessionEvent::EntryResolved, &mut queue, &mut slot),
        SessionAction::Advance(Some("posted after the start"))
    );
}

#[test]
fn stop_after_start_reaches_the_session() {
    let mut state = GameState::default();
    let mut queue: InstructionQueue<&str> = InstructionQueue::new();
    let mut slot = FrameSlot::new();
    let mut session = launch_game("game = Game()", &mut state, &queue);
    close_game(&mut state, &mut queue, "quit");
    assert!(!state.running);
    session.step(SessionEvent::Started, &mut queue, &mut slot);
    session.step(SessionEvent::ScriptExecuted, &mut queue, &mut slot);
    assert_eq!(
        session.step(SessionEvent::EntryResolved, &mut queue, &mut slot),
        SessionAction::Advance(Some("quit"))
    );
}

#[test]
fn session_that_ends_by_itself_leaves_running_as_it_is() {
    let mut state = GameState::default();
    let mut queue: InstructionQueue<&str> = InstructionQueue::new();
    let mut slot = FrameSlot::new();
    let mut session = launch_game("game = Game()", &mut state, &queue);
    session.step(SessionEvent::Started, &mut queue, &mut slot);
    session.step(SessionEvent::ScriptExecuted, &mut queue, &mut slot);
    session.step(SessionEvent::EntryResolved, &mut queue, &mut slot);
    session.step(SessionEvent::Exhausted, &mut queue, &mut slot);
    assert!(session.end().is_some());
    assert!(state.running);
}

#[test]
fn toggle_starts_a_stopped_game_and_stops_a_running_one() {
    let mut state = GameState::default();
    let mut queue: InstructionQueue<&str> = InstructionQueue::new();
    queue.enqueue("pending");
    let started = toggle_game("code", &mut state, &mut queue, "quit").unwrap();
    assert!(state.running);
    assert_eq!(started.script(), "code");
    assert_eq!(started.stale(), 1);
    assert_eq!(queue.len(), 1);
    assert_eq!(queue.drain_one(), Some("pending"));
    let stopped = toggle_game("code", &mut state, &mut queue, "quit");
    assert!(!state.running);
    assert_eq!(stopped.unwrap_err(), "viewport_texture");
    assert_eq!(queue.drain_one(), Some("quit"));
}
