use redengine::frame::{Frame, FrameSlot, FRAME_HEIGHT, FRAME_WIDTH};
use redengine::queue::InstructionQueue;
use redengine::session::{Session, SessionAction, SessionEnd, SessionEvent, SessionPhase};

const FRAME_BYTES: usize = 1280 * 720 * 4;

fn bytes_of(value: u8) -> Vec<u8> {
    vec![value; FRAME_BYTES]
}

/// A session that has executed its script and resolved the entry object.
fn running_session(queue: &mut InstructionQueue<u32>, slot: &mut FrameSlot) -> Session {
    let mut session = Session::new("game = Game()", 0);
    assert_eq!(session.step(SessionEvent::Started, queue, slot), SessionAction::ExecuteScript);
    assert_eq!(session.step(SessionEvent::ScriptExecuted, queue, slot), SessionAction::ResolveEntry);
    session
}

#[test]
fn new_session_holds_the_script_and_has_not_begun() {
    let session = Session::new("print('hi')", 0);
    assert_eq!(session.script(), "print('hi')");
    assert_eq!(session.phase(), SessionPhase::Created);
    assert_eq!(session.stale(), 0);
    assert_eq!(session.end(), None);
    assert_eq!(Session::new("", 7).stale(), 7);
}

#[test]
fn session_follows_the_protocol() {
    let mut queue: InstructionQueue<u32> = InstructionQueue::new();
    let mut slot = FrameSlot::new();
    let mut session = Session::new("game = Game()", 0);
    assert_eq!(
        session.step(SessionEvent::Started, &mut queue, &mut slot),
        SessionAction::ExecuteScript
    );
    assert_eq!(session.phase(), SessionPhase::Loading);
    assert_eq!(
        session.step(SessionEvent::ScriptExecuted, &mut queue, &mut slot),
        SessionAction::ResolveEntry
    );
    assert_eq!(session.phase(), SessionPhase::Resolving);
    assert_eq!(
        session.step(SessionEvent::EntryResolved, &mut queue, &mut slot),
        SessionAction::Advance(None)
    );
    assert_eq!(session.phase(), SessionPhase::Stepping);
    assert_eq!(session.step(SessionEvent::Yielded, &mut queue, &mut slot), SessionAction::ReadFrame);
    assert_eq!(session.phase(), SessionPhase::Reading);
    assert!(!slot.has_frame());
    assert_eq!(
        session.step(SessionEvent::FrameRead(bytes_of(5)), &mut queue, &mut slot),
        SessionAction::Advance(None)
    );
    assert_eq!(session.phase(), SessionPhase::Stepping);
    assert_eq!(slot.read(), Frame::from_rgba(FRAME_WIDTH, FRAME_HEIGHT, bytes_of(5)));
    assert_eq!(
        session.step(SessionEvent::Exhausted, &mut queue, &mut slot),
        SessionAction::Exit(SessionEnd::Exhausted)
    );
    assert_eq!(session.phase(), SessionPhase::Finished(SessionEnd::Exhausted));
    assert_eq!(session.end(), Some(SessionEnd::Exhausted));
    assert_eq!(session.script(), "game = Game()");
}

#[test]
fn script_without_entry_object_ends_at_once_and_publishes_nothing() {
    let mut queue: InstructionQueue<u32> = InstructionQueue::new();
    let mut slot = FrameSlot::new();
    let mut session = running_session(&mut queue, &mut slot);
    let action = session.step(SessionEvent::EntryMissing, &mut queue, &mut slot);
    assert_eq!(action, SessionAction::Exit(SessionEnd::ContractBroken));
    assert!(SessionEnd::ContractBroken.is_failure());
    assert_eq!(session.end(), Some(SessionEnd::ContractBroken));
    assert!(!slot.has_frame());
    // whatever is reported after that changes nothing
    let action = session.step(SessionEvent::FrameRead(bytes_of(1)), &mut queue, &mut slot);
    assert_eq!(action, SessionAction::Exit(SessionEnd::ContractBroken));
    let action = session.step(SessionEvent::Yielded, &mut queue, &mut slot);
    assert_eq!(action, SessionAction::Exit(SessionEnd::ContractBroken));
    assert!(!slot.has_frame());
}

#[test]
fn script_without_entry_object_leaves_the_old_frame_in_the_slot() {
    let mut queue: InstructionQueue<u32> = InstructionQueue::new();
    let mut slot = FrameSlot::new();
    slot.publish(Frame::from_rgba(1, 1, vec![1, 2, 3, 4]).unwrap());
    let mut session = running_session(&mut queue, &mut slot);
    session.step(SessionEvent::EntryMissing, &mut queue, &mut slot);
    assert_eq!(slot.read(), Frame::from_rgba(1, 1, vec![1, 2, 3, 4]));
}

#[test]
fn n_yields_cause_n_publishes() {
    let n: u8 = 3;
    let mut queue: InstructionQueue<u32> = InstructionQueue::new();
    let mut slot = FrameSlot::new();
    let mut session = running_session(&mut queue, &mut slot);
    session.step(SessionEvent::EntryResolved, &mut queue, &mut slot);
    let mut publishes: u32 = 0;
    for i in 1..=n {
        let before = slot.read();
        assert_eq!(session.step(SessionEvent::Yielded, &mut queue, &mut slot), SessionAction::ReadFrame);
        assert_eq!(slot.read(), before);
        let action = session.step(SessionEvent::FrameRead(bytes_of(i)), &mut queue, &mut slot);
        assert_eq!(action, SessionAction::Advance(None));
        let after = slot.read();
        assert_ne!(after, before);
        assert_eq!(after, Frame::from_rgba(FRAME_WIDTH, FRAME_HEIGHT, bytes_of(i)));
        publishes += 1;
    }
    let last = slot.read();
    let action = session.step(SessionEvent::Exhausted, &mut queue, &mut slot);
    assert_eq!(action, SessionAction::Exit(SessionEnd::Exhausted));
    assert!(!SessionEnd::Exhausted.is_failure());
    assert_eq!(slot.read(), last);
    assert_eq!(publishes, 3);
}

#[test]
fn script_that_yields_nothing_publishes_nothing() {
    let mut queue: InstructionQueue<u32> = InstructionQueue::new();
    let mut slot = FrameSlot::new();
    let mut session = running_session(&mut queue, &mut slot);
    session.step(SessionEvent::EntryResolved, &mut queue, &mut slot);
    let action = session.step(SessionEvent::Exhausted, &mut queue, &mut slot);
    assert_eq!(action, SessionAction::Exit(SessionEnd::Exhausted));
    assert!(!slot.has_frame());
}

#[test]
fn one_instruction_is_drained_before_each_advance() {
    let mut queue: InstructionQueue<u32> = InstructionQueue::new();
    let mut slot = FrameSlot::new();
    let mut session = running_session(&mut queue, &mut slot);
    queue.enqueue(10);
    queue.enqueue(20);
    queue.enqueue(30);
    assert_eq!(
        session.step(SessionEvent::EntryResolved, &mut queue, &mut slot),
        SessionAction::Advance(Some(10))
    );
    assert_eq!(queue.len(), 2);
    assert_eq!(session.step(SessionEvent::Yielded, &mut queue, &mut slot), SessionAction::ReadFrame);
    assert_eq!(queue.len(), 2);
    assert_eq!(
        session.step(SessionEvent::FrameRead(bytes_of(0)), &mut queue, &mut slot),
        SessionAction::Advance(Some(20))
    );
    assert_eq!(queue.len(), 1);
    session.step(SessionEvent::Yielded, &mut queue, &mut slot);
    assert_eq!(
        session.step(SessionEvent::FrameRead(bytes_of(0)), &mut queue, &mut slot),
        SessionAction::Advance(Some(30))
    );
    session.step(SessionEvent::Yielded, &mut queue, &mut slot);
    assert_eq!(
        session.step(SessionEvent::FrameRead(bytes_of(0)), &mut queue, &mut slot),
        SessionAction::Advance(None)
    );
}

#[test]
fn session_that_ends_drops_what_is_pending() {
    let mut queue: InstructionQueue<u32> = InstructionQueue::new();
    let mut slot = FrameSlot::new();
    let mut session = running_session(&mut queue, &mut slot);
    session.step(SessionEvent::EntryResolved, &mut queue, &mut slot);
    queue.enqueue(1);
    queue.enqueue(2);
    let action = session.step(SessionEvent::Exhausted, &mut queue, &mut slot);
    assert_eq!(action, SessionAction::Exit(SessionEnd::Exhausted));
    assert!(queue.is_empty());
}

#[test]
fn script_that_raises_ends_the_session() {
    let mut queue: InstructionQueue<u32> = InstructionQueue::new();
    let mut slot = FrameSlot::new();
    let mut session = Session::new("raise ValueError", 0);
    session.step(SessionEvent::Started, &mut queue, &mut slot);
    let action = session.step(SessionEvent::ScriptRaised, &mut queue, &mut slot);
    assert_eq!(action, SessionAction::Exit(SessionEnd::ScriptFailed));
    assert!(SessionEnd::ScriptFailed.is_failure());
    assert!(!slot.has_frame());
}

#[test]
fn step_that_raises_ends_the_session() {
    let mut queue: InstructionQueue<u32> = InstructionQueue::new();
    let mut slot = FrameSlot::new();
    let mut session = running_session(&mut queue, &mut slot);
    session.step(SessionEvent::EntryResolved, &mut queue, &mut slot);
    session.step(SessionEvent::Yielded, &mut queue, &mut slot);
    session.step(SessionEvent::FrameRead(bytes_of(8)), &mut queue, &mut slot);
    let action = session.step(SessionEvent::StepRaised, &mut queue, &mut slot);
    assert_eq!(action, SessionAction::Exit(SessionEnd::StepFailed));
    assert!(SessionEnd::StepFailed.is_failure());
    assert_eq!(slot.read(), Frame::from_rgba(FRAME_WIDTH, FRAME_HEIGHT, bytes_of(8)));
}

#[test]
fn frame_of_the_wrong_size_ends_the_session() {
    let mut queue: InstructionQueue<u32> = InstructionQueue::new();
    let mut slot = FrameSlot::new();
    let mut session = running_session(&mut queue, &mut slot);
    session.step(SessionEvent::EntryResolved, &mut queue, &mut slot);
    session.step(SessionEvent::Yielded, &mut queue, &mut slot);
    let action =
        session.step(SessionEvent::FrameRead(vec![0u8; FRAME_BYTES - 1]), &mut queue, &mut slot);
    assert_eq!(action, SessionAction::Exit(SessionEnd::ContractBroken));
    assert!(!slot.has_frame());
}

#[test]
fn missing_frame_attribute_ends_the_session() {
    let mut queue: InstructionQueue<u32> = InstructionQueue::new();
    let mut slot = FrameSlot::new();
    let mut session = running_session(&mut queue, &mut slot);
    session.step(SessionEvent::EntryResolved, &mut queue, &mut slot);
    session.step(SessionEvent::Yielded, &mut queue, &mut slot);
    let action = session.step(SessionEvent::FrameMissing, &mut queue, &mut slot);
    assert_eq!(action, SessionAction::Exit(SessionEnd::ContractBroken));
    assert!(!slot.has_frame());
}

#[test]
fn event_out_of_turn_ends_the_session() {
    let mut queue: InstructionQueue<u32> = InstructionQueue::new();
    let mut slot = FrameSlot::new();
    let mut session = Session::new("", 0);
    let action = session.step(SessionEvent::Yielded, &mut queue, &mut slot);
    assert_eq!(action, SessionAction::Exit(SessionEnd::OutOfTurn));
    assert!(SessionEnd::OutOfTurn.is_failure());

    let mut session = running_session(&mut queue, &mut slot);
    session.step(SessionEvent::EntryResolved, &mut queue, &mut slot);
    // bytes arrive though no step was yielded
    let action = session.step(SessionEvent::FrameRead(bytes_of(1)), &mut queue, &mut slot);
    assert_eq!(action, SessionAction::Exit(SessionEnd::OutOfTurn));
    assert!(!slot.has_frame());
}

#[test]
fn each_failure_is_reported_and_exhaustion_is_not() {
    assert_eq!(SessionEnd::Exhausted.report(), None);
    assert!(!SessionEnd::Exhausted.is_failure());
    assert_eq!(SessionEnd::ScriptFailed.report(), Some("the script raised an error"));
    assert_eq!(
        SessionEnd::ContractBroken.report(),
        Some("the script does not provide a usable `game` object")
    );
    assert_eq!(SessionEnd::StepFailed.report(), Some("advancing the game raised an error"));
    assert_eq!(SessionEnd::OutOfTurn.report(), Some("the session was driven out of turn"));
    for end in [
        SessionEnd::ScriptFailed,
        SessionEnd::ContractBroken,
        SessionEnd::StepFailed,
        SessionEnd::OutOfTurn,
    ] {
        assert!(end.is_failure());
    }
}

#[test]
fn instructions_posted_during_a_run_are_handed_out_in_order_or_dropped() {
    let mut queue: InstructionQueue<u32> = InstructionQueue::new();
    let mut slot = FrameSlot::new();
    let mut session = running_session(&mut queue, &mut slot);
    let mut handed_out: Vec<u32> = Vec::new();
    let mut run = |action: SessionAction<u32>, handed_out: &mut Vec<u32>| {
        if let SessionAction::Advance(Some(instruction)) = action {
            handed_out.push(instruction);
        }
    };
    queue.enqueue(1);
    run(session.step(SessionEvent::EntryResolved, &mut queue, &mut slot), &mut handed_out);
    queue.enqueue(2);
    queue.enqueue(3);
    run(session.step(SessionEvent::Yielded, &mut queue, &mut slot), &mut handed_out);
    queue.enqueue(4);
    run(session.step(SessionEvent::FrameRead(bytes_of(0)), &mut queue, &mut slot), &mut handed_out);
    run(session.step(SessionEvent::Yielded, &mut queue, &mut slot), &mut handed_out);
    run(session.step(SessionEvent::FrameRead(bytes_of(0)), &mut queue, &mut slot), &mut handed_out);
    assert_eq!(handed_out, vec![1, 2, 3]);
    assert_eq!(queue.len(), 1);
    run(session.step(SessionEvent::Exhausted, &mut queue, &mut slot), &mut handed_out);
    assert_eq!(handed_out, vec![1, 2, 3]);
    assert!(queue.is_empty());
    // a finished session hands out nothing and keeps nothing
    queue.enqueue(5);
    run(session.step(SessionEvent::Yielded, &mut queue, &mut slot), &mut handed_out);
    assert_eq!(handed_out, vec![1, 2, 3]);
    assert!(queue.is_empty());
}

#[test]
fn first_step_drops_what_was_pending_at_creation_and_keeps_later_posts() {
    let mut queue: InstructionQueue<u32> = InstructionQueue::new();
    let mut slot = FrameSlot::new();
    queue.enqueue(1);
    queue.enqueue(2);
    let mut session = Session::new("game = Game()", queue.len());
    assert_eq!(session.stale(), 2);
    queue.enqueue(3);
    queue.enqueue(4);
    assert_eq!(
        session.step(SessionEvent::Started, &mut queue, &mut slot),
        SessionAction::ExecuteScript
    );
    assert_eq!(session.stale(), 2);
    assert_eq!(queue.len(), 2);
    session.step(SessionEvent::ScriptExecuted, &mut queue, &mut slot);
    assert_eq!(queue.len(), 2);
    assert_eq!(
        session.step(SessionEvent::EntryResolved, &mut queue, &mut slot),
        SessionAction::Advance(Some(3))
    );
    session.step(SessionEvent::Yielded, &mut queue, &mut slot);
    assert_eq!(
        session.step(SessionEvent::FrameRead(bytes_of(0)), &mut queue, &mut slot),
        SessionAction::Advance(Some(4))
    );
}

#[test]
fn first_step_drops_no_more_than_is_pending() {
    let mut queue: InstructionQueue<u32> = InstructionQueue::new();
    let mut slot = FrameSlot::new();
    queue.enqueue(1);
    let mut session = Session::new("game = Game()", 5);
    session.step(SessionEvent::Started, &mut queue, &mut slot);
    assert!(queue.is_empty());
}

#[test]
fn later_steps_drop_nothing_as_stale() {
    let mut queue: InstructionQueue<u32> = InstructionQueue::new();
    let mut slot = FrameSlot::new();
    let mut session = Session::new("game = Game()", 1);
    session.step(SessionEvent::Started, &mut queue, &mut slot);
    queue.enqueue(9);
    assert_eq!(
        session.step(SessionEvent::ScriptExecuted, &mut queue, &mut slot),
        SessionAction::ResolveEntry
    );
    assert_eq!(queue.len(), 1);
    assert_eq!(
        session.step(SessionEvent::EntryResolved, &mut queue, &mut slot),
        SessionAction::Advance(Some(9))
    );
}
