//! One run of a user script, as the session thread drives it.
//!
//! The interpreter is outside this library. The thread that owns it alternates
//! between doing what the session asks (an action) and reporting what came of it
//! (an event); [`Session::step`] decides, from the phase the run is in and the
//! event, what happens to the frame slot and the instruction queue and what to do
//! next. The session never sees the UI's state: how a run ends is told to the
//! thread that drives it and to nobody else.

use crate::frame::{rgba_len, Frame, FrameSlot, FrameView, FRAME_HEIGHT, FRAME_WIDTH};
use crate::queue::{head, without_first, without_head, InstructionQueue};
use vstd::prelude::*;
use vstd::string::StringExecFns;

verus! {

/// Why a session ended.
#[derive(Clone, Copy, Debug, PartialEq, Eq, Structural)]
pub enum SessionEnd {
    /// The step sequence had no further step. A session that was asked to quit
    /// ends this way too.
    Exhausted,
    /// Executing the script text raised an error.
    ScriptFailed,
    /// The script does not keep its side of the contract: it defines no entry
    /// object, the object lacks a method or the frame attribute, or the frame is
    /// not a buffer of the expected size.
    ContractBroken,
    /// Advancing the step sequence raised an error.
    StepFailed,
    /// An event arrived that does not answer the action the session asked for.
    OutOfTurn,
}

/// Where a session is in its protocol.
#[derive(Clone, Copy, Debug, PartialEq, Eq, Structural)]
pub enum SessionPhase {
    /// The script text is accepted; the thread has not started.
    Created,
    /// The script text is being executed.
    Loading,
    /// The entry object and its step sequence are being resolved.
    Resolving,
    /// The step sequence is being advanced by one step.
    Stepping,
    /// A step was yielded and its frame bytes are being read.
    Reading,
    /// The session is over. No event changes that.
    Finished(SessionEnd),
}

/// What the thread that drives the session reports back.
#[derive(Debug, PartialEq, Eq)]
pub enum SessionEvent {
    /// The thread runs and holds the interpreter.
    Started,
    /// The script text ran to its end.
    ScriptExecuted,
    /// The script text raised an error.
    ScriptRaised,
    /// The entry object was found and handed out its step sequence.
    EntryResolved,
    /// There is no entry object, or it has no step sequence to hand out.
    EntryMissing,
    /// The step sequence yielded a step.
    Yielded,
    /// The step sequence has no further step.
    Exhausted,
    /// Advancing the step sequence raised an error.
    StepRaised,
    /// The raw bytes of the entry object's frame attribute.
    FrameRead(Vec<u8>),
    /// The frame attribute is missing or holds no bytes.
    FrameMissing,
}

/// What the thread that drives the session has to do next.
#[derive(Debug, PartialEq, Eq)]
pub enum SessionAction<T> {
    /// Execute the session's script text, then report `ScriptExecuted` or
    /// `ScriptRaised`.
    ExecuteScript,
    /// Resolve the entry object and ask it for its step sequence, then report
    /// `EntryResolved` or `EntryMissing`.
    ResolveEntry,
    /// Run the instruction, if there is one, inside the interpreter; after that
    /// advance the step sequence by one, then report `Yielded`, `Exhausted` or
    /// `StepRaised`.
    Advance(Option<T>),
    /// Read the frame attribute, then report `FrameRead` or `FrameMissing`.
    ReadFrame,
    /// Leave the loop and let the thread end.
    Exit(SessionEnd),
}

/// Number of bytes in the frame buffer that a script must expose.
pub open spec fn frame_len() -> int {
    rgba_len(FRAME_WIDTH as int, FRAME_HEIGHT as int)
}

/// The frame that the bytes of `event` make, if it brings bytes and they are as
/// many as a frame has.
pub open spec fn frame_of(event: SessionEvent) -> Option<FrameView> {
    match event {
        SessionEvent::FrameRead(bytes) => if bytes@.len() == frame_len() {
            Some(
                FrameView {
                    width: FRAME_WIDTH as nat,
                    height: FRAME_HEIGHT as nat,
                    pixels: bytes@,
                },
            )
        } else {
            None
        },
        _ => None,
    }
}

/// The phase that follows `phase` when `event` arrives.
pub open spec fn next_phase(phase: SessionPhase, event: SessionEvent) -> SessionPhase {
    match phase {
        SessionPhase::Finished(end) => SessionPhase::Finished(end),
        SessionPhase::Created => match event {
            SessionEvent::Started => SessionPhase::Loading,
            _ => SessionPhase::Finished(SessionEnd::OutOfTurn),
        },
        SessionPhase::Loading => match event {
            SessionEvent::ScriptExecuted => SessionPhase::Resolving,
            SessionEvent::ScriptRaised => SessionPhase::Finished(SessionEnd::ScriptFailed),
            _ => SessionPhase::Finished(SessionEnd::OutOfTurn),
        },
        SessionPhase::Resolving => match event {
            SessionEvent::EntryResolved => SessionPhase::Stepping,
            SessionEvent::EntryMissing => SessionPhase::Finished(SessionEnd::ContractBroken),
            _ => SessionPhase::Finished(SessionEnd::OutOfTurn),
        },
        SessionPhase::Stepping => match event {
            SessionEvent::Yielded => SessionPhase::Reading,
            SessionEvent::Exhausted => SessionPhase::Finished(SessionEnd::Exhausted),
            SessionEvent::StepRaised => SessionPhase::Finished(SessionEnd::StepFailed),
            _ => SessionPhase::Finished(SessionEnd::OutOfTurn),
        },
        SessionPhase::Reading => match event {
            SessionEvent::FrameRead(_) => if frame_of(event) is Some {
                SessionPhase::Stepping
            } else {
                SessionPhase::Finished(SessionEnd::ContractBroken)
            },
            SessionEvent::FrameMissing => SessionPhase::Finished(SessionEnd::ContractBroken),
            _ => SessionPhase::Finished(SessionEnd::OutOfTurn),
        },
    }
}

/// The frame that a session in `phase` publishes when `event` arrives: the one
/// that was read after a step was yielded, and no other.
pub open spec fn published(phase: SessionPhase, event: SessionEvent) -> Option<FrameView> {
    if phase is Reading {
        frame_of(event)
    } else {
        None
    }
}

/// What the slot holds after a step that found `slot` in it.
pub open spec fn slot_after_step(
    slot: Option<FrameView>,
    phase: SessionPhase,
    event: SessionEvent,
) -> Option<FrameView> {
    match published(phase, event) {
        Some(frame) => Some(frame),
        None => slot,
    }
}

/// What is pending after a step that found `pending` and led to `next`, in a
/// session that found `stale` instructions pending when it was created.
///
/// The first step of a session drops those `stale` instructions: they were
/// posted before the session existed and are not meant for it. What was posted
/// since then is behind them and stays. A step that begins an iteration of the
/// loop takes the head; a session that is over leaves nothing behind; any other
/// step leaves the queue alone.
pub open spec fn pending_after_step<T>(pending: Seq<T>, stale: nat, next: SessionPhase) -> Seq<T> {
    match next {
        SessionPhase::Loading => without_first(pending, stale),
        SessionPhase::Stepping => without_head(pending),
        SessionPhase::Finished(_) => Seq::empty(),
        _ => pending,
    }
}

/// What a step that found `pending` and led to `next` asks for.
pub open spec fn action_of<T>(pending: Seq<T>, next: SessionPhase) -> SessionAction<T> {
    match next {
        SessionPhase::Created | SessionPhase::Loading => SessionAction::ExecuteScript,
        SessionPhase::Resolving => SessionAction::ResolveEntry,
        SessionPhase::Stepping => SessionAction::Advance(head(pending)),
        SessionPhase::Reading => SessionAction::ReadFrame,
        SessionPhase::Finished(end) => SessionAction::Exit(end),
    }
}

/// Whether a session that ended this way failed. A failure is reported; a
/// sequence that ran out of steps is not.
pub open spec fn is_failure(end: SessionEnd) -> bool {
    !(end is Exhausted)
}

/// What is reported of a session that ended this way: a line for the log after a
/// failure, nothing otherwise.
pub open spec fn report_of(end: SessionEnd) -> Option<Seq<char>> {
    match end {
        SessionEnd::Exhausted => None,
        SessionEnd::ScriptFailed => Some("the script raised an error"@),
        SessionEnd::ContractBroken => Some(
            "the script does not provide a usable `game` object"@,
        ),
        SessionEnd::StepFailed => Some("advancing the game raised an error"@),
        SessionEnd::OutOfTurn => Some("the session was driven out of turn"@),
    }
}

impl SessionEnd {
    /// The line to write to the log: one after each failure, none after a
    /// sequence that ran out of steps.
    pub fn report(&self) -> (line: Option<&'static str>)
        ensures
            line is Some <==> is_failure(*self),
            match line {
                Some(line) => report_of(*self) == Some(line@),
                None => report_of(*self) is None,
            },
    {
        match self {
            SessionEnd::Exhausted => None,
            SessionEnd::ScriptFailed => Some("the script raised an error"),
            SessionEnd::ContractBroken => Some(
                "the script does not provide a usable `game` object",
            ),
            SessionEnd::StepFailed => Some("advancing the game raised an error"),
            SessionEnd::OutOfTurn => Some("the session was driven out of turn"),
        }
    }

    /// Whether the session ended by a failure, which is to be reported.
    pub fn is_failure(&self) -> (failed: bool)
        ensures
            failed == is_failure(*self),
    {
        match self {
            SessionEnd::Exhausted => false,
            _ => true,
        }
    }
}

/// The state of one run of a script.
#[derive(Debug)]
pub struct Session {
    script: String,
    phase: SessionPhase,
    stale: usize,
}

/// What a [`Session`] is: the script text it runs, the phase it is in, and how
/// many instructions were pending when it was created.
pub struct SessionView {
    pub script: Seq<char>,
    pub phase: SessionPhase,
    pub stale: nat,
}

impl View for Session {
    type V = SessionView;

    closed spec fn view(&self) -> SessionView {
        SessionView { script: self.script@, phase: self.phase, stale: self.stale as nat }
    }
}

impl Session {
    /// A session that will run `script`. Nothing has happened yet. `stale` says
    /// how many instructions are pending at this moment: they were posted before
    /// the session existed, and its first step drops them.
    pub fn new(script: &str, stale: usize) -> (session: Session)
        ensures
            session@.script == script@,
            session@.phase == SessionPhase::Created,
            session@.stale == stale,
    {
        Session { script: String::from_str(script), phase: SessionPhase::Created, stale }
    }

    /// How many instructions were pending when the session was created.
    pub fn stale(&self) -> (stale: usize)
        ensures
            stale == self@.stale,
    {
        self.stale
    }

    /// The script text the session runs.
    pub fn script(&self) -> (script: &str)
        ensures
            script@ == self@.script,
    {
        self.script.as_str()
    }

    /// The phase the session is in.
    pub fn phase(&self) -> (phase: SessionPhase)
        ensures
            phase == self@.phase,
    {
        self.phase
    }

    /// How the session ended, once it has.
    pub fn end(&self) -> (end: Option<SessionEnd>)
        ensures
            end == match self@.phase {
                SessionPhase::Finished(end) => Some(end),
                _ => None,
            },
    {
        match self.phase {
            SessionPhase::Finished(end) => Some(end),
            _ => None,
        }
    }

    /// Takes the session one step on: `event` is what came of the action that the
    /// step before asked for (`Started` for the first step).
    ///
    /// A frame that was read is published to `slot`. The first step drops the
    /// instructions that were pending when the session was created. A step that
    /// begins an iteration of the loop drains one instruction from `queue` and
    /// hands it out with the request to advance, so that the instruction runs
    /// before the advance. A step that ends the session drops what is still
    /// pending.
    pub fn step<T>(
        &mut self,
        event: SessionEvent,
        queue: &mut InstructionQueue<T>,
        slot: &mut FrameSlot,
    ) -> (action: SessionAction<T>)
        ensures
            final(self)@.phase == next_phase(old(self)@.phase, event),
            final(self)@.script == old(self)@.script,
            final(self)@.stale == old(self)@.stale,
            final(slot)@ == slot_after_step(old(slot)@, old(self)@.phase, event),
            final(queue)@ == pending_after_step(
                old(queue)@,
                old(self)@.stale,
                final(self)@.phase,
            ),
            action == action_of(old(queue)@, final(self)@.phase),
    {
        let next = match self.phase {
            SessionPhase::Finished(end) => SessionPhase::Finished(end),
            SessionPhase::Created => match event {
                SessionEvent::Started => SessionPhase::Loading,
                _ => SessionPhase::Finished(SessionEnd::OutOfTurn),
            },
            SessionPhase::Loading => match event {
                SessionEvent::ScriptExecuted => SessionPhase::Resolving,
                SessionEvent::ScriptRaised => SessionPhase::Finished(SessionEnd::ScriptFailed),
                _ => SessionPhase::Finished(SessionEnd::OutOfTurn),
            },
            SessionPhase::Resolving => match event {
                SessionEvent::EntryResolved => SessionPhase::Stepping,
                SessionEvent::EntryMissing => SessionPhase::Finished(SessionEnd::ContractBroken),
                _ => SessionPhase::Finished(SessionEnd::OutOfTurn),
            },
            SessionPhase::Stepping => match event {
                SessionEvent::Yielded => SessionPhase::Reading,
                SessionEvent::Exhausted => SessionPhase::Finished(SessionEnd::Exhausted),
                SessionEvent::StepRaised => SessionPhase::Finished(SessionEnd::StepFailed),
                _ => SessionPhase::Finished(SessionEnd::OutOfTurn),
            },
            SessionPhase::Reading => match event {
                SessionEvent::FrameRead(bytes) => match Frame::from_rgba(
                    FRAME_WIDTH,
                    FRAME_HEIGHT,
                    bytes,
                ) {
                    Some(frame) => {
                        slot.publish(frame);
                        SessionPhase::Stepping
                    },
                    None => SessionPhase::Finished(SessionEnd::ContractBroken),
                },
                SessionEvent::FrameMissing => SessionPhase::Finished(SessionEnd::ContractBroken),
                _ => SessionPhase::Finished(SessionEnd::OutOfTurn),
            },
        };
        self.phase = next;
        match next {
            SessionPhase::Created => SessionAction::ExecuteScript,
            SessionPhase::Loading => {
                queue.discard_first(self.stale);
                SessionAction::ExecuteScript
            },
            SessionPhase::Resolving => SessionAction::ResolveEntry,
            SessionPhase::Stepping => SessionAction::Advance(queue.drain_one()),
            SessionPhase::Reading => SessionAction::ReadFrame,
            SessionPhase::Finished(end) => {
                queue.discard_all();
                SessionAction::Exit(end)
            },
        }
    }
}

/// The instruction that `action` hands out for running, if it hands one out.
pub open spec fn instruction_of<T>(action: SessionAction<T>) -> Option<T> {
    match action {
        SessionAction::Advance(instruction) => instruction,
        _ => None,
    }
}

/// One thing that happens to a session and its queue, as the lock around the
/// queue orders them.
pub enum SessionCall<T> {
    /// Some thread posts this instruction.
    Post(T),
    /// The session thread takes a step with this event.
    Step(SessionEvent),
}

/// The instructions that the posts among `calls` brought, in call order.
pub open spec fn posted<T>(calls: Seq<SessionCall<T>>) -> Seq<T>
    decreases calls.len(),
{
    if calls.len() == 0 {
        Seq::empty()
    } else {
        match calls.last() {
            SessionCall::Post(instruction) => posted(calls.drop_last()).push(instruction),
            SessionCall::Step(_) => posted(calls.drop_last()),
        }
    }
}

/// The phase of a session that was in `phase` before `calls`.
pub open spec fn phase_through<T>(phase: SessionPhase, calls: Seq<SessionCall<T>>) -> SessionPhase
    decreases calls.len(),
{
    if calls.len() == 0 {
        phase
    } else {
        match calls.last() {
            SessionCall::Post(_) => phase_through(phase, calls.drop_last()),
            SessionCall::Step(event) => next_phase(phase_through(phase, calls.drop_last()), event),
        }
    }
}

/// What is pending after `calls`, for a session that was in `phase`, had found
/// `stale` instructions pending when it was created, and a queue that held
/// `pending` before the calls.
pub open spec fn pending_through<T>(
    stale: nat,
    phase: SessionPhase,
    pending: Seq<T>,
    calls: Seq<SessionCall<T>>,
) -> Seq<T>
    decreases calls.len(),
{
    if calls.len() == 0 {
        pending
    } else {
        let before = pending_through(stale, phase, pending, calls.drop_last());
        match calls.last() {
            SessionCall::Post(instruction) => before.push(instruction),
            SessionCall::Step(_) => pending_after_step(before, stale, phase_through(phase, calls)),
        }
    }
}

/// The first `count` of `pending`, or all of it where it holds no more than
/// that: what [`without_first`] leaves out.
pub open spec fn first_of<T>(pending: Seq<T>, count: nat) -> Seq<T> {
    if count <= pending.len() {
        pending.subrange(0, count as int)
    } else {
        pending
    }
}

/// The instructions that the first step of the session dropped because they
/// were older than the session, in the order in which they had been posted.
pub open spec fn dropped_as_stale<T>(
    stale: nat,
    phase: SessionPhase,
    pending: Seq<T>,
    calls: Seq<SessionCall<T>>,
) -> Seq<T>
    decreases calls.len(),
{
    if calls.len() == 0 {
        Seq::empty()
    } else {
        let earlier = dropped_as_stale(stale, phase, pending, calls.drop_last());
        match calls.last() {
            SessionCall::Post(_) => earlier,
            SessionCall::Step(_) => if phase_through(phase, calls) is Loading {
                earlier + first_of(pending_through(stale, phase, pending, calls.drop_last()), stale)
            } else {
                earlier
            },
        }
    }
}

/// The instructions that the steps among `calls` handed out for running, in
/// call order.
pub open spec fn handed_out<T>(
    stale: nat,
    phase: SessionPhase,
    pending: Seq<T>,
    calls: Seq<SessionCall<T>>,
) -> Seq<T>
    decreases calls.len(),
{
    if calls.len() == 0 {
        Seq::empty()
    } else {
        let earlier = handed_out(stale, phase, pending, calls.drop_last());
        match calls.last() {
            SessionCall::Post(_) => earlier,
            SessionCall::Step(_) => match instruction_of(
                action_of(
                    pending_through(stale, phase, pending, calls.drop_last()),
                    phase_through(phase, calls),
                ),
            ) {
                Some(instruction) => earlier.push(instruction),
                None => earlier,
            },
        }
    }
}

/// The instructions that the session dropped without running them because it
/// was over, in the order in which they had been posted.
pub open spec fn dropped_at_end<T>(
    stale: nat,
    phase: SessionPhase,
    pending: Seq<T>,
    calls: Seq<SessionCall<T>>,
) -> Seq<T>
    decreases calls.len(),
{
    if calls.len() == 0 {
        Seq::empty()
    } else {
        let earlier = dropped_at_end(stale, phase, pending, calls.drop_last());
        match calls.last() {
            SessionCall::Post(_) => earlier,
            SessionCall::Step(_) => if phase_through(phase, calls) is Finished {
                earlier + pending_through(stale, phase, pending, calls.drop_last())
            } else {
                earlier
            },
        }
    }
}

/// Instructions run in the order in which they were posted, each at most once.
/// However posts and steps interleave, the instructions that the session dropped
/// at its first step as older than itself, then those it handed out for running,
/// then those it dropped when it was over, then those still pending, are what
/// was pending at the start followed by what was posted, in that order.
///
/// A session that has not taken a step has dropped and handed out nothing; one
/// that is not over has dropped nothing at its end.
pub proof fn lemma_instructions_run_in_post_order<T>(
    stale: nat,
    phase: SessionPhase,
    pending: Seq<T>,
    calls: Seq<SessionCall<T>>,
)
    ensures
        dropped_as_stale(stale, phase, pending, calls) + handed_out(stale, phase, pending, calls)
            + dropped_at_end(stale, phase, pending, calls) + pending_through(
            stale,
            phase,
            pending,
            calls,
        ) == pending + posted(calls),
        phase_through(phase, calls) is Created ==> {
            &&& dropped_as_stale(stale, phase, pending, calls) == Seq::<T>::empty()
            &&& handed_out(stale, phase, pending, calls) == Seq::<T>::empty()
        },
        !(phase_through(phase, calls) is Finished) ==> dropped_at_end(stale, phase, pending, calls)
            == Seq::<T>::empty(),
    decreases calls.len(),
{
    let empty = Seq::<T>::empty();
    if calls.len() == 0 {
        assert(empty + empty + empty + pending =~= pending + empty);
    } else {
        let earlier = calls.drop_last();
        lemma_instructions_run_in_post_order(stale, phase, pending, earlier);
        let s = dropped_as_stale(stale, phase, pending, earlier);
        let h = handed_out(stale, phase, pending, earlier);
        let d = dropped_at_end(stale, phase, pending, earlier);
        let q = pending_through(stale, phase, pending, earlier);
        let e = posted(earlier);
        assert(s + h + d + q == pending + e);
        match calls.last() {
            SessionCall::Post(instruction) => {
                assert(s + h + d + q.push(instruction) =~= (s + h + d + q).push(instruction));
                assert(pending + e.push(instruction) =~= (pending + e).push(instruction));
            },
            SessionCall::Step(event) => {
                let before = phase_through(phase, earlier);
                let next = phase_through(phase, calls);
                assert(next == next_phase(before, event));
                match next {
                    SessionPhase::Loading => {
                        assert(before is Created);
                        assert((empty + first_of(q, stale)) + empty + empty + without_first(
                            q,
                            stale,
                        ) =~= empty + empty + empty + q);
                    },
                    SessionPhase::Stepping => {
                        assert(!(before is Finished));
                        if q.len() > 0 {
                            assert(s + h.push(q[0]) + empty + q.subrange(1, q.len() as int) =~= s
                                + h + empty + q);
                        }
                    },
                    SessionPhase::Finished(_) => {
                        assert(s + h + (d + q) + empty =~= s + h + d + q);
                    },
                    _ => {
                        assert(!(before is Finished));
                    },
                }
            },
        }
    }
}

/// A post that comes after the session was created is not lost to the drop of
/// the stale instructions: where `stale` instructions were pending at creation
/// and `later` was posted before the first step, that step leaves exactly
/// `later` pending.
pub proof fn lemma_first_step_keeps_later_posts<T>(stale: Seq<T>, later: Seq<T>)
    ensures
        pending_after_step(stale + later, stale.len(), SessionPhase::Loading) == later,
        first_of(stale + later, stale.len()) == stale,
{
    assert(without_first(stale + later, stale.len()) =~= later);
    assert(first_of(stale + later, stale.len()) =~= stale);
}

/// The phase of a session that was in `phase` and has since seen `events`.
pub open spec fn phase_after(phase: SessionPhase, events: Seq<SessionEvent>) -> SessionPhase
    decreases events.len(),
{
    if events.len() == 0 {
        phase
    } else {
        next_phase(phase_after(phase, events.drop_last()), events.last())
    }
}

/// What the slot holds after a session that was in `phase`, with `slot` in the
/// slot, has seen `events`.
pub open spec fn slot_after(
    slot: Option<FrameView>,
    phase: SessionPhase,
    events: Seq<SessionEvent>,
) -> Option<FrameView>
    decreases events.len(),
{
    if events.len() == 0 {
        slot
    } else {
        slot_after_step(
            slot_after(slot, phase, events.drop_last()),
            phase_after(phase, events.drop_last()),
            events.last(),
        )
    }
}

/// How many frames a session that was in `phase` publishes while it sees
/// `events`.
pub open spec fn frames_published(phase: SessionPhase, events: Seq<SessionEvent>) -> nat
    decreases events.len(),
{
    if events.len() == 0 {
        0
    } else {
        let earlier = frames_published(phase, events.drop_last());
        if published(phase_after(phase, events.drop_last()), events.last()) is Some {
            earlier + 1
        } else {
            earlier
        }
    }
}

/// What the thread reports while it runs a script that keeps the contract and
/// has so far yielded one step for each of `frames`, leaving these bytes in its
/// frame attribute.
pub open spec fn events_of_run(frames: Seq<Vec<u8>>) -> Seq<SessionEvent>
    decreases frames.len(),
{
    if frames.len() == 0 {
        seq![SessionEvent::Started, SessionEvent::ScriptExecuted, SessionEvent::EntryResolved]
    } else {
        events_of_run(frames.drop_last()).push(SessionEvent::Yielded).push(
            SessionEvent::FrameRead(frames.last()),
        )
    }
}

/// A session that is over stays over and publishes nothing more, whatever it is
/// told.
pub proof fn lemma_finished_is_final(
    end: SessionEnd,
    slot: Option<FrameView>,
    events: Seq<SessionEvent>,
)
    ensures
        phase_after(SessionPhase::Finished(end), events) == SessionPhase::Finished(end),
        frames_published(SessionPhase::Finished(end), events) == 0,
        slot_after(slot, SessionPhase::Finished(end), events) == slot,
    decreases events.len(),
{
    if events.len() > 0 {
        lemma_finished_is_final(end, slot, events.drop_last());
    }
}

/// A session that has started and executed its script is resolving the entry
/// object and has published nothing: after the first two events of three, the
/// slot holds what it held, and the third event meets the phase `Resolving`.
proof fn lemma_script_executed(slot: Option<FrameView>, events: Seq<SessionEvent>)
    requires
        events.len() == 3,
        events[0] == SessionEvent::Started,
        events[1] == SessionEvent::ScriptExecuted,
    ensures
        phase_after(SessionPhase::Created, events.drop_last()) == SessionPhase::Resolving,
        frames_published(SessionPhase::Created, events.drop_last()) == 0,
        slot_after(slot, SessionPhase::Created, events.drop_last()) == slot,
{
    let created = SessionPhase::Created;
    let two = events.drop_last();
    let one = two.drop_last();
    let none = one.drop_last();
    assert(none.len() == 0);
    assert(one.last() == events[0]);
    assert(two.last() == events[1]);
    assert(phase_after(created, none) == created);
    assert(phase_after(created, one) == SessionPhase::Loading);
    assert(frames_published(created, none) == 0);
    assert(frames_published(created, one) == 0);
    assert(slot_after(slot, created, none) == slot);
    assert(slot_after(slot, created, one) == slot);
}

/// A script without an entry object ends its session at once, with a failure,
/// and no frame is ever published: the slot holds what it held before, whatever
/// the thread reports after that.
pub proof fn lemma_missing_entry_publishes_nothing(
    slot: Option<FrameView>,
    events: Seq<SessionEvent>,
)
    requires
        events.len() >= 3,
        events[0] == SessionEvent::Started,
        events[1] == SessionEvent::ScriptExecuted,
        events[2] == SessionEvent::EntryMissing,
    ensures
        phase_after(SessionPhase::Created, events) == SessionPhase::Finished(
            SessionEnd::ContractBroken,
        ),
        is_failure(SessionEnd::ContractBroken),
        frames_published(SessionPhase::Created, events) == 0,
        slot_after(slot, SessionPhase::Created, events) == slot,
    decreases events.len(),
{
    let created = SessionPhase::Created;
    if events.len() == 3 {
        lemma_script_executed(slot, events);
    } else {
        lemma_missing_entry_publishes_nothing(slot, events.drop_last());
    }
}

/// While a script that keeps the contract runs, the session waits for the next
/// step, has published one frame for each step yielded so far, and the slot
/// holds the newest of them.
pub proof fn lemma_run_publishes_each_frame(slot: Option<FrameView>, frames: Seq<Vec<u8>>)
    requires
        forall|i: int| 0 <= i < frames.len() ==> (#[trigger] frames[i])@.len() == frame_len(),
    ensures
        phase_after(SessionPhase::Created, events_of_run(frames)) == SessionPhase::Stepping,
        frames_published(SessionPhase::Created, events_of_run(frames)) == frames.len(),
        slot_after(slot, SessionPhase::Created, events_of_run(frames)) == if frames.len() == 0 {
            slot
        } else {
            frame_of(SessionEvent::FrameRead(frames.last()))
        },
        frames.len() > 0 ==> frame_of(SessionEvent::FrameRead(frames.last())) is Some,
    decreases frames.len(),
{
    let created = SessionPhase::Created;
    let events = events_of_run(frames);
    if frames.len() == 0 {
        lemma_script_executed(slot, events);
    } else {
        let earlier = events_of_run(frames.drop_last());
        lemma_run_publishes_each_frame(slot, frames.drop_last());
        let yielded = earlier.push(SessionEvent::Yielded);
        assert(events.drop_last() == yielded);
        assert(yielded.drop_last() == earlier);
        assert(phase_after(created, yielded) == SessionPhase::Reading);
        assert(frames_published(created, yielded) == frames.len() - 1);
        assert(frames.last() == frames[frames.len() - 1]);
    }
}

/// A script whose step sequence yields `frames.len()` steps and is then
/// exhausted has exactly that many frames published, and its session ends
/// without a failure.
pub proof fn lemma_exhausted_run_publishes_each_frame(
    slot: Option<FrameView>,
    frames: Seq<Vec<u8>>,
)
    requires
        forall|i: int| 0 <= i < frames.len() ==> (#[trigger] frames[i])@.len() == frame_len(),
    ensures
        phase_after(
            SessionPhase::Created,
            events_of_run(frames).push(SessionEvent::Exhausted),
        ) == SessionPhase::Finished(SessionEnd::Exhausted),
        !is_failure(SessionEnd::Exhausted),
        frames_published(
            SessionPhase::Created,
            events_of_run(frames).push(SessionEvent::Exhausted),
        ) == frames.len(),
{
    lemma_run_publishes_each_frame(slot, frames);
    let events = events_of_run(frames).push(SessionEvent::Exhausted);
    assert(events.drop_last() == events_of_run(frames));
}

} // verus!
