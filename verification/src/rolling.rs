//! The rolling writer: what it does, step by step, when something is to be
//! written. It decides; whoever holds the writers flushes, opens and writes,
//! and tells how that went.

use crate::calendar::Timestamp;
use crate::checker::{Checker, WriterPlan};
use crate::period::Period;
use vstd::prelude::*;

verus! {

/// What could not be done for a rotation.
#[derive(Clone, Copy, Debug, PartialEq, Eq, Structural)]
pub enum Fault {
    /// The writer in use could not be flushed.
    Flush,
    /// The next writer could not be opened.
    Open,
}

/// How far a rotation has come.
#[derive(Clone, Copy, Debug, PartialEq, Eq, Structural)]
pub enum Phase {
    /// No rotation is under way.
    Idle,
    /// The writer in use is being flushed for a rotation at this moment.
    Flushing(Timestamp),
    /// The next writer is being opened.
    Opening,
}

/// What happened outside.
#[derive(Clone, Copy, Debug, PartialEq, Eq, Structural)]
pub enum Event {
    /// Something is to be written at this moment.
    Write(Timestamp),
    /// The writer in use was flushed, or could not be.
    Flushed(bool),
    /// The next writer was opened, or could not be.
    Opened(bool),
}

/// What is to be done outside.
#[derive(Debug)]
pub enum Action {
    /// Write to the writer in use.
    Write,
    /// Flush the writer in use, and tell how it went.
    Flush,
    /// Open this writer as its plan says and keep it aside, and tell how
    /// it went.
    Open(WriterPlan),
    /// Put the writer that was opened in the place of the one in use, then
    /// write to it.
    Swap,
    /// Report the fault at the side, then write to the writer in use.
    Abandon(Fault),
}

/// What an [`Action`] stands for.
pub enum Task {
    Write,
    Flush,
    Open(Seq<u8>, Seq<usize>),
    Swap,
    Abandon(Fault),
}

impl View for Action {
    type V = Task;

    open spec fn view(&self) -> Task {
        match self {
            Action::Write => Task::Write,
            Action::Flush => Task::Flush,
            Action::Open(plan) => Task::Open(plan.path@, plan.buffers@),
            Action::Swap => Task::Swap,
            Action::Abandon(fault) => Task::Abandon(*fault),
        }
    }
}

/// A writer that moves on to a new file when its checker says so.
#[derive(Debug)]
pub struct Rolling<C> {
    checker: C,
    phase: Phase,
    current: Vec<u8>,
    pending: Vec<u8>,
    owed: bool,
}

impl<C> Rolling<C> {
    /// The checker that says when a writer is due.
    pub closed spec fn checker(&self) -> C {
        self.checker
    }

    /// How far the rotation under way has come.
    pub closed spec fn phase(&self) -> Phase {
        self.phase
    }

    /// The path of the writer in use.
    pub closed spec fn current(&self) -> Seq<u8> {
        self.current@
    }

    /// The path of the writer that is being opened.
    pub closed spec fn pending(&self) -> Seq<u8> {
        self.pending@
    }

    /// Whether a rotation failed and is still to be made up for.
    pub closed spec fn owed(&self) -> bool {
        self.owed
    }

    /// The path of the writer in use.
    pub fn in_use(&self) -> (path: &[u8])
        ensures
            path@ == self.current(),
    {
        self.current.as_slice()
    }

    /// A writer that has the file at `current` in use.
    pub fn new(checker: C, current: Vec<u8>) -> (made: Rolling<C>)
        ensures
            made.checker() == checker,
            made.phase() == Phase::Idle,
            made.current() == current@,
            !made.owed(),
    {
        Rolling { checker, phase: Phase::Idle, current, pending: Vec::new(), owed: false }
    }
}

impl<C: Checker> Rolling<C> {
    /// The checker is well formed, and so is the moment of a rotation that
    /// is under way.
    pub open spec fn wf(&self) -> bool {
        &&& self.checker().wf()
        &&& self.phase() matches Phase::Flushing(now) ==> now.wf()
    }

    /// What `event` makes of the writer, and what is to be done then.
    ///
    /// Something to write starts a rotation where the checker says that one
    /// is due, or one is owed. A rotation flushes the writer in use, opens
    /// the next one and swaps the two. Where the flush or the opening
    /// fails, the rotation is given up and stays owed, and the writer in
    /// use stays in use. An event out of turn changes nothing.
    pub open spec fn steps(&self, event: Event, after: &Self, task: Task) -> bool {
        match (self.phase(), event) {
            (Phase::Idle, Event::Write(now)) => if self.owed() || self.checker().due(now) {
                &&& task == Task::Flush
                &&& after.phase() == Phase::Flushing(now)
                &&& after.checker() == self.checker()
                &&& after.current() == self.current()
                &&& after.pending() == self.pending()
                &&& after.owed() == self.owed()
            } else {
                task == Task::Write && *after == *self
            },
            (Phase::Flushing(now), Event::Flushed(true)) => {
                &&& task == Task::Open(self.checker().path_at(now), self.checker().buffers())
                &&& self.checker().opens(now, &after.checker())
                &&& after.phase() == Phase::Opening
                &&& after.pending() == self.checker().path_at(now)
                &&& after.current() == self.current()
                &&& after.owed() == self.owed()
            },
            (Phase::Flushing(_), Event::Flushed(false)) => {
                &&& task == Task::Abandon(Fault::Flush)
                &&& after.phase() == Phase::Idle
                &&& after.checker() == self.checker()
                &&& after.current() == self.current()
                &&& after.pending() == self.pending()
                &&& after.owed()
            },
            (Phase::Opening, Event::Opened(true)) => {
                &&& task == Task::Swap
                &&& after.phase() == Phase::Idle
                &&& after.checker() == self.checker()
                &&& after.current() == self.pending()
                &&& after.pending() == Seq::<u8>::empty()
                &&& !after.owed()
            },
            (Phase::Opening, Event::Opened(false)) => {
                &&& task == Task::Abandon(Fault::Open)
                &&& after.phase() == Phase::Idle
                &&& after.checker() == self.checker()
                &&& after.current() == self.current()
                &&& after.pending() == self.pending()
                &&& after.owed()
            },
            _ => task == Task::Write && *after == *self,
        }
    }

    /// Takes `event` in, and says what is to be done.
    pub fn step(&mut self, event: Event) -> (action: Action)
        requires
            old(self).wf(),
            event matches Event::Write(now) ==> now.wf(),
        ensures
            final(self).wf(),
            old(self).steps(event, final(self), action@),
            action matches Action::Open(plan) ==> plan.appends(),
    {
        match (self.phase, event) {
            (Phase::Idle, Event::Write(now)) => {
                if self.owed || self.checker.should_rotate(&now) {
                    self.phase = Phase::Flushing(now);
                    Action::Flush
                } else {
                    Action::Write
                }
            },
            (Phase::Flushing(now), Event::Flushed(true)) => {
                let plan = self.checker.writer_at(&now);
                self.pending = plan.path.clone();
                self.phase = Phase::Opening;
                Action::Open(plan)
            },
            (Phase::Flushing(_), Event::Flushed(false)) => {
                self.phase = Phase::Idle;
                self.owed = true;
                Action::Abandon(Fault::Flush)
            },
            (Phase::Opening, Event::Opened(true)) => {
                let mut opened = Vec::new();
                std::mem::swap(&mut self.pending, &mut opened);
                self.current = opened;
                self.phase = Phase::Idle;
                self.owed = false;
                Action::Swap
            },
            (Phase::Opening, Event::Opened(false)) => {
                self.phase = Phase::Idle;
                self.owed = true;
                Action::Abandon(Fault::Open)
            },
            _ => Action::Write,
        }
    }

    /// Says what is to be done now that something is to be written: what
    /// [`Rolling::step`] says of a write at the moment that the clock
    /// shows. Without a moment it is to be written to the writer in use.
    pub fn make_writer(&mut self) -> (action: Action)
        requires
            old(self).wf(),
        ensures
            final(self).wf(),
            (action@ == Task::Write && *final(self) == *old(self)) || exists|now: Timestamp|
                now.wf() && #[trigger] old(self).steps(Event::Write(now), final(self), action@),
            action matches Action::Open(plan) ==> plan.appends(),
    {
        match self.checker.now() {
            Some(now) => self.step(Event::Write(now)),
            None => Action::Write,
        }
    }
}

impl Task {
    /// Whether the task ends with the write itself: to the writer in use,
    /// as it is or after a swap or a report.
    pub open spec fn writes(self) -> bool {
        self is Write || self is Swap || self is Abandon
    }
}

/// What is to be written is written after three answers at most, to one
/// writer, and the rolling writer is idle again: the write is asked for at
/// once, or after the flush failed, or after the next writer was opened or
/// could not be.
pub proof fn lemma_write_settles<C: Checker>(
    idle: Rolling<C>,
    now: Timestamp,
    first: Rolling<C>,
    asked: Task,
    flushed: bool,
    second: Rolling<C>,
    then: Task,
    opened: bool,
    third: Rolling<C>,
    last: Task,
)
    requires
        idle.phase() == Phase::Idle,
        idle.steps(Event::Write(now), &first, asked),
        first.steps(Event::Flushed(flushed), &second, then),
        second.steps(Event::Opened(opened), &third, last),
    ensures
        asked.writes() ==> first.phase() == Phase::Idle,
        !asked.writes() ==> asked == Task::Flush,
        !asked.writes() && then.writes() ==> second.phase() == Phase::Idle,
        !asked.writes() && !then.writes() ==> then is Open && last.writes() && third.phase()
            == Phase::Idle,
{
}

/// Nothing but a writer that was opened takes the place of the one in use:
/// where a swap is to be made, the next writer was being opened and the
/// opening went well, and its path is the path in use from then on.
pub proof fn lemma_swap_follows_opening<C: Checker>(
    before: Rolling<C>,
    event: Event,
    after: Rolling<C>,
    task: Task,
)
    requires
        before.steps(event, &after, task),
    ensures
        task == Task::Swap <==> before.phase() == Phase::Opening && event == Event::Opened(true),
        task == Task::Swap ==> after.current() == before.pending(),
        task != Task::Swap ==> after.current() == before.current(),
{
}

/// No writer is opened in the place of one that was not flushed: the next
/// writer is being opened only after the writer in use was flushed for the
/// rotation, and the flush went well.
pub proof fn lemma_opening_follows_flush<C: Checker>(
    before: Rolling<C>,
    event: Event,
    after: Rolling<C>,
    task: Task,
)
    requires
        before.steps(event, &after, task),
    ensures
        task is Open <==> before.phase() is Flushing && event == Event::Flushed(true),
        after.phase() == Phase::Opening ==> before.phase() == Phase::Opening || task is Open,
{
}

/// A rotation that fails leaves the writer in use where it is, whichever
/// part of it failed, and the next thing to write starts the rotation again.
pub proof fn lemma_failure_keeps_writer<C: Checker>(
    before: Rolling<C>,
    event: Event,
    after: Rolling<C>,
    task: Task,
    now: Timestamp,
    next: Rolling<C>,
    then: Task,
)
    requires
        (before.phase() is Flushing && event == Event::Flushed(false)) || (before.phase()
            == Phase::Opening && event == Event::Opened(false)),
        before.steps(event, &after, task),
        after.steps(Event::Write(now), &next, then),
    ensures
        task is Abandon,
        after.current() == before.current(),
        after.phase() == Phase::Idle,
        then == Task::Flush,
        next.current() == before.current(),
{
}

/// The writer of a period that has just moved on to the file for `now`
/// asks for no rotation at `now`, and for one at every moment that is at
/// least the threshold later.
pub proof fn lemma_rotated_then_due<P: Period>(
    flushed: Rolling<P>,
    opening: Rolling<P>,
    open: Task,
    rotated: Rolling<P>,
    swap: Task,
    now: Timestamp,
    later: Timestamp,
    next: Rolling<P>,
    then: Task,
)
    requires
        flushed.wf(),
        later.wf(),
        flushed.phase() == Phase::Flushing(now),
        flushed.steps(Event::Flushed(true), &opening, open),
        opening.steps(Event::Opened(true), &rotated, swap),
        rotated.steps(Event::Write(later), &next, then),
    ensures
        later == now ==> then == Task::Write,
        later.instant() - now.instant() >= rotated.checker().threshold() ==> then == Task::Flush,
{
    let before = flushed.checker();
    let after = opening.checker();
    before.lemma_opened_not_due(now, &after);
    if later.instant() - now.instant() >= after.threshold() {
        before.lemma_due_after_threshold(now, &after, later);
    }
}

} // verus!
