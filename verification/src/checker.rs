//! Checkers: what decides when a log file is due for a successor, and what
//! is opened in its place.

use crate::calendar::Timestamp;
use crate::period::{is_due, Period};
use crate::rolling::{Phase, Rolling};
use vstd::prelude::*;
use vstd::slice::slice_to_vec;

verus! {

/// The capacity of a buffer where none is asked for.
pub const DEFAULT_BUFFER: usize = 4096;

/// A writer to open: a file behind buffers.
#[derive(Clone, Debug, PartialEq, Eq)]
pub struct WriterPlan {
    /// The path of the file.
    pub path: Vec<u8>,
    /// Whether what is written goes to the end of what the file holds.
    pub append: bool,
    /// Whether the file is created if it is not there.
    pub create: bool,
    /// The capacities of the buffers before the file, the one next to the
    /// file first. What is written goes through the last one first.
    pub buffers: Vec<usize>,
}

impl WriterPlan {
    /// The plan of a log file: it is created if it is not there and never
    /// truncated, so that a second start in the same period goes on where
    /// the first one stopped.
    pub open spec fn appends(&self) -> bool {
        self.append && self.create
    }

    /// The plan of the log file at `path`, without a buffer.
    pub fn log_file(path: Vec<u8>) -> (plan: WriterPlan)
        ensures
            plan.path == path,
            plan.appends(),
            plan.buffers@ == Seq::<usize>::empty(),
    {
        WriterPlan { path, append: true, create: true, buffers: Vec::new() }
    }
}

/// What a rolling writer asks of its policy.
pub trait Checker: Sized {
    spec fn wf(&self) -> bool;

    /// Whether the writer in use is due for a successor at `now`.
    spec fn due(&self, now: Timestamp) -> bool;

    /// The path of the file that is opened at `now`.
    spec fn path_at(&self, now: Timestamp) -> Seq<u8>;

    /// The capacities of the buffers before the file, the one next to the
    /// file first.
    spec fn buffers(&self) -> Seq<usize>;

    /// What opening a writer at `now` makes of the checker.
    spec fn opens(&self, now: Timestamp, after: &Self) -> bool;

    /// Whether the writer in use is due for a successor at `now`.
    fn should_rotate(&self, now: &Timestamp) -> (due: bool)
        requires
            self.wf(),
            now.wf(),
        ensures
            due == self.due(*now),
    ;

    /// The moment that the clock shows, `None` where the checker reads no
    /// clock or the clock shows no moment that a file name can carry.
    fn now(&self) -> (now: Option<Timestamp>)
        requires
            self.wf(),
        ensures
            now matches Some(moment) ==> moment.wf(),
    ;

    /// The writer to open at `now`, which is the writer in use from here on.
    fn writer_at(&mut self, now: &Timestamp) -> (plan: WriterPlan)
        requires
            old(self).wf(),
            now.wf(),
        ensures
            final(self).wf(),
            plan.path@ == old(self).path_at(*now),
            plan.buffers@ == old(self).buffers(),
            plan.appends(),
            old(self).opens(*now, final(self)),
    ;

    /// Whether the writer in use is due for a successor at the moment that
    /// the clock shows. Without a moment nothing is due.
    fn should_update(&self) -> (due: bool)
        requires
            self.wf(),
        ensures
            due ==> exists|now: Timestamp| now.wf() && #[trigger] self.due(now),
    {
        match self.now() {
            Some(now) => self.should_rotate(&now),
            None => false,
        }
    }

    /// The writer to open at the moment that the clock shows, which is the
    /// writer in use from here on. Without a moment there is none, and
    /// nothing changes.
    fn new_writer(&mut self) -> (plan: Option<WriterPlan>)
        requires
            old(self).wf(),
        ensures
            final(self).wf(),
            match plan {
                Some(plan) => exists|now: Timestamp|
                    {
                        &&& now.wf()
                        &&& plan.path@ == old(self).path_at(now)
                        &&& plan.buffers@ == old(self).buffers()
                        &&& plan.appends()
                        &&& #[trigger] old(self).opens(now, final(self))
                    },
                None => *final(self) == *old(self),
            },
    {
        match self.now() {
            Some(now) => Some(self.writer_at(&now)),
            None => None,
        }
    }

    /// A buffer of the default capacity before what the checker opens.
    fn buffered(self) -> (made: Buffered<Self>)
        ensures
            made.inner() == self,
            made.capacity() == DEFAULT_BUFFER,
    {
        Buffered::new(self, DEFAULT_BUFFER)
    }

    /// A buffer of `size` bytes before what the checker opens.
    fn buffer_with(self, size: usize) -> (made: Buffered<Self>)
        ensures
            made.inner() == self,
            made.capacity() == size,
    {
        Buffered::new(self, size)
    }

    /// The rolling writer of the checker, with the first writer to open: the
    /// one for `now`, which the rolling writer takes to be in use.
    fn build_at(self, now: &Timestamp) -> (made: (Rolling<Self>, WriterPlan))
        requires
            self.wf(),
            now.wf(),
        ensures
            made.1.path@ == self.path_at(*now),
            made.1.buffers@ == self.buffers(),
            made.1.appends(),
            self.opens(*now, &made.0.checker()),
            made.0.checker().wf(),
            made.0.phase() == Phase::Idle,
            made.0.current() == made.1.path@,
            !made.0.owed(),
    {
        let mut checker = self;
        let plan = checker.writer_at(now);
        (Rolling::new(checker, plan.path.clone()), plan)
    }

    /// The rolling writer of the checker, with the first writer to open: the
    /// one for the moment that the clock shows. Without a moment there is
    /// none.
    fn build(self) -> (made: Option<(Rolling<Self>, WriterPlan)>)
        requires
            self.wf(),
        ensures
            made matches Some((rolling, plan)) ==> {
                &&& plan.buffers@ == self.buffers()
                &&& plan.appends()
                &&& rolling.checker().wf()
                &&& rolling.phase() == Phase::Idle
                &&& rolling.current() == plan.path@
                &&& !rolling.owed()
                &&& exists|now: Timestamp|
                    now.wf() && plan.path@ == self.path_at(now) && #[trigger] self.opens(
                        now,
                        &rolling.checker(),
                    )
            },
    {
        let mut checker = self;
        match checker.new_writer() {
            Some(plan) => Some((Rolling::new(checker, plan.path.clone()), plan)),
            None => None,
        }
    }
}

impl<P: Period> Checker for P {
    open spec fn wf(&self) -> bool {
        Period::wf(self)
    }

    open spec fn due(&self, now: Timestamp) -> bool {
        is_due(self, now)
    }

    open spec fn path_at(&self, now: Timestamp) -> Seq<u8> {
        Period::path_at(self, now)
    }

    open spec fn buffers(&self) -> Seq<usize> {
        Seq::empty()
    }

    open spec fn opens(&self, now: Timestamp, after: &Self) -> bool {
        Period::opens(self, now, after)
    }

    fn should_rotate(&self, now: &Timestamp) -> (due: bool) {
        match self.previous_dt() {
            Ok(start) => now.seconds_since(&start) >= self.duration(),
            Err(_) => false,
        }
    }

    fn now(&self) -> (now: Option<Timestamp>) {
        Period::now(self)
    }

    fn writer_at(&mut self, now: &Timestamp) -> (plan: WriterPlan) {
        WriterPlan::log_file(self.open_new(now))
    }
}

/// A checker whose writers have one buffer more than those of the checker
/// in it. When a writer is due is for the checker in it to say.
#[derive(Debug)]
pub struct Buffered<C> {
    checker: C,
    size: usize,
}

impl<C> Buffered<C> {
    /// The checker that decides.
    pub closed spec fn inner(&self) -> C {
        self.checker
    }

    /// The capacity of the buffer, in bytes.
    pub closed spec fn capacity(&self) -> usize {
        self.size
    }

    /// A buffer of `size` bytes before what `checker` opens.
    pub fn new(checker: C, size: usize) -> (made: Buffered<C>)
        ensures
            made.inner() == checker,
            made.capacity() == size,
    {
        Buffered { checker, size }
    }
}

impl<C: Checker> Checker for Buffered<C> {
    open spec fn wf(&self) -> bool {
        self.inner().wf()
    }

    open spec fn due(&self, now: Timestamp) -> bool {
        self.inner().due(now)
    }

    open spec fn path_at(&self, now: Timestamp) -> Seq<u8> {
        self.inner().path_at(now)
    }

    open spec fn buffers(&self) -> Seq<usize> {
        self.inner().buffers().push(self.capacity())
    }

    open spec fn opens(&self, now: Timestamp, after: &Self) -> bool {
        self.inner().opens(now, &after.inner()) && after.capacity() == self.capacity()
    }

    fn should_rotate(&self, now: &Timestamp) -> (due: bool) {
        self.checker.should_rotate(now)
    }

    fn now(&self) -> (now: Option<Timestamp>) {
        self.checker.now()
    }

    fn writer_at(&mut self, now: &Timestamp) -> (plan: WriterPlan) {
        let mut plan = self.checker.writer_at(now);
        plan.buffers.push(self.size);
        plan
    }
}

/// A file that is never rotated.
#[derive(Debug)]
pub struct ConstFile(Vec<u8>);

impl ConstFile {
    /// The path of the file.
    pub closed spec fn path(&self) -> Seq<u8> {
        self.0@
    }

    /// The file at `path`.
    pub fn new(path: &[u8]) -> (file: ConstFile)
        ensures
            file.path() == path@,
    {
        ConstFile(slice_to_vec(path))
    }
}

impl Checker for ConstFile {
    open spec fn wf(&self) -> bool {
        true
    }

    open spec fn due(&self, now: Timestamp) -> bool {
        false
    }

    open spec fn path_at(&self, now: Timestamp) -> Seq<u8> {
        self.path()
    }

    open spec fn buffers(&self) -> Seq<usize> {
        Seq::empty()
    }

    open spec fn opens(&self, now: Timestamp, after: &Self) -> bool {
        after.path() == self.path()
    }

    fn should_rotate(&self, now: &Timestamp) -> (due: bool) {
        false
    }

    /// The file asks no clock.
    fn now(&self) -> (now: Option<Timestamp>) {
        None
    }

    fn writer_at(&mut self, now: &Timestamp) -> (plan: WriterPlan) {
        WriterPlan::log_file(self.0.clone())
    }

    /// The file itself, whatever the time.
    fn new_writer(&mut self) -> (plan: Option<WriterPlan>)
        ensures
            plan is Some,
    {
        let plan = WriterPlan::log_file(self.0.clone());
        proof {
            let now = Timestamp { year: 1970, month: 1, day: 1, hour: 0, minute: 0, second: 0 };
            assert(now.wf());
            assert(self.opens(now, self));
        }
        Some(plan)
    }

    /// The rolling writer of the file, with the file as the writer to open.
    fn build(self) -> (made: Option<(Rolling<Self>, WriterPlan)>)
        ensures
            made is Some,
    {
        let plan = WriterPlan::log_file(self.0.clone());
        proof {
            let now = Timestamp { year: 1970, month: 1, day: 1, hour: 0, minute: 0, second: 0 };
            assert(now.wf());
            assert(self.opens(now, &self));
        }
        Some((Rolling::new(self, plan.path.clone()), plan))
    }
}

} // verus!
