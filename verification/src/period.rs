//! Periods: the three policies by granularity, and what a policy of one's
//! own has to provide.

use crate::calendar::Timestamp;
use crate::layout::description;
use crate::policy::{
    configured, ensure_fields, first_fault, lemma_due_after_threshold, lemma_opened_not_due,
    ConfigError, Granularity, PeriodError, RotationPolicy,
};
use crate::template::{count, segments_of, Field, Item};
use vstd::prelude::*;

verus! {

/// A policy by its four questions: when the active file was opened, what
/// time it is, what the next file is called, and how long a file lasts.
pub trait Period: Sized {
    spec fn wf(&self) -> bool;

    /// When the active file was opened, as far as its name tells.
    spec fn previous(&self) -> Result<Timestamp, PeriodError>;

    /// The seconds after which a file is due for a successor.
    spec fn threshold(&self) -> int;

    /// The path of the file that is opened at `now`.
    spec fn path_at(&self, now: Timestamp) -> Seq<u8>;

    /// What opening a file at `now` makes of the period.
    spec fn opens(&self, now: Timestamp, after: &Self) -> bool;

    /// A file is not due at the moment it was opened.
    proof fn lemma_opened_not_due(&self, now: Timestamp, after: &Self)
        requires
            self.wf(),
            now.wf(),
            self.opens(now, after),
        ensures
            after.previous() matches Ok(start) ==> now.instant() - start.instant()
                < after.threshold(),
    ;

    /// A file is due once the threshold has passed since it was opened.
    proof fn lemma_due_after_threshold(&self, now: Timestamp, after: &Self, later: Timestamp)
        requires
            self.wf(),
            now.wf(),
            later.wf(),
            self.opens(now, after),
            later.instant() - now.instant() >= after.threshold(),
        ensures
            after.previous() matches Ok(start) && later.instant() - start.instant()
                >= after.threshold(),
    ;

    /// When the active file was opened, read from its name.
    fn previous_dt(&self) -> (found: Result<Timestamp, PeriodError>)
        requires
            self.wf(),
        ensures
            found == self.previous(),
            found matches Ok(start) ==> start.wf(),
    ;

    /// The moment that the clock shows, `None` where it shows none that a
    /// file name can carry.
    fn now(&self) -> (now: Option<Timestamp>)
        requires
            self.wf(),
        ensures
            now matches Some(moment) ==> moment.wf(),
    ;

    /// The path of the file for `now`, which is the active file from here on.
    fn open_new(&mut self, now: &Timestamp) -> (path: Vec<u8>)
        requires
            old(self).wf(),
            now.wf(),
        ensures
            final(self).wf(),
            path@ == old(self).path_at(*now),
            old(self).opens(*now, final(self)),
    ;

    /// The seconds after which a file is due for a successor.
    fn duration(&self) -> (seconds: i64)
        requires
            self.wf(),
        ensures
            seconds == self.threshold(),
    ;

    /// The path of the file for the moment that the clock shows, which is
    /// the active file from here on. Without a moment nothing changes.
    fn new_path(&mut self) -> (path: Option<Vec<u8>>)
        requires
            old(self).wf(),
        ensures
            final(self).wf(),
            match path {
                Some(opened) => exists|now: Timestamp|
                    now.wf() && opened@ == old(self).path_at(now) && #[trigger] old(self).opens(
                        now,
                        final(self),
                    ),
                None => *final(self) == *old(self),
            },
    {
        match self.now() {
            Some(now) => Some(self.open_new(&now)),
            None => None,
        }
    }
}

/// Whether the active file of `period` is due for a successor at `now`: it
/// was opened at least a threshold ago. With no active file, or one whose
/// name does not tell, nothing is due.
pub open spec fn is_due<P: Period>(period: &P, now: Timestamp) -> bool {
    match period.previous() {
        Ok(start) => now.instant() - start.instant() >= period.threshold(),
        Err(_) => false,
    }
}

/// A file for every minute.
#[derive(Debug)]
pub struct Minute {
    policy: RotationPolicy,
}

impl Minute {
    /// The seconds that a file lasts.
    pub const DURATION: i64 = 60;

    /// The policy that the period follows.
    pub closed spec fn policy(&self) -> RotationPolicy {
        self.policy
    }

    /// The files that take the place of `path`, as
    /// `app-2023-03-23-23-59.log` for `app.log`. Without an offset the clock is
    /// read in UTC.
    pub fn new(path: &[u8], offset: Option<i32>) -> (made: Result<Minute, ConfigError>)
        ensures
            match configured(
                Granularity::Minute,
                description(
                    path@,
                    Granularity::Minute.pattern(),
                ),
                match offset {
                    Some(seconds) => seconds as int,
                    None => 0,
                },
            ) {
                Ok(segments) => {
                    &&& made is Ok
                    &&& made->Ok_0.wf()
                    &&& made->Ok_0.policy().segments() == segments
                    &&& made->Ok_0.policy().active() is None
                    &&& made->Ok_0.policy().offset() == match offset {
                        Some(seconds) => seconds as int,
                        None => 0,
                    }
                },
                Err(error) => made == Err::<Minute, ConfigError>(error),
            },
    {
        match RotationPolicy::new(Granularity::Minute, path, None, offset) {
            Ok(policy) => Ok(Minute { policy }),
            Err(error) => Err(error),
        }
    }
}

impl Period for Minute {
    open spec fn wf(&self) -> bool {
        self.policy().wf() && self.policy().granularity() == Granularity::Minute
    }

    open spec fn previous(&self) -> Result<Timestamp, PeriodError> {
        self.policy().previous()
    }

    open spec fn threshold(&self) -> int {
        60
    }

    open spec fn path_at(&self, now: Timestamp) -> Seq<u8> {
        self.policy().path_at(now)
    }

    open spec fn opens(&self, now: Timestamp, after: &Self) -> bool {
        self.policy().opens(now, &after.policy()) && after.wf()
    }

    proof fn lemma_opened_not_due(&self, now: Timestamp, after: &Self) {
        lemma_opened_not_due(after.policy(), now);
    }

    proof fn lemma_due_after_threshold(&self, now: Timestamp, after: &Self, later: Timestamp) {
        lemma_due_after_threshold(after.policy(), now, later);
    }

    fn previous_dt(&self) -> (found: Result<Timestamp, PeriodError>) {
        self.policy.previous_dt()
    }

    fn now(&self) -> (now: Option<Timestamp>) {
        self.policy.now()
    }

    fn open_new(&mut self, now: &Timestamp) -> (path: Vec<u8>) {
        self.policy.open_new(now)
    }

    fn duration(&self) -> (seconds: i64) {
        Self::DURATION
    }
}

/// A file for every hour.
#[derive(Debug)]
pub struct Hourly {
    policy: RotationPolicy,
}

impl Hourly {
    /// The seconds that a file lasts.
    pub const DURATION: i64 = 3600;

    /// The policy that the period follows.
    pub closed spec fn policy(&self) -> RotationPolicy {
        self.policy
    }

    /// The files that take the place of `path`, as
    /// `app-2023-03-23-23.log` for `app.log`. Without an offset the clock is
    /// read in UTC.
    pub fn new(path: &[u8], offset: Option<i32>) -> (made: Result<Hourly, ConfigError>)
        ensures
            match configured(
                Granularity::Hour,
                description(
                    path@,
                    Granularity::Hour.pattern(),
                ),
                match offset {
                    Some(seconds) => seconds as int,
                    None => 0,
                },
            ) {
                Ok(segments) => {
                    &&& made is Ok
                    &&& made->Ok_0.wf()
                    &&& made->Ok_0.policy().segments() == segments
                    &&& made->Ok_0.policy().active() is None
                    &&& made->Ok_0.policy().offset() == match offset {
                        Some(seconds) => seconds as int,
                        None => 0,
                    }
                },
                Err(error) => made == Err::<Hourly, ConfigError>(error),
            },
    {
        match RotationPolicy::new(Granularity::Hour, path, None, offset) {
            Ok(policy) => Ok(Hourly { policy }),
            Err(error) => Err(error),
        }
    }
}

impl Period for Hourly {
    open spec fn wf(&self) -> bool {
        self.policy().wf() && self.policy().granularity() == Granularity::Hour
    }

    open spec fn previous(&self) -> Result<Timestamp, PeriodError> {
        self.policy().previous()
    }

    open spec fn threshold(&self) -> int {
        3600
    }

    open spec fn path_at(&self, now: Timestamp) -> Seq<u8> {
        self.policy().path_at(now)
    }

    open spec fn opens(&self, now: Timestamp, after: &Self) -> bool {
        self.policy().opens(now, &after.policy()) && after.wf()
    }

    proof fn lemma_opened_not_due(&self, now: Timestamp, after: &Self) {
        lemma_opened_not_due(after.policy(), now);
    }

    proof fn lemma_due_after_threshold(&self, now: Timestamp, after: &Self, later: Timestamp) {
        lemma_due_after_threshold(after.policy(), now, later);
    }

    fn previous_dt(&self) -> (found: Result<Timestamp, PeriodError>) {
        self.policy.previous_dt()
    }

    fn now(&self) -> (now: Option<Timestamp>) {
        self.policy.now()
    }

    fn open_new(&mut self, now: &Timestamp) -> (path: Vec<u8>) {
        self.policy.open_new(now)
    }

    fn duration(&self) -> (seconds: i64) {
        Self::DURATION
    }
}

/// A file for every day.
#[derive(Debug)]
pub struct Daily {
    policy: RotationPolicy,
}

impl Daily {
    /// The seconds that a file lasts.
    pub const DURATION: i64 = 86400;

    /// The policy that the period follows.
    pub closed spec fn policy(&self) -> RotationPolicy {
        self.policy
    }

    /// Checks that the items hold a year, a month and a day, each once, and
    /// names the first of the three that they do not.
    pub fn ensure_year_month_day(items: &[Item]) -> (checked: Result<(), ConfigError>)
        ensures
            checked is Ok <==> count(segments_of(items@), Field::Year) == 1 && count(
                segments_of(items@),
                Field::Month,
            ) == 1 && count(segments_of(items@), Field::Day) == 1,
            checked matches Err(error) ==> first_fault(Granularity::Day, segments_of(items@))
                matches Some(field) && error == ConfigError::Field(field),
    {
        ensure_fields(Granularity::Day, items)
    }

    /// The daily files that take the place of `path`: `app-2023-03-23.log`
    /// for `app.log`, or with what `fmt` describes in place of the date.
    /// Without an offset the clock is read in UTC.
    pub fn new(path: &[u8], fmt: Option<&[u8]>, offset: Option<i32>) -> (made: Result<
        Daily,
        ConfigError,
    >)
        ensures
            match configured(
                Granularity::Day,
                description(
                    path@,
                    match fmt {
                        Some(given) => given@,
                        None => Granularity::Day.pattern(),
                    },
                ),
                match offset {
                    Some(seconds) => seconds as int,
                    None => 0,
                },
            ) {
                Ok(segments) => {
                    &&& made is Ok
                    &&& made->Ok_0.wf()
                    &&& made->Ok_0.policy().segments() == segments
                    &&& made->Ok_0.policy().active() is None
                    &&& made->Ok_0.policy().offset() == match offset {
                        Some(seconds) => seconds as int,
                        None => 0,
                    }
                },
                Err(error) => made == Err::<Daily, ConfigError>(error),
            },
    {
        match RotationPolicy::new(Granularity::Day, path, fmt, offset) {
            Ok(policy) => Ok(Daily { policy }),
            Err(error) => Err(error),
        }
    }
}

impl Period for Daily {
    open spec fn wf(&self) -> bool {
        self.policy().wf() && self.policy().granularity() == Granularity::Day
    }

    open spec fn previous(&self) -> Result<Timestamp, PeriodError> {
        self.policy().previous()
    }

    open spec fn threshold(&self) -> int {
        86400
    }

    open spec fn path_at(&self, now: Timestamp) -> Seq<u8> {
        self.policy().path_at(now)
    }

    open spec fn opens(&self, now: Timestamp, after: &Self) -> bool {
        self.policy().opens(now, &after.policy()) && after.wf()
    }

    proof fn lemma_opened_not_due(&self, now: Timestamp, after: &Self) {
        lemma_opened_not_due(after.policy(), now);
    }

    proof fn lemma_due_after_threshold(&self, now: Timestamp, after: &Self, later: Timestamp) {
        lemma_due_after_threshold(after.policy(), now, later);
    }

    fn previous_dt(&self) -> (found: Result<Timestamp, PeriodError>) {
        self.policy.previous_dt()
    }

    fn now(&self) -> (now: Option<Timestamp>) {
        self.policy.now()
    }

    fn open_new(&mut self, now: &Timestamp) -> (path: Vec<u8>) {
        self.policy.open_new(now)
    }

    fn duration(&self) -> (seconds: i64) {
        Self::DURATION
    }
}

} // verus!
