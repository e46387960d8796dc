//! The rotation policy of one log stream: which file is open, when it was
//! opened, and whether it is due for a successor.

use crate::calendar::{Timestamp, MAX_OFFSET};
use crate::layout::{describe, description};
use crate::roundtrip::lemma_extract_render;
use crate::template::{
    all_fields, count, count_items, parsed, extracted, fields_of, rendered, segments_of,
    Extracted, Field, Item, ParseError, PathTemplate, Segment, TemplateError,
};
use vstd::prelude::*;
use vstd::string::StringSliceAdditionalSpecFns;

verus! {

/// How often a stream moves on to a new file.
#[derive(Clone, Copy, Debug, PartialEq, Eq, Structural)]
pub enum Granularity {
    Minute,
    Hour,
    Day,
}

impl Granularity {
    /// The seconds after which a file is due for a successor.
    pub open spec fn threshold(self) -> int {
        match self {
            Granularity::Minute => 60,
            Granularity::Hour => 3600,
            Granularity::Day => 86400,
        }
    }

    /// The fields that a template has to hold, each once.
    pub open spec fn mandates(self, field: Field) -> bool {
        match field {
            Field::Year | Field::Month | Field::Day => true,
            Field::Hour => self != Granularity::Day,
            Field::Minute => self == Granularity::Minute,
        }
    }

    /// The pattern of the timestamp where none is given.
    pub open spec fn pattern(self) -> Seq<u8> {
        match self {
            Granularity::Minute => "[year]-[month]-[day]-[hour]-[minute]".spec_bytes(),
            Granularity::Hour => "[year]-[month]-[day]-[hour]".spec_bytes(),
            Granularity::Day => "[year]-[month]-[day]".spec_bytes(),
        }
    }

    /// The start of the period in which `now` lies: `now` with zero for
    /// what is finer than the granularity.
    pub open spec fn floor(self, now: Timestamp) -> Timestamp {
        match self {
            Granularity::Minute => Timestamp { second: 0, ..now },
            Granularity::Hour => Timestamp { minute: 0, second: 0, ..now },
            Granularity::Day => Timestamp { hour: 0, minute: 0, second: 0, ..now },
        }
    }

    /// The moment at which the period of a file name began: the fields that
    /// the granularity mandates, and zero for the rest.
    pub open spec fn start(self, found: Extracted) -> Result<Timestamp, ParseError> {
        let day = Timestamp {
            year: found.year,
            month: found.month,
            day: found.day,
            hour: 0,
            minute: 0,
            second: 0,
        };
        match self {
            Granularity::Day => Ok(day),
            Granularity::Hour => match found.hour {
                Some(hour) => Ok(Timestamp { hour, ..day }),
                None => Err(ParseError::Missing(Field::Hour)),
            },
            Granularity::Minute => match (found.hour, found.minute) {
                (Some(hour), Some(minute)) => Ok(Timestamp { hour, minute, ..day }),
                (None, _) => Err(ParseError::Missing(Field::Hour)),
                (_, None) => Err(ParseError::Missing(Field::Minute)),
            },
        }
    }

    pub fn duration(self) -> (seconds: i64)
        ensures
            seconds == self.threshold(),
    {
        match self {
            Granularity::Minute => 60,
            Granularity::Hour => 3600,
            Granularity::Day => 86400,
        }
    }

    pub fn requires_field(self, field: Field) -> (mandated: bool)
        ensures
            mandated == self.mandates(field),
    {
        match field {
            Field::Hour => !matches!(self, Granularity::Day),
            Field::Minute => matches!(self, Granularity::Minute),
            _ => true,
        }
    }

    pub fn default_pattern(self) -> (pattern: &'static [u8])
        ensures
            pattern@ == self.pattern(),
    {
        match self {
            Granularity::Minute => "[year]-[month]-[day]-[hour]-[minute]".as_bytes(),
            Granularity::Hour => "[year]-[month]-[day]-[hour]".as_bytes(),
            Granularity::Day => "[year]-[month]-[day]".as_bytes(),
        }
    }

    /// The start of the period that a file name tells of.
    pub fn start_of(self, found: &Extracted) -> (start: Result<Timestamp, ParseError>)
        requires
            found.wf(),
        ensures
            start == self.start(*found),
            start matches Ok(moment) ==> moment.wf(),
    {
        let day = Timestamp {
            year: found.year,
            month: found.month,
            day: found.day,
            hour: 0,
            minute: 0,
            second: 0,
        };
        match self {
            Granularity::Day => Ok(day),
            Granularity::Hour => match found.hour {
                Some(hour) => Ok(Timestamp { hour, ..day }),
                None => Err(ParseError::Missing(Field::Hour)),
            },
            Granularity::Minute => match (found.hour, found.minute) {
                (Some(hour), Some(minute)) => Ok(Timestamp { hour, minute, ..day }),
                (None, _) => Err(ParseError::Missing(Field::Hour)),
                (_, None) => Err(ParseError::Missing(Field::Minute)),
            },
        }
    }
}

/// Why a policy cannot be made.
#[derive(Clone, Copy, Debug, PartialEq, Eq, Structural)]
pub enum ConfigError {
    /// The offset is more than [`MAX_OFFSET`] seconds from UTC.
    Offset,
    /// The path with the pattern in it is no template.
    Template(TemplateError),
    /// The template holds the field not at all or more than once, and the
    /// granularity mandates it.
    Field(Field),
}

/// Why a policy does not know when its file was opened.
#[derive(Clone, Copy, Debug, PartialEq, Eq, Structural)]
pub enum PeriodError {
    /// No file was opened yet.
    NoActiveFile,
    /// The name of the active file does not tell.
    Parse(ParseError),
}

/// The first of the five fields that `granularity` mandates and that does
/// not stand exactly once in `segments`.
pub open spec fn first_fault(granularity: Granularity, segments: Seq<Segment>) -> Option<Field> {
    if faulty(granularity, segments, Field::Year) {
        Some(Field::Year)
    } else if faulty(granularity, segments, Field::Month) {
        Some(Field::Month)
    } else if faulty(granularity, segments, Field::Day) {
        Some(Field::Day)
    } else if faulty(granularity, segments, Field::Hour) {
        Some(Field::Hour)
    } else if faulty(granularity, segments, Field::Minute) {
        Some(Field::Minute)
    } else {
        None
    }
}

pub open spec fn faulty(granularity: Granularity, segments: Seq<Segment>, field: Field) -> bool {
    granularity.mandates(field) && count(segments, field) != 1
}

/// Checks that each field that `granularity` mandates stands exactly once
/// among `items`.
pub fn ensure_fields(granularity: Granularity, items: &[Item]) -> (checked: Result<
    (),
    ConfigError,
>)
    ensures
        match first_fault(granularity, segments_of(items@)) {
            Some(field) => checked == Err::<(), ConfigError>(ConfigError::Field(field)),
            None => checked is Ok,
        },
{
    let ghost segments = segments_of(items@);
    let fields = [Field::Year, Field::Month, Field::Day, Field::Hour, Field::Minute];
    let mut index: usize = 0;
    while index < 5
        invariant
            index <= 5,
            fields@ == seq![Field::Year, Field::Month, Field::Day, Field::Hour, Field::Minute],
            segments == segments_of(items@),
            forall|i: int| 0 <= i < index ==> !faulty(granularity, segments, #[trigger] fields@[i]),
        decreases 5 - index,
    {
        let field = fields[index];
        if granularity.requires_field(field) && count_items(items, field) != 1 {
            return Err(ConfigError::Field(field));
        }
        index = index + 1;
    }
    proof {
        assert(!faulty(granularity, segments, fields@[0]));
        assert(!faulty(granularity, segments, fields@[1]));
        assert(!faulty(granularity, segments, fields@[2]));
        assert(!faulty(granularity, segments, fields@[3]));
        assert(!faulty(granularity, segments, fields@[4]));
    }
    Ok(())
}

/// The policy of one log stream.
#[derive(Debug)]
pub struct RotationPolicy {
    granularity: Granularity,
    offset: i32,
    template: PathTemplate,
    active: Option<Vec<u8>>,
}

/// What making a policy comes to: the segments of its template, or why
/// there is none.
pub open spec fn configured(granularity: Granularity, text: Seq<u8>, offset: int) -> Result<
    Seq<Segment>,
    ConfigError,
> {
    if !(-MAX_OFFSET <= offset <= MAX_OFFSET) {
        Err(ConfigError::Offset)
    } else {
        match parsed(text) {
            None => Err(ConfigError::Template(TemplateError::Invalid)),
            Some(items) => if !all_fields(items) {
                Err(ConfigError::Template(TemplateError::Unsupported))
            } else {
                match first_fault(granularity, fields_of(items)) {
                    Some(field) => Err(ConfigError::Field(field)),
                    None => Ok(fields_of(items)),
                }
            },
        }
    }
}

impl RotationPolicy {
    pub closed spec fn granularity(&self) -> Granularity {
        self.granularity
    }

    /// The offset from UTC at which the policy reads the clock, in seconds.
    pub closed spec fn offset(&self) -> int {
        self.offset as int
    }

    /// The segments of the template.
    pub closed spec fn segments(&self) -> Seq<Segment> {
        self.template@
    }

    /// The path of the file that was opened last.
    pub closed spec fn active(&self) -> Option<Seq<u8>> {
        match self.active {
            Some(path) => Some(path@),
            None => None,
        }
    }

    /// The template is compiled and holds each mandated field once, the
    /// offset is one that exists, and the active path, where there is one,
    /// was rendered by the template for some moment.
    pub closed spec fn wf(&self) -> bool {
        &&& self.template.wf()
        &&& first_fault(self.granularity, self.template@) is None
        &&& -MAX_OFFSET <= self.offset <= MAX_OFFSET
        &&& self.active matches Some(path) ==> exists|at: Timestamp|
            at.wf() && path@ == #[trigger] rendered(self.template@, at)
    }

    /// When the active file was opened, as far as its name tells.
    pub open spec fn previous(&self) -> Result<Timestamp, PeriodError> {
        match self.active() {
            None => Err(PeriodError::NoActiveFile),
            Some(path) => match extracted(self.segments(), path) {
                Err(error) => Err(PeriodError::Parse(error)),
                Ok(found) => match self.granularity().start(found) {
                    Err(error) => Err(PeriodError::Parse(error)),
                    Ok(start) => Ok(start),
                },
            },
        }
    }

    /// Whether the active file is due for a successor at `now`: whether it
    /// was opened at least a threshold ago. With no active file, or one
    /// whose name does not tell, nothing is due.
    pub open spec fn due(&self, now: Timestamp) -> bool {
        match self.previous() {
            Ok(start) => now.instant() - start.instant() >= self.granularity().threshold(),
            Err(_) => false,
        }
    }

    /// The path of the file that the policy opens at `now`.
    pub open spec fn path_at(&self, now: Timestamp) -> Seq<u8> {
        rendered(self.segments(), now)
    }

    /// What opening a file at `now` makes of the policy: `after` is the
    /// same policy with that file as the active one.
    pub open spec fn opens(&self, now: Timestamp, after: &RotationPolicy) -> bool {
        &&& after.wf()
        &&& after.active() == Some(self.path_at(now))
        &&& after.segments() == self.segments()
        &&& after.granularity() == self.granularity()
        &&& after.offset() == self.offset()
    }

    /// The policy of the files that take the place of `path` in turn, each
    /// named after `pattern`, or after the granularity's own pattern where
    /// none is given. Without an offset the policy reads the clock in UTC.
    pub fn new(
        granularity: Granularity,
        path: &[u8],
        pattern: Option<&[u8]>,
        offset: Option<i32>,
    ) -> (made: Result<RotationPolicy, ConfigError>)
        ensures
            match configured(
                granularity,
                description(
                    path@,
                    match pattern {
                        Some(given) => given@,
                        None => granularity.pattern(),
                    },
                ),
                match offset {
                    Some(seconds) => seconds as int,
                    None => 0,
                },
            ) {
                Ok(segments) => {
                    &&& made is Ok
                    &&& made->Ok_0.wf()
                    &&& made->Ok_0.granularity() == granularity
                    &&& made->Ok_0.segments() == segments
                    &&& made->Ok_0.active() is None
                    &&& made->Ok_0.offset() == match offset {
                        Some(seconds) => seconds as int,
                        None => 0,
                    }
                },
                Err(error) => made == Err::<RotationPolicy, ConfigError>(error),
            },
    {
        let offset: i32 = match offset {
            Some(seconds) => seconds,
            None => 0,
        };
        if offset < -MAX_OFFSET || offset > MAX_OFFSET {
            return Err(ConfigError::Offset);
        }
        let pattern: &[u8] = match pattern {
            Some(given) => given,
            None => granularity.default_pattern(),
        };
        let text = describe(path, pattern);
        let template = match PathTemplate::compile(text.as_slice()) {
            Ok(template) => template,
            Err(error) => return Err(ConfigError::Template(error)),
        };
        match ensure_fields(granularity, template.items()) {
            Ok(()) => Ok(RotationPolicy { granularity, offset, template, active: None }),
            Err(error) => Err(error),
        }
    }

    /// The path of the file that was opened last.
    pub fn active_path(&self) -> (path: Option<&[u8]>)
        ensures
            match path {
                Some(bytes) => self.active() == Some(bytes@),
                None => self.active() is None,
            },
    {
        match &self.active {
            Some(path) => Some(path.as_slice()),
            None => None,
        }
    }

    /// The seconds after which a file is due for a successor.
    pub fn duration_threshold(&self) -> (seconds: i64)
        ensures
            seconds == self.granularity().threshold(),
    {
        self.granularity.duration()
    }

    /// When the active file was opened, read from its name.
    pub fn previous_dt(&self) -> (found: Result<Timestamp, PeriodError>)
        ensures
            found == self.previous(),
            found matches Ok(start) ==> start.wf(),
    {
        let path = match &self.active {
            Some(path) => path,
            None => return Err(PeriodError::NoActiveFile),
        };
        let fields = match self.template.extract(path.as_slice()) {
            Ok(fields) => fields,
            Err(error) => return Err(PeriodError::Parse(error)),
        };
        match self.granularity.start_of(&fields) {
            Ok(start) => Ok(start),
            Err(error) => Err(PeriodError::Parse(error)),
        }
    }

    /// The moment that the clock shows at the policy's offset, `None` where
    /// the clock shows none that a file name can carry, or the offset is
    /// none that exists.
    pub fn now(&self) -> (now: Option<Timestamp>)
        ensures
            now matches Some(moment) ==> moment.wf(),
            !(-MAX_OFFSET <= self.offset() <= MAX_OFFSET) ==> now is None,
    {
        Timestamp::now_at(self.offset)
    }

    /// Whether the active file is due for a successor at `now`.
    pub fn should_rotate(&self, now: &Timestamp) -> (due: bool)
        requires
            now.wf(),
        ensures
            due == self.due(*now),
    {
        match self.previous_dt() {
            Ok(start) => now.seconds_since(&start) >= self.granularity.duration(),
            Err(_) => false,
        }
    }

    /// The path of the file for `now`, which is the active file from here
    /// on. The file is not due at `now`.
    pub fn open_new(&mut self, now: &Timestamp) -> (path: Vec<u8>)
        requires
            old(self).wf(),
            now.wf(),
        ensures
            path@ == old(self).path_at(*now),
            old(self).opens(*now, final(self)),
            final(self).previous() == Ok::<Timestamp, PeriodError>(
                old(self).granularity().floor(*now),
            ),
            !final(self).due(*now),
    {
        let path = self.template.render(now);
        self.active = Some(path.clone());
        proof {
            lemma_opened_previous(*self, *now);
        }
        path
    }
}

/// The name of a file that was opened at `now` tells when its period began:
/// at `now`, cut down to the granularity.
pub proof fn lemma_opened_previous(policy: RotationPolicy, now: Timestamp)
    requires
        policy.wf(),
        now.wf(),
        policy.active() == Some(rendered(policy.segments(), now)),
    ensures
        policy.previous() == Ok::<Timestamp, PeriodError>(policy.granularity().floor(now)),
        0 <= now.instant() - policy.granularity().floor(now).instant()
            < policy.granularity().threshold(),
{
    lemma_extract_render(policy.template, now);
}

/// The name of the active file always tells when the file was opened: a
/// policy that has opened a file knows the start of its period.
pub proof fn lemma_active_parses(policy: RotationPolicy)
    requires
        policy.wf(),
    ensures
        policy.active() is Some <==> policy.previous() is Ok,
        policy.active() is None <==> policy.previous() == Err::<Timestamp, PeriodError>(
            PeriodError::NoActiveFile,
        ),
{
    if policy.active is Some {
        let path = policy.active->0@;
        let at = choose|at: Timestamp| at.wf() && path == #[trigger] rendered(policy.template@, at);
        lemma_opened_previous(policy, at);
    }
}

/// A file is not due at the moment it was opened.
pub proof fn lemma_opened_not_due(policy: RotationPolicy, now: Timestamp)
    requires
        policy.wf(),
        now.wf(),
        policy.active() == Some(rendered(policy.segments(), now)),
    ensures
        !policy.due(now),
{
    lemma_opened_previous(policy, now);
}

/// A file that was opened at `now` is due at every moment that is at least
/// the threshold later.
pub proof fn lemma_due_after_threshold(policy: RotationPolicy, now: Timestamp, later: Timestamp)
    requires
        policy.wf(),
        now.wf(),
        later.wf(),
        policy.active() == Some(rendered(policy.segments(), now)),
        later.instant() - now.instant() >= policy.granularity().threshold(),
    ensures
        policy.due(later),
{
    lemma_opened_previous(policy, now);
}

} // verus!
