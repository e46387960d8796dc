//! Path templates: literal text and date fields in a row, which give a moment
//! its file name and find the moment again in the name.

use crate::calendar::{is_valid_date, valid_date, Timestamp};
use crate::digits::{digits, number, parse_digit_group};
use crate::roundtrip::lemma_extract_render;
use time::format_description::{Component, OwnedFormatItem};
use vstd::prelude::*;

verus! {

/// A part of a moment that a file name can carry.
#[derive(Clone, Copy, Debug, PartialEq, Eq, Structural)]
pub enum Field {
    Year,
    Month,
    Day,
    Hour,
    Minute,
}

impl Field {
    /// The digits that the field takes in a file name.
    pub open spec fn width(self) -> nat {
        if self == Field::Year {
            4
        } else {
            2
        }
    }

    /// The numbers that the field can be.
    pub open spec fn admits(self, value: int) -> bool {
        match self {
            Field::Year => 0 <= value <= 9999,
            Field::Month => 1 <= value <= 12,
            Field::Day => 1 <= value <= 31,
            Field::Hour => 0 <= value <= 23,
            Field::Minute => 0 <= value <= 59,
        }
    }

    /// The digits that the field takes in a file name.
    pub fn digit_count(self) -> (width: usize)
        ensures
            width == self.width(),
    {
        match self {
            Field::Year => 4,
            _ => 2,
        }
    }

    /// Whether the field can be `value`.
    pub fn accepts(self, value: u32) -> (accepted: bool)
        ensures
            accepted == self.admits(value as int),
    {
        match self {
            Field::Year => value <= 9999,
            Field::Month => 1 <= value && value <= 12,
            Field::Day => 1 <= value && value <= 31,
            Field::Hour => value <= 23,
            Field::Minute => value <= 59,
        }
    }

    /// The field's number at the moment `at`.
    pub open spec fn of(self, at: Timestamp) -> int {
        match self {
            Field::Year => at.year as int,
            Field::Month => at.month as int,
            Field::Day => at.day as int,
            Field::Hour => at.hour as int,
            Field::Minute => at.minute as int,
        }
    }
}

/// One item of a template: text that stands as it is, or a field.
#[derive(Clone, Debug, PartialEq, Eq)]
pub enum Item {
    Literal(Vec<u8>),
    Field(Field),
}

/// What an [`Item`] stands for.
pub enum Segment {
    Literal(Seq<u8>),
    Field(Field),
}

impl View for Item {
    type V = Segment;

    open spec fn view(&self) -> Segment {
        match self {
            Item::Literal(bytes) => Segment::Literal(bytes@),
            Item::Field(field) => Segment::Field(*field),
        }
    }
}

impl Segment {
    /// The bytes that the segment gives the file name of the moment `at`.
    pub open spec fn piece(self, at: Timestamp) -> Seq<u8> {
        match self {
            Segment::Literal(bytes) => bytes,
            Segment::Field(field) => digits(field.of(at), field.width()),
        }
    }
}

/// The file name of the moment `at`: the pieces of the segments in a row.
pub open spec fn rendered(segments: Seq<Segment>, at: Timestamp) -> Seq<u8>
    decreases segments.len(),
{
    if segments.len() == 0 {
        Seq::empty()
    } else {
        segments.first().piece(at) + rendered(segments.drop_first(), at)
    }
}

/// How often `field` stands in `segments`.
pub open spec fn count(segments: Seq<Segment>, field: Field) -> nat
    decreases segments.len(),
{
    if segments.len() == 0 {
        0
    } else {
        count(segments.drop_first(), field) + if segments.first() == Segment::Field(field) {
            1nat
        } else {
            0nat
        }
    }
}

/// The fields read from a file name so far.
#[derive(Clone, Copy, Debug, PartialEq, Eq, Structural)]
pub struct Reading {
    pub year: Option<u32>,
    pub month: Option<u32>,
    pub day: Option<u32>,
    pub hour: Option<u32>,
    pub minute: Option<u32>,
}

impl Reading {
    pub open spec fn empty() -> Reading {
        Reading { year: None, month: None, day: None, hour: None, minute: None }
    }

    pub open spec fn get(self, field: Field) -> Option<u32> {
        match field {
            Field::Year => self.year,
            Field::Month => self.month,
            Field::Day => self.day,
            Field::Hour => self.hour,
            Field::Minute => self.minute,
        }
    }

    /// Sets `field` to `value`, whatever it was.
    pub fn set(&mut self, field: Field, value: u32)
        ensures
            *final(self) == old(self).with(field, value),
    {
        match field {
            Field::Year => self.year = Some(value),
            Field::Month => self.month = Some(value),
            Field::Day => self.day = Some(value),
            Field::Hour => self.hour = Some(value),
            Field::Minute => self.minute = Some(value),
        }
    }

    /// The reading with `field` set to `value`, whatever it was.
    pub open spec fn with(self, field: Field, value: u32) -> Reading {
        match field {
            Field::Year => Reading { year: Some(value), ..self },
            Field::Month => Reading { month: Some(value), ..self },
            Field::Day => Reading { day: Some(value), ..self },
            Field::Hour => Reading { hour: Some(value), ..self },
            Field::Minute => Reading { minute: Some(value), ..self },
        }
    }

    /// The reading after each field of `segments`, in order, was set to its
    /// number at the moment `at`.
    pub open spec fn with_all(self, segments: Seq<Segment>, at: Timestamp) -> Reading
        decreases segments.len(),
    {
        if segments.len() == 0 {
            self
        } else {
            match segments.first() {
                Segment::Literal(_) => self.with_all(segments.drop_first(), at),
                Segment::Field(field) => self.with(field, field.of(at) as u32).with_all(
                    segments.drop_first(),
                    at,
                ),
            }
        }
    }
}

/// Why a path is not a file name of a template.
#[derive(Clone, Copy, Debug, PartialEq, Eq, Structural)]
pub enum ParseError {
    /// The path does not have the literal structure of the template: a
    /// literal is not where it belongs, or the path is too short or too long.
    Mismatch,
    /// The digit group of the field holds a byte that is no digit, or a
    /// number that the field cannot be.
    Field(Field),
    /// The template has no such field to read.
    Missing(Field),
}

/// Reads `text` segment by segment: a literal has to stand as it is, a field
/// is the digit group of its width. A field that comes twice is read twice,
/// and the later reading stays.
pub open spec fn read(segments: Seq<Segment>, text: Seq<u8>, seen: Reading) -> Result<
    Reading,
    ParseError,
>
    decreases segments.len(),
{
    if segments.len() == 0 {
        if text.len() == 0 {
            Ok(seen)
        } else {
            Err(ParseError::Mismatch)
        }
    } else {
        let rest = segments.drop_first();
        match segments.first() {
            Segment::Literal(bytes) => if bytes.is_prefix_of(text) {
                read(rest, text.skip(bytes.len() as int), seen)
            } else {
                Err(ParseError::Mismatch)
            },
            Segment::Field(field) => if text.len() < field.width() {
                Err(ParseError::Mismatch)
            } else {
                match number(text.take(field.width() as int)) {
                    Some(value) if field.admits(value) => read(
                        rest,
                        text.skip(field.width() as int),
                        seen.with(field, value as u32),
                    ),
                    _ => Err(ParseError::Field(field)),
                }
            },
        }
    }
}

/// What a file name of `segments` tells of the moment `at`: the date, and
/// the hour and the minute where a segment carries them.
pub open spec fn truncated(segments: Seq<Segment>, at: Timestamp) -> Extracted {
    Extracted {
        year: at.year,
        month: at.month,
        day: at.day,
        hour: if count(segments, Field::Hour) > 0 {
            Some(at.hour)
        } else {
            None
        },
        minute: if count(segments, Field::Minute) > 0 {
            Some(at.minute)
        } else {
            None
        },
    }
}

/// What a file name tells of the moment it was made for.
#[derive(Clone, Copy, Debug, PartialEq, Eq, Structural)]
pub struct Extracted {
    pub year: i32,
    pub month: u8,
    pub day: u8,
    pub hour: Option<u8>,
    pub minute: Option<u8>,
}

impl Extracted {
    /// The date exists, and the hour and the minute are in range.
    pub open spec fn wf(self) -> bool {
        &&& valid_date(self.year as int, self.month as int, self.day as int)
        &&& self.hour matches Some(hour) ==> hour < 24
        &&& self.minute matches Some(minute) ==> minute < 60
    }
}

pub open spec fn narrowed(value: Option<u32>) -> Option<u8> {
    match value {
        Some(n) => Some(n as u8),
        None => None,
    }
}

/// A reading with a date in it, as what was extracted.
pub open spec fn dated(seen: Reading) -> Result<Extracted, ParseError> {
    if seen.year is None {
        Err(ParseError::Missing(Field::Year))
    } else if seen.month is None {
        Err(ParseError::Missing(Field::Month))
    } else if seen.day is None {
        Err(ParseError::Missing(Field::Day))
    } else if !valid_date(seen.year->0 as int, seen.month->0 as int, seen.day->0 as int) {
        Err(ParseError::Field(Field::Day))
    } else {
        Ok(
            Extracted {
                year: seen.year->0 as i32,
                month: seen.month->0 as u8,
                day: seen.day->0 as u8,
                hour: narrowed(seen.hour),
                minute: narrowed(seen.minute),
            },
        )
    }
}

/// The date of a reading, and the hour and minute where it has them.
fn date_of(seen: Reading) -> (found: Result<Extracted, ParseError>)
    requires
        seen.year is Some ==> seen.year->0 <= 9999,
        seen.month is Some ==> seen.month->0 <= 12,
        seen.day is Some ==> seen.day->0 <= 31,
        seen.hour is Some ==> seen.hour->0 <= 23,
        seen.minute is Some ==> seen.minute->0 <= 59,
    ensures
        found == dated(seen),
        found matches Ok(fields) ==> fields.wf(),
{
    let year = match seen.year {
        Some(year) => year as i32,
        None => return Err(ParseError::Missing(Field::Year)),
    };
    let month = match seen.month {
        Some(month) => month as u8,
        None => return Err(ParseError::Missing(Field::Month)),
    };
    let day = match seen.day {
        Some(day) => day as u8,
        None => return Err(ParseError::Missing(Field::Day)),
    };
    if !is_valid_date(year, month, day) {
        return Err(ParseError::Field(Field::Day));
    }
    let hour = match seen.hour {
        Some(hour) => Some(hour as u8),
        None => None,
    };
    let minute = match seen.minute {
        Some(minute) => Some(minute as u8),
        None => None,
    };
    Ok(Extracted { year, month, day, hour, minute })
}

/// Whether `literal` stands in `text` at `offset`.
fn stands_at(text: &[u8], offset: usize, literal: &[u8]) -> (stands: bool)
    requires
        offset <= text.len(),
    ensures
        stands == literal@.is_prefix_of(text@.skip(offset as int)),
{
    if literal.len() > text.len() - offset {
        return false;
    }
    let mut index: usize = 0;
    while index < literal.len()
        invariant
            index <= literal.len(),
            offset + literal.len() <= text.len(),
            literal@.take(index as int) =~= text@.subrange(offset as int, offset + index),
        decreases literal.len() - index,
    {
        if literal[index] != text[offset + index] {
            proof {
                let tail = text@.skip(offset as int);
                assert(tail.subrange(0, literal@.len() as int)[index as int] == text@[offset
                    + index]);
            }
            return false;
        }
        proof {
            let next = literal@.take(index + 1);
            assert(next =~= literal@.take(index as int).push(literal@[index as int]));
            assert(text@.subrange(offset as int, offset + index + 1) =~= text@.subrange(
                offset as int,
                offset + index,
            ).push(text@[offset + index]));
        }
        index = index + 1;
    }
    proof {
        assert(literal@.take(literal@.len() as int) =~= literal@);
        assert(text@.skip(offset as int).subrange(0, literal@.len() as int) =~= text@.subrange(
            offset as int,
            offset + literal@.len(),
        ));
    }
    true
}

/// The fields that `text` holds as a file name of `segments`.
pub open spec fn extracted(segments: Seq<Segment>, text: Seq<u8>) -> Result<Extracted, ParseError> {
    match read(segments, text, Reading::empty()) {
        Ok(seen) => dated(seen),
        Err(error) => Err(error),
    }
}

/// A format description of the `time` crate, compiled. What is in it is
/// known by [`format_items`] alone.
#[verifier::external_type_specification]
#[verifier::external_body]
pub struct ExOwnedFormatItem(time::format_description::OwnedFormatItem);

/// The items of a format description of the `time` crate, in order: those of
/// a compound description, else the description itself as the one item. An
/// item is `Some` segment where it is a string literal or one of the
/// components year (calendar, all digits, standard range), month (as a
/// number), day, hour (of 24) and minute with its default modifiers, which
/// pad with zeros and write no sign; any other item is `None`.
pub uninterp spec fn format_items(format: OwnedFormatItem) -> Seq<Option<Segment>>;

/// What the `time` crate makes of a description: the items of the format
/// description that the bytes, read as UTF-8, are parsed into, `None` where
/// they are no UTF-8 or no format description.
pub uninterp spec fn parsed(description: Seq<u8>) -> Option<Seq<Option<Segment>>>;

/// No item is one that a template cannot hold.
pub open spec fn all_fields(items: Seq<Option<Segment>>) -> bool {
    forall|i: int| 0 <= i < items.len() ==> (#[trigger] items[i]) is Some
}

/// The segments of items that a template can hold.
pub open spec fn fields_of(items: Seq<Option<Segment>>) -> Seq<Segment> {
    items.map_values(|item: Option<Segment>| item->0)
}

/// `str::from_utf8` and then `time::format_description::parse_owned`, in its
/// first version. The items of what comes back are those that [`parsed`]
/// names.
#[verifier::external_body]
fn parse_description(description: &[u8]) -> (format: Option<OwnedFormatItem>)
    ensures
        match format {
            Some(made) => parsed(description@) == Some(format_items(made)),
            None => parsed(description@) is None,
        },
{
    let text = std::str::from_utf8(description).ok()?;
    time::format_description::parse_owned::<1>(text).ok()
}

/// The count of the items of a description: the length of the slice in
/// `OwnedFormatItem::Compound`, 1 for any other variant.
#[verifier::external_body]
fn item_count(format: &OwnedFormatItem) -> (count: usize)
    ensures
        count == format_items(*format).len(),
{
    match format {
        OwnedFormatItem::Compound(items) => items.len(),
        _ => 1,
    }
}

/// Hands out one item of a description as [`format_items`] reads it. It
/// tells the variants of `OwnedFormatItem` and of `Component` apart, and
/// holds the modifier of a component against the `Default::default` of its
/// type with the `==` that `time` gives the modifiers.
#[verifier::external_body]
fn item_at(format: &OwnedFormatItem, index: usize) -> (item: Option<Item>)
    requires
        index < format_items(*format).len(),
    ensures
        match item {
            Some(found) => format_items(*format)[index as int] == Some(found@),
            None => format_items(*format)[index as int] is None,
        },
{
    let found = if let OwnedFormatItem::Compound(items) = format { &items[index] } else { format };
    match found {
        OwnedFormatItem::StringLiteral(text) => Some(Item::Literal(text.as_bytes().to_vec())),
        OwnedFormatItem::Component(component) => Some(Item::Field(match *component {
            Component::CalendarYearFullStandardRange(m) if m == Default::default() => Field::Year,
            Component::MonthNumerical(m) if m == Default::default() => Field::Month,
            Component::Day(m) if m == Default::default() => Field::Day,
            Component::Hour24(m) if m == Default::default() => Field::Hour,
            Component::Minute(m) if m == Default::default() => Field::Minute,
            _ => return None,
        })),
        _ => None,
    }
}

/// `PlainDateTime::format` of the `time` crate, on the moment that
/// `Date::from_calendar_date` and `Date::with_hms` make of the six numbers.
/// Where every item of the description is a literal or one of the five
/// fields, the text is the literals as they stand and each field in its
/// digits, padded with zeros: four for the year, two for the others.
#[verifier::external_body]
fn format_moment(format: &OwnedFormatItem, at: &Timestamp) -> (text: Vec<u8>)
    requires
        at.wf(),
        all_fields(format_items(*format)),
    ensures
        text@ == rendered(fields_of(format_items(*format)), *at),
{
    let month = time::Month::try_from(at.month).unwrap();
    let date = time::Date::from_calendar_date(at.year, month, at.day).unwrap();
    let moment = date.with_hms(at.hour, at.minute, at.second).unwrap();
    moment.format(format).unwrap().into_bytes()
}

/// Why a description is no template.
#[derive(Clone, Copy, Debug, PartialEq, Eq, Structural)]
pub enum TemplateError {
    /// The text is no format description.
    Invalid,
    /// The description holds an item other than a literal, `[year]`,
    /// `[month]`, `[day]`, `[hour]` and `[minute]`.
    Unsupported,
}

/// The segments that items stand for, one for one.
pub open spec fn segments_of(items: Seq<Item>) -> Seq<Segment> {
    items.map_values(|item: Item| item@)
}

/// How often `field` stands among `items`.
pub fn count_items(items: &[Item], field: Field) -> (times: usize)
    ensures
        times == count(segments_of(items@), field),
{
    let ghost segments = segments_of(items@);
    let mut times: usize = 0;
    let mut index: usize = items.len();
    proof {
        assert(segments.skip(index as int) =~= Seq::<Segment>::empty());
    }
    while index > 0
        invariant
            index <= items.len(),
            segments == segments_of(items@),
            times == count(segments.skip(index as int), field),
            times <= items.len() - index,
        decreases index,
    {
        index = index - 1;
        proof {
            assert(segments.skip(index as int).drop_first() =~= segments.skip(index + 1));
            assert(segments.skip(index as int).first() == items@[index as int]@);
        }
        match &items[index] {
            Item::Field(found) if *found == field => {
                times = times + 1;
            },
            _ => {},
        }
    }
    proof {
        assert(segments.skip(0) =~= segments);
    }
    times
}

/// Finds in `path` the fields of the moment that it was rendered for: each
/// digit group is read where the items before it put it.
pub fn extract_fields(items: &[Item], path: &[u8]) -> (found: Result<Extracted, ParseError>)
    ensures
        found == extracted(segments_of(items@), path@),
        found matches Ok(fields) ==> fields.wf(),
{
    let ghost all = segments_of(items@);
    let mut seen = Reading { year: None, month: None, day: None, hour: None, minute: None };
    let mut offset: usize = 0;
    let mut index: usize = 0;
    proof {
        assert(all.skip(0) =~= all);
        assert(path@.skip(0) =~= path@);
    }
    while index < items.len()
        invariant
            index <= items.len(),
            offset <= path.len(),
            all == segments_of(items@),
            read(all, path@, Reading::empty()) == read(
                all.skip(index as int),
                path@.skip(offset as int),
                seen,
            ),
            seen.year is Some ==> seen.year->0 <= 9999,
            seen.month is Some ==> seen.month->0 <= 12,
            seen.day is Some ==> seen.day->0 <= 31,
            seen.hour is Some ==> seen.hour->0 <= 23,
            seen.minute is Some ==> seen.minute->0 <= 59,
        decreases items.len() - index,
    {
        let ghost segments = all.skip(index as int);
        let ghost text = path@.skip(offset as int);
        proof {
            assert(segments.first() == items@[index as int]@);
            assert(segments.drop_first() =~= all.skip(index + 1));
        }
        match &items[index] {
            Item::Literal(bytes) => {
                if !stands_at(path, offset, bytes.as_slice()) {
                    return Err(ParseError::Mismatch);
                }
                proof {
                    assert(text.skip(bytes@.len() as int) =~= path@.skip(offset + bytes@.len()));
                }
                offset = offset + bytes.len();
            },
            Item::Field(field) => {
                let width = field.digit_count();
                if path.len() - offset < width {
                    return Err(ParseError::Mismatch);
                }
                proof {
                    assert(text.take(width as int) =~= path@.subrange(
                        offset as int,
                        offset + width,
                    ));
                    assert(text.skip(width as int) =~= path@.skip(offset + width));
                }
                match parse_digit_group(path, offset, width) {
                    Some(value) if field.accepts(value) => {
                        seen.set(*field, value);
                    },
                    _ => {
                        return Err(ParseError::Field(*field));
                    },
                }
                offset = offset + width;
            },
        }
        index = index + 1;
    }
    proof {
        assert(all.skip(index as int).len() == 0);
    }
    if offset != path.len() {
        return Err(ParseError::Mismatch);
    }
    date_of(seen)
}

/// A compiled template. It does not change once it is made.
#[derive(Debug)]
pub struct PathTemplate {
    format: OwnedFormatItem,
    items: Vec<Item>,
}

impl View for PathTemplate {
    type V = Seq<Segment>;

    closed spec fn view(&self) -> Seq<Segment> {
        segments_of(self.items@)
    }
}

impl PathTemplate {
    /// The items are those of the compiled description, one for one.
    pub closed spec fn wf(&self) -> bool {
        &&& all_fields(format_items(self.format))
        &&& fields_of(format_items(self.format)) == self@
    }

    /// Compiles a description: literal text with `[year]`, `[month]`,
    /// `[day]`, `[hour]` and `[minute]` in it.
    pub fn compile(description: &[u8]) -> (made: Result<PathTemplate, TemplateError>)
        ensures
            match parsed(description@) {
                None => made == Err::<PathTemplate, TemplateError>(TemplateError::Invalid),
                Some(items) => if all_fields(items) {
                    &&& made is Ok
                    &&& made->Ok_0.wf()
                    &&& made->Ok_0@ == fields_of(items)
                } else {
                    made == Err::<PathTemplate, TemplateError>(TemplateError::Unsupported)
                },
            },
    {
        let format = match parse_description(description) {
            Some(format) => format,
            None => return Err(TemplateError::Invalid),
        };
        let count = item_count(&format);
        let mut items: Vec<Item> = Vec::new();
        let mut index: usize = 0;
        while index < count
            invariant
                index <= count == format_items(format).len(),
                parsed(description@) == Some(format_items(format)),
                items@.len() == index,
                forall|i: int|
                    0 <= i < index ==> (#[trigger] format_items(format)[i]) == Some(items@[i]@),
            decreases count - index,
        {
            match item_at(&format, index) {
                Some(item) => items.push(item),
                None => {
                    assert(format_items(format)[index as int] is None);
                    return Err(TemplateError::Unsupported);
                },
            }
            index = index + 1;
        }
        let made = PathTemplate { format, items };
        proof {
            assert(fields_of(format_items(made.format)) =~= made@);
        }
        Ok(made)
    }

    /// The items of the template, in order.
    pub fn items(&self) -> (items: &[Item])
        ensures
            segments_of(items@) == self@,
    {
        self.items.as_slice()
    }

    /// How often `field` stands in the template.
    pub fn count_field(&self, field: Field) -> (times: usize)
        ensures
            times == count(self@, field),
    {
        count_items(self.items.as_slice(), field)
    }

    /// Finds in `path` the fields of the moment that it was rendered for.
    pub fn extract(&self, path: &[u8]) -> (found: Result<Extracted, ParseError>)
        ensures
            found == extracted(self@, path@),
            found matches Ok(fields) ==> fields.wf(),
    {
        extract_fields(self.items.as_slice(), path)
    }

    /// The file name of the moment `at`. Where the template holds a year,
    /// a month and a day, the name gives the moment back.
    pub fn render(&self, at: &Timestamp) -> (path: Vec<u8>)
        requires
            self.wf(),
            at.wf(),
        ensures
            path@ == rendered(self@, *at),
            count(self@, Field::Year) > 0 && count(self@, Field::Month) > 0 && count(
                self@,
                Field::Day,
            ) > 0 ==> extracted(self@, path@) == Ok::<Extracted, ParseError>(
                truncated(self@, *at),
            ),
    {
        proof {
            if count(self@, Field::Year) > 0 && count(self@, Field::Month) > 0 && count(
                self@,
                Field::Day,
            ) > 0 {
                lemma_extract_render(*self, *at);
            }
        }
        format_moment(&self.format, at)
    }
}

} // verus!
