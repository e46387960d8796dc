//! Rendering and extraction undo each other: a file name gives back the
//! moment it was rendered for, and what extraction accepts is a file name.

use crate::calendar::Timestamp;
use crate::digits::{
    bound, digits, lemma_digits_len, lemma_digits_of_number, lemma_number_of_digits, number,
};
use crate::template::{
    count, extracted, read, rendered, truncated, Extracted, Field, ParseError, PathTemplate,
    Reading, Segment,
};
use vstd::prelude::*;

verus! {

/// A field's number at a moment is one that the field admits, and fits the
/// field's digits.
pub proof fn lemma_field_in_range(field: Field, at: Timestamp)
    requires
        at.wf(),
    ensures
        field.admits(field.of(at)),
        0 <= field.of(at) < bound(field.width()),
{
    reveal_with_fuel(bound, 5);
}

/// Reading a rendered file name sets every field of the template to its
/// number at the moment, and fails nowhere.
pub proof fn lemma_read_rendered(segments: Seq<Segment>, at: Timestamp, seen: Reading)
    requires
        at.wf(),
    ensures
        read(segments, rendered(segments, at), seen) == Ok::<Reading, ParseError>(
            seen.with_all(segments, at),
        ),
    decreases segments.len(),
{
    if segments.len() > 0 {
        let rest = segments.drop_first();
        let tail = rendered(rest, at);
        let text = rendered(segments, at);
        match segments.first() {
            Segment::Literal(bytes) => {
                assert(text.subrange(0, bytes.len() as int) =~= bytes);
                assert(text.skip(bytes.len() as int) =~= tail);
                lemma_read_rendered(rest, at, seen);
            },
            Segment::Field(field) => {
                let group = digits(field.of(at), field.width());
                lemma_digits_len(field.of(at), field.width());
                lemma_field_in_range(field, at);
                lemma_number_of_digits(field.of(at), field.width());
                assert(text.take(field.width() as int) =~= group);
                assert(text.skip(field.width() as int) =~= tail);
                lemma_read_rendered(rest, at, seen.with(field, field.of(at) as u32));
            },
        }
    }
}

/// After the fields of a template were set, a field that the template holds
/// has its number at the moment, and any other is as it was.
pub proof fn lemma_with_all(seen: Reading, segments: Seq<Segment>, at: Timestamp, field: Field)
    ensures
        seen.with_all(segments, at).get(field) == if count(segments, field) > 0 {
            Some(field.of(at) as u32)
        } else {
            seen.get(field)
        },
    decreases segments.len(),
{
    if segments.len() > 0 {
        match segments.first() {
            Segment::Literal(_) => {
                lemma_with_all(seen, segments.drop_first(), at, field);
            },
            Segment::Field(first) => {
                lemma_with_all(
                    seen.with(first, first.of(at) as u32),
                    segments.drop_first(),
                    at,
                    field,
                );
            },
        }
    }
}

/// The round trip: what is extracted from the file name that a template
/// renders for a moment is that moment, cut down to the fields that the
/// template holds. It holds of every template with a year, a month and a day
/// in it, and of every moment.
pub proof fn lemma_extract_render(template: PathTemplate, now: Timestamp)
    requires
        now.wf(),
        count(template@, Field::Year) > 0,
        count(template@, Field::Month) > 0,
        count(template@, Field::Day) > 0,
    ensures
        extracted(template@, rendered(template@, now)) == Ok::<Extracted, ParseError>(
            truncated(template@, now),
        ),
{
    let seen = Reading::empty();
    lemma_read_rendered(template@, now, seen);
    lemma_with_all(seen, template@, now, Field::Year);
    lemma_with_all(seen, template@, now, Field::Month);
    lemma_with_all(seen, template@, now, Field::Day);
    lemma_with_all(seen, template@, now, Field::Hour);
    lemma_with_all(seen, template@, now, Field::Minute);
}

/// Reading sets no field that the segments do not hold.
pub proof fn lemma_read_keeps(segments: Seq<Segment>, text: Seq<u8>, seen: Reading, field: Field)
    requires
        count(segments, field) == 0,
        read(segments, text, seen) is Ok,
    ensures
        read(segments, text, seen)->Ok_0.get(field) == seen.get(field),
    decreases segments.len(),
{
    if segments.len() > 0 {
        let rest = segments.drop_first();
        match segments.first() {
            Segment::Literal(bytes) => {
                lemma_read_keeps(rest, text.skip(bytes.len() as int), seen, field);
            },
            Segment::Field(first) => {
                let value = number(text.take(first.width() as int))->0;
                lemma_read_keeps(
                    rest,
                    text.skip(first.width() as int),
                    seen.with(first, value as u32),
                    field,
                );
            },
        }
    }
}

/// Reading sets every field that the segments hold.
pub proof fn lemma_read_sets(segments: Seq<Segment>, text: Seq<u8>, seen: Reading, field: Field)
    requires
        read(segments, text, seen) is Ok,
        count(segments, field) > 0 || seen.get(field) is Some,
    ensures
        read(segments, text, seen)->Ok_0.get(field) is Some,
    decreases segments.len(),
{
    if segments.len() > 0 {
        let rest = segments.drop_first();
        match segments.first() {
            Segment::Literal(bytes) => {
                lemma_read_sets(rest, text.skip(bytes.len() as int), seen, field);
            },
            Segment::Field(first) => {
                let value = number(text.take(first.width() as int))->0;
                lemma_read_sets(
                    rest,
                    text.skip(first.width() as int),
                    seen.with(first, value as u32),
                    field,
                );
            },
        }
    }
}

/// Whatever reading sets a field to is a number that the field admits.
pub proof fn lemma_read_in_range(
    segments: Seq<Segment>,
    text: Seq<u8>,
    seen: Reading,
    field: Field,
)
    requires
        read(segments, text, seen) is Ok,
        seen.get(field) matches Some(value) ==> field.admits(value as int),
    ensures
        read(segments, text, seen)->Ok_0.get(field) matches Some(value) ==> field.admits(
            value as int,
        ),
    decreases segments.len(),
{
    if segments.len() > 0 {
        let rest = segments.drop_first();
        match segments.first() {
            Segment::Literal(bytes) => {
                lemma_read_in_range(rest, text.skip(bytes.len() as int), seen, field);
            },
            Segment::Field(first) => {
                let value = number(text.take(first.width() as int))->0;
                lemma_read_in_range(
                    rest,
                    text.skip(first.width() as int),
                    seen.with(first, value as u32),
                    field,
                );
            },
        }
    }
}

/// A text that is read without fault, by segments that hold no field twice,
/// is what the segments render for every moment that has the fields read.
pub proof fn lemma_read_is_rendered(
    segments: Seq<Segment>,
    text: Seq<u8>,
    seen: Reading,
    at: Timestamp,
)
    requires
        at.wf(),
        read(segments, text, seen) is Ok,
        forall|field: Field| count(segments, field) <= 1,
        forall|field: Field|
            count(segments, field) == 1 ==> read(segments, text, seen)->Ok_0.get(field) == Some(
                field.of(at) as u32,
            ),
    ensures
        rendered(segments, at) == text,
    decreases segments.len(),
{
    if segments.len() > 0 {
        let rest = segments.drop_first();
        match segments.first() {
            Segment::Literal(bytes) => {
                let tail = text.skip(bytes.len() as int);
                assert forall|field: Field| count(rest, field) <= 1 by {
                    assert(count(segments, field) <= 1);
                }
                assert forall|field: Field| count(rest, field) == 1 implies read(
                    rest,
                    tail,
                    seen,
                )->Ok_0.get(field) == Some(field.of(at) as u32) by {
                    assert(count(segments, field) == 1);
                }
                lemma_read_is_rendered(rest, tail, seen, at);
                assert(text =~= bytes + tail);
            },
            Segment::Field(first) => {
                let width = first.width() as int;
                let group = text.take(width);
                let tail = text.skip(width);
                let value = number(group)->0;
                let next = seen.with(first, value as u32);
                assert(count(segments, first) <= 1);
                lemma_read_keeps(rest, tail, next, first);
                lemma_field_in_range(first, at);
                assert(value == first.of(at));
                lemma_digits_of_number(group);
                assert forall|field: Field| count(rest, field) <= 1 by {
                    assert(count(segments, field) <= 1);
                }
                assert forall|field: Field| count(rest, field) == 1 implies read(
                    rest,
                    tail,
                    next,
                )->Ok_0.get(field) == Some(field.of(at) as u32) by {
                    assert(count(segments, field) == 1);
                }
                lemma_read_is_rendered(rest, tail, next, at);
                assert(text =~= group + tail);
            },
        }
    }
}

/// Extraction accepts nothing but file names: where a template holds no
/// field twice, a path from which fields are extracted is the file name
/// that the template renders for every moment with those fields.
pub proof fn lemma_extracted_is_rendered(template: PathTemplate, path: Seq<u8>, at: Timestamp)
    requires
        at.wf(),
        forall|field: Field| count(template@, field) <= 1,
        extracted(template@, path) == Ok::<Extracted, ParseError>(truncated(template@, at)),
    ensures
        rendered(template@, at) == path,
{
    let seen = Reading::empty();
    let found = read(template@, path, seen)->Ok_0;
    assert forall|field: Field| count(template@, field) == 1 implies found.get(field) == Some(
        field.of(at) as u32,
    ) by {
        if found.get(field) is None {
            lemma_read_sets(template@, path, seen, field);
        }
        lemma_read_in_range(template@, path, seen, field);
    }
    lemma_read_is_rendered(template@, path, seen, at);
}

} // verus!
