//! Choosing one timestamp among the date fields of a picture's metadata.
use crate::date_time::{SortedDayTime, four_digits, is_date_text, two_digits};
use vstd::prelude::*;

verus! {

#[verifier::external_type_specification]
#[verifier::external_body]
pub struct ExExif(exif::Exif);

/// The metadata fields that may hold a picture's date, in priority order.
#[derive(Debug, Clone, Copy, PartialEq, Eq, Structural)]
pub enum DateField {
    /// `DateTimeOriginal`: time of the original capture.
    Original,
    /// `DateTimeDigitized`: time the picture was digitized.
    Digitized,
    /// `DateTime`: time the file was last changed.
    Modified,
    /// `GPSDateStamp`: date stamp of the satellite positioning data.
    Gps,
}

impl DateField {
    /// The place of the field in priority order.
    pub open spec fn index(self) -> u8 {
        match self {
            DateField::Original => 0,
            DateField::Digitized => 1,
            DateField::Modified => 2,
            DateField::Gps => 3,
        }
    }
}

/// What parsed metadata holds of the date fields of its primary image: for
/// each field stored as text, keyed by the field's place in priority order,
/// its first text.
pub uninterp spec fn primary_date_texts(exif: exif::Exif) -> Map<u8, Seq<u8>>;

/// The text that `texts` holds under `key`, if any.
pub open spec fn text_at(texts: Map<u8, Seq<u8>>, key: u8) -> Option<Seq<u8>> {
    if texts.contains_key(key) {
        Some(texts[key])
    } else {
        None
    }
}

/// Relies on exif::Exif::get_field with exif::In::PRIMARY, and on
/// exif::Value::Ascii: the first text of the field of the primary image,
/// where it is stored as text; the lookup reads the parsed metadata alone.
#[verifier::external_body]
fn primary_text_field(exif: &exif::Exif, field: DateField) -> (r: Option<Vec<u8>>)
    ensures
        raw_view(r) == text_at(primary_date_texts(*exif), field.index()),
{
    let tag = match field {
        DateField::Original => exif::Tag::DateTimeOriginal,
        DateField::Digitized => exif::Tag::DateTimeDigitized,
        DateField::Modified => exif::Tag::DateTime,
        DateField::Gps => exif::Tag::GPSDateStamp,
    };
    match exif.get_field(tag, exif::In::PRIMARY) {
        Some(field) => match &field.value {
            exif::Value::Ascii(texts) => texts.first().cloned(),
            _ => None,
        },
        None => None,
    }
}

/// The raw ASCII text of the four date fields of a picture's metadata, in
/// priority order. An absent field, or one not stored as text, is `None`.
pub struct MetadataFields {
    /// Time of the original capture.
    pub original: Option<Vec<u8>>,
    /// Time the picture was digitized.
    pub digitized: Option<Vec<u8>>,
    /// Time the file was last changed.
    pub modified: Option<Vec<u8>>,
    /// Date stamp of the satellite positioning data.
    pub gps: Option<Vec<u8>>,
}

impl MetadataFields {
    /// The date fields of parsed metadata: the original capture time, the
    /// digitized time, the modification time and the positioning date stamp.
    pub fn from_exif(exif: &exif::Exif) -> (r: MetadataFields)
        ensures
            raw_view(r.original) == text_at(primary_date_texts(*exif), 0),
            raw_view(r.digitized) == text_at(primary_date_texts(*exif), 1),
            raw_view(r.modified) == text_at(primary_date_texts(*exif), 2),
            raw_view(r.gps) == text_at(primary_date_texts(*exif), 3),
    {
        MetadataFields {
            original: primary_text_field(exif, DateField::Original),
            digitized: primary_text_field(exif, DateField::Digitized),
            modified: primary_text_field(exif, DateField::Modified),
            gps: primary_text_field(exif, DateField::Gps),
        }
    }
}

pub open spec fn raw_view(field: Option<Vec<u8>>) -> Option<Seq<u8>> {
    match field {
        Some(v) => Some(v@),
        None => None,
    }
}

/// The timestamp that date text stands for, when it is well formed.
pub open spec fn parse_date_text(s: Seq<u8>) -> Option<SortedDayTime> {
    if is_date_text(s) {
        Some(
            SortedDayTime {
                year: four_digits(s, 0) as u16,
                month: two_digits(s, 5) as u8,
                day: two_digits(s, 8) as u8,
                hour: two_digits(s, 11) as u8,
                minute: two_digits(s, 14) as u8,
                second: two_digits(s, 17) as u8,
                nanosecond: None,
                offset: None,
            },
        )
    } else {
        None
    }
}

/// The candidate that one field yields: its parsed timestamp, if that
/// passes the range check.
pub open spec fn field_candidate(field: Option<Seq<u8>>) -> Option<SortedDayTime> {
    match field {
        Some(s) => match parse_date_text(s) {
            Some(t) => if t.is_valid() {
                Some(t)
            } else {
                None
            },
            None => None,
        },
        None => None,
    }
}

impl MetadataFields {
    /// The candidates of the four fields, in priority order.
    pub open spec fn candidates(&self) -> Seq<Option<SortedDayTime>> {
        seq![
            field_candidate(raw_view(self.original)),
            field_candidate(raw_view(self.digitized)),
            field_candidate(raw_view(self.modified)),
            field_candidate(raw_view(self.gps)),
        ]
    }
}

/// Keeps `best` unless `next` is a timestamp strictly before it.
pub open spec fn keep_earlier(best: Option<SortedDayTime>, next: Option<SortedDayTime>) -> Option<
    SortedDayTime,
> {
    match (best, next) {
        (None, n) => n,
        (Some(b), None) => Some(b),
        (Some(b), Some(n)) => if n.earlier(&b) {
            Some(n)
        } else {
            Some(b)
        },
    }
}

/// The earliest of the present candidates; of equal ones the first.
pub open spec fn earliest_of(cands: Seq<Option<SortedDayTime>>) -> Option<SortedDayTime>
    decreases cands.len(),
{
    if cands.len() == 0 {
        None
    } else {
        keep_earlier(earliest_of(cands.drop_last()), cands.last())
    }
}

/// The timestamp resolved from a picture's metadata; `None` means that no
/// field gave a usable timestamp.
pub open spec fn resolved(fields: &MetadataFields) -> Option<SortedDayTime> {
    earliest_of(fields.candidates())
}

/// Gives `new_date` when it holds a timestamp that passes the range check,
/// else `old_date`.
pub fn validate_or(new_date: Option<SortedDayTime>, old_date: Option<SortedDayTime>) -> (r: Option<
    SortedDayTime,
>)
    ensures
        r == (if new_date matches Some(d) && d.is_valid() {
            new_date
        } else {
            old_date
        }),
{
    if let Some(dt) = &new_date {
        if dt.is_valid_date() {
            return new_date;
        }
    }
    old_date
}

/// Reads the text of one date field and range checks it.
pub fn read_and_validate(field: &Option<Vec<u8>>) -> (r: Option<SortedDayTime>)
    ensures
        r == field_candidate(raw_view(*field)),
{
    if let Some(text) = field {
        if let Ok(new_date) = exif::DateTime::from_ascii(text.as_slice()) {
            return validate_or(Some(SortedDayTime::new(new_date)), None);
        }
    }
    None
}

/// The earliest of the present candidates, the first of equal ones; `None`
/// where no candidate is present.
pub fn select_earliest(cands: &Vec<Option<SortedDayTime>>) -> (r: Option<SortedDayTime>)
    ensures
        r == earliest_of(cands@),
{
    let mut best: Option<SortedDayTime> = None;
    let mut i: usize = 0;
    while i < cands.len()
        invariant
            i <= cands.len(),
            best == earliest_of(cands@.subrange(0, i as int)),
        decreases cands.len() - i,
    {
        assert(cands@.subrange(0, i + 1).drop_last() =~= cands@.subrange(0, i as int));
        let next = cands[i];
        best = match (best, next) {
            (None, n) => n,
            (Some(b), None) => Some(b),
            (Some(b), Some(n)) => if n.is_earlier_than(&b) {
                Some(n)
            } else {
                Some(b)
            },
        };
        i = i + 1;
    }
    assert(cands@.subrange(0, cands.len() as int) =~= cands@);
    best
}

/// The timestamp of a picture: of the valid timestamps in its four date
/// fields the earliest, and of equal ones the one of the higher priority
/// field. `None` where no field holds a valid timestamp.
pub fn resolve(fields: &MetadataFields) -> (r: Option<SortedDayTime>)
    ensures
        r == resolved(fields),
{
    let orig = read_and_validate(&fields.original);
    let digi = read_and_validate(&fields.digitized);
    let create = read_and_validate(&fields.modified);
    let gps = read_and_validate(&fields.gps);
    let cands = vec![orig, digi, create, gps];
    assert(cands@ =~= fields.candidates());
    select_earliest(&cands)
}

/// The result of `earliest_of` is `None` exactly when no candidate is
/// present; otherwise it is one of the candidates, no present candidate
/// precedes it, and every candidate before it in priority comes strictly
/// later in time.
pub proof fn lemma_earliest_is_first_minimum(cands: Seq<Option<SortedDayTime>>)
    ensures
        earliest_of(cands) is None <==> forall|i: int| 0 <= i < cands.len() ==> cands[i] is None,
        earliest_of(cands) matches Some(r) ==> exists|k: int|
            0 <= k < cands.len() && cands[k] == Some(r) && (forall|j: int|
                0 <= j < k ==> (#[trigger] cands[j] matches Some(c) ==> r.earlier(&c))),
        earliest_of(cands) matches Some(r) ==> forall|j: int|
            0 <= j < cands.len() ==> (#[trigger] cands[j] matches Some(c) ==> !c.earlier(&r)),
    decreases cands.len(),
{
    if cands.len() > 0 {
        let init = cands.drop_last();
        lemma_earliest_is_first_minimum(init);
        assert forall|i: int| 0 <= i < init.len() implies init[i] == cands[i] by {}
        match earliest_of(init) {
            None => {
                if let Some(n) = cands.last() {
                    let k = cands.len() - 1;
                    assert(cands[k] == Some(n));
                    assert forall|j: int| 0 <= j < k implies (#[trigger] cands[j] matches Some(
                        c,
                    ) ==> n.earlier(&c)) by {
                        assert(init[j] is None);
                    }
                    assert forall|j: int| 0 <= j < cands.len() implies (#[trigger] cands[j] matches Some(
                        c,
                    ) ==> !c.earlier(&n)) by {
                        if j < k {
                            assert(init[j] is None);
                        }
                        SortedDayTime::lemma_irreflexive(n);
                    }
                }
            },
            Some(b) => {
                let k0 = choose|k: int|
                    0 <= k < init.len() && init[k] == Some(b) && (forall|j: int|
                        0 <= j < k ==> (#[trigger] init[j] matches Some(c) ==> b.earlier(&c)));
                match cands.last() {
                    None => {
                        assert(cands[k0] == Some(b));
                        assert forall|j: int| 0 <= j < k0 implies (#[trigger] cands[j] matches Some(
                            c,
                        ) ==> b.earlier(&c)) by {
                            assert(init[j] == cands[j]);
                        }
                        assert forall|j: int| 0 <= j < cands.len() implies (#[trigger] cands[j] matches Some(
                            c,
                        ) ==> !c.earlier(&b)) by {
                            if j < cands.len() - 1 {
                                assert(init[j] == cands[j]);
                            }
                        }
                    },
                    Some(n) => {
                        if n.earlier(&b) {
                            let k = cands.len() - 1;
                            assert(cands[k] == Some(n));
                            assert forall|j: int| 0 <= j < k implies (#[trigger] cands[j] matches Some(
                                c,
                            ) ==> n.earlier(&c)) by {
                                assert(init[j] == cands[j]);
                                if let Some(c) = cands[j] {
                                    assert(!c.earlier(&b));
                                    SortedDayTime::lemma_earlier_then_not_later(n, b, c);
                                }
                            }
                            assert forall|j: int| 0 <= j < cands.len() implies (#[trigger] cands[j] matches Some(
                                c,
                            ) ==> !c.earlier(&n)) by {
                                SortedDayTime::lemma_irreflexive(n);
                                if j < k {
                                    assert(init[j] == cands[j]);
                                    if let Some(c) = cands[j] {
                                        assert(!c.earlier(&b));
                                        SortedDayTime::lemma_earlier_then_not_later(n, b, c);
                                    }
                                }
                            }
                        } else {
                            assert(cands[k0] == Some(b));
                            assert forall|j: int| 0 <= j < k0 implies (#[trigger] cands[j] matches Some(
                                c,
                            ) ==> b.earlier(&c)) by {
                                assert(init[j] == cands[j]);
                            }
                            assert forall|j: int| 0 <= j < cands.len() implies (#[trigger] cands[j] matches Some(
                                c,
                            ) ==> !c.earlier(&b)) by {
                                if j < cands.len() - 1 {
                                    assert(init[j] == cands[j]);
                                }
                            }
                        }
                    },
                }
            },
        }
    }
}

/// Where no date field holds a valid timestamp, the picture has no usable
/// timestamp.
pub proof fn lemma_no_valid_field_no_timestamp(fields: &MetadataFields)
    requires
        forall|i: int| 0 <= i < 4 ==> #[trigger] fields.candidates()[i] is None,
    ensures
        resolved(fields) is None,
{
    lemma_earliest_is_first_minimum(fields.candidates());
}

/// Where exactly one date field holds a valid timestamp, that timestamp is
/// the resolved one.
pub proof fn lemma_single_valid_field_wins(fields: &MetadataFields, k: int)
    requires
        0 <= k < 4,
        fields.candidates()[k] is Some,
        forall|i: int| 0 <= i < 4 && i != k ==> #[trigger] fields.candidates()[i] is None,
    ensures
        resolved(fields) == fields.candidates()[k],
{
    let cands = fields.candidates();
    lemma_earliest_is_first_minimum(cands);
    let r = resolved(fields)->Some_0;
    let j = choose|j: int| 0 <= j < cands.len() && cands[j] == Some(r) && (forall|i: int|
        0 <= i < j ==> (#[trigger] cands[i] matches Some(c) ==> r.earlier(&c)));
    assert(j == k);
}

/// Of two valid timestamps in the date fields, the later one in time is
/// never the resolved one, whatever fields the two stand in; where no other
/// field holds a valid timestamp, the earlier one is resolved.
pub proof fn lemma_earlier_field_wins(fields: &MetadataFields, i: int, j: int)
    requires
        0 <= i < 4,
        0 <= j < 4,
        fields.candidates()[i] matches Some(a) && fields.candidates()[j] matches Some(b)
            && a.earlier(&b),
    ensures
        resolved(fields) is Some,
        resolved(fields) != fields.candidates()[j],
        resolved(fields)->Some_0.earlier(&fields.candidates()[j]->Some_0),
        (forall|k: int| 0 <= k < 4 && k != i && k != j ==> #[trigger] fields.candidates()[k] is None)
            ==> resolved(fields) == fields.candidates()[i],
{
    let cands = fields.candidates();
    lemma_earliest_is_first_minimum(cands);
    let a = cands[i]->Some_0;
    let b = cands[j]->Some_0;
    let r = resolved(fields)->Some_0;
    assert(cands[i] matches Some(c) ==> !c.earlier(&r));
    SortedDayTime::lemma_earlier_then_not_later(r, a, b);
    assert(!a.earlier(&r));
    SortedDayTime::lemma_not_later_earlier(r, a, b);
    SortedDayTime::lemma_irreflexive(b);
    if forall|k: int| 0 <= k < 4 && k != i && k != j ==> #[trigger] cands[k] is None {
        let m = choose|m: int| 0 <= m < cands.len() && cands[m] == Some(r) && (forall|l: int|
            0 <= l < m ==> (#[trigger] cands[l] matches Some(c) ==> r.earlier(&c)));
        assert(m == i || m == j);
    }
}

} // verus!
