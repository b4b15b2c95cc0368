use dick_sort::date_time::SortedDayTime;
use dick_sort::resolver::{read_and_validate, resolve, select_earliest, validate_or, MetadataFields};

fn text(s: &str) -> Option<Vec<u8>> {
    Some(s.as_bytes().to_vec())
}

fn fields(
    original: Option<Vec<u8>>,
    digitized: Option<Vec<u8>>,
    modified: Option<Vec<u8>>,
    gps: Option<Vec<u8>>,
) -> MetadataFields {
    MetadataFields { original, digitized, modified, gps }
}

fn day(t: &SortedDayTime) -> (u16, u8, u8, u8, u8, u8) {
    (t.year, t.month, t.day, t.hour, t.minute, t.second)
}

#[test]
fn no_field_gives_no_timestamp() {
    assert!(resolve(&fields(None, None, None, None)).is_none());
}

#[test]
fn only_invalid_fields_give_no_timestamp() {
    let f = fields(
        text("2016:13:04 03:02:01"),
        text("2016:05:00 03:02:01"),
        text("0000:05:04 03:02:01"),
        text("    :  :     :  :  "),
    );
    assert!(resolve(&f).is_none());
    let f = fields(text("garbage"), text("2016-05-04 03:02:01"), text(""), text("2016:05:04"));
    assert!(resolve(&f).is_none());
}

#[test]
fn single_valid_field_is_resolved_whatever_its_kind() {
    let t = text("2019:07:08 09:10:11");
    let cases = [
        fields(t.clone(), None, None, None),
        fields(None, t.clone(), text("2016:13:01 00:00:00"), None),
        fields(text("bad"), None, t.clone(), None),
        fields(None, None, None, t.clone()),
    ];
    for f in cases.iter() {
        let r = resolve(f).expect("one valid field");
        assert_eq!(day(&r), (2019, 7, 8, 9, 10, 11));
    }
}

#[test]
fn earlier_timestamp_wins_regardless_of_field_kind() {
    let early = text("2010:01:02 03:04:05");
    let late = text("2012:01:02 03:04:05");
    let r = resolve(&fields(late.clone(), None, None, early.clone())).unwrap();
    assert_eq!(day(&r), (2010, 1, 2, 3, 4, 5));
    let r = resolve(&fields(early.clone(), None, None, late.clone())).unwrap();
    assert_eq!(day(&r), (2010, 1, 2, 3, 4, 5));
    let r = resolve(&fields(None, late.clone(), early.clone(), None)).unwrap();
    assert_eq!(day(&r), (2010, 1, 2, 3, 4, 5));
    let r = resolve(&fields(
        text("2011:06:06 06:06:06"),
        late,
        text("2010:01:02 03:04:06"),
        early,
    ))
    .unwrap();
    assert_eq!(day(&r), (2010, 1, 2, 3, 4, 5));
}

#[test]
fn invalid_capture_month_falls_back_to_digitized() {
    let f = fields(text("2021:13:01 10:00:00"), text("2020:01:01 00:00:00"), None, None);
    let r = resolve(&f).unwrap();
    assert_eq!((r.year, r.month, r.day), (2020, 1, 1));
}

#[test]
fn equal_timestamps_resolve_to_that_timestamp() {
    let t = text("2018:02:03 04:05:06");
    let r = resolve(&fields(t.clone(), t.clone(), t.clone(), t)).unwrap();
    assert_eq!(day(&r), (2018, 2, 3, 4, 5, 6));
}

#[test]
fn date_text_parses_with_trailing_bytes() {
    let r = read_and_validate(&text("2016:05:04 03:02:01\0")).unwrap();
    assert_eq!(day(&r), (2016, 5, 4, 3, 2, 1));
    assert_eq!(r.nanosecond, None);
    assert_eq!(r.offset, None);
    assert!(read_and_validate(&text("2016:05:04 03:02:0")).is_none());
    assert!(read_and_validate(&text("2016:05:04T03:02:01")).is_none());
    assert!(read_and_validate(&None).is_none());
}

#[test]
fn validate_or_keeps_old_for_invalid_new() {
    let good = SortedDayTime {
        year: 2016, month: 5, day: 4, hour: 0, minute: 0, second: 0, nanosecond: None, offset: None,
    };
    let mut bad = good;
    bad.month = 13;
    assert_eq!(validate_or(Some(good), None), Some(good));
    assert_eq!(validate_or(Some(bad), Some(good)), Some(good));
    assert!(validate_or(Some(bad), None).is_none());
    assert!(validate_or(None, None).is_none());
}

#[test]
fn select_earliest_keeps_first_of_equal() {
    let mut a = SortedDayTime {
        year: 2016, month: 5, day: 4, hour: 3, minute: 2, second: 1, nanosecond: None, offset: None,
    };
    let mut b = a;
    a.offset = Some(1);
    b.offset = Some(2);
    let r = select_earliest(&vec![None, Some(a), Some(b)]).unwrap();
    assert_eq!(r.offset, Some(1));
    assert!(select_earliest(&vec![None, None]).is_none());
    assert!(select_earliest(&vec![]).is_none());
}
