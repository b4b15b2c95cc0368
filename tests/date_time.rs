use dick_sort::date_time::SortedDayTime;
use exif::DateTime as ExifDateTime;

#[test]
fn dick_sort_gt_ge_let_le() {
    let younger = ExifDateTime::from_ascii(b"2016:05:04 03:02:01").expect("should be ok");
    let older = ExifDateTime::from_ascii(b"2016:05:04 03:02:00").expect("should be ok");

    let younger = SortedDayTime::from(younger);
    let older = SortedDayTime::from(older);
    assert!(younger > older);
    assert!(younger >= older);
    assert!(older < younger);
    assert!(older <= younger);
}

#[test]
fn dick_sort_eq() {
    let a = ExifDateTime::from_ascii(b"2016:05:04 03:02:00").expect("should be ok");
    let also_a = ExifDateTime::from_ascii(b"2016:05:04 03:02:00").expect("should be ok");

    let b = SortedDayTime::from(a);
    let still_a = SortedDayTime::from(also_a);
    assert_eq!(b, still_a);
}

#[test]
fn dicksort_gt_ge_let_le() {
    let younger = ExifDateTime::from_ascii(b"2016:05:04 03:02:01").expect("should be ok");
    let older = ExifDateTime::from_ascii(b"2016:05:04 03:02:00").expect("should be ok");

    let younger = SortedDayTime::new(younger);
    let older = SortedDayTime::new(older);
    assert!(younger > older);
    assert!(younger >= older);
    assert!(older < younger);
    assert!(older <= younger);
}

#[test]
fn dicksort_eq() {
    let a = ExifDateTime::from_ascii(b"2016:05:04 03:02:00").expect("should be ok");
    let also_a = ExifDateTime::from_ascii(b"2016:05:04 03:02:00").expect("should be ok");

    let b = SortedDayTime::new(a);
    let still_a = SortedDayTime::new(also_a);
    assert_eq!(b, still_a);
}

fn at(year: u16, month: u8, day: u8, hour: u8, minute: u8, second: u8) -> SortedDayTime {
    SortedDayTime { year, month, day, hour, minute, second, nanosecond: None, offset: None }
}

#[test]
fn order_is_lexicographic_over_the_six_fields() {
    assert!(at(2015, 12, 31, 23, 59, 59) < at(2016, 1, 1, 0, 0, 0));
    assert!(at(2016, 1, 31, 0, 0, 0) < at(2016, 2, 1, 0, 0, 0));
    assert!(at(2016, 2, 1, 23, 0, 0) < at(2016, 2, 2, 0, 0, 0));
    assert!(at(2016, 2, 2, 1, 59, 0) < at(2016, 2, 2, 2, 0, 0));
    assert!(at(2016, 2, 2, 2, 0, 59) < at(2016, 2, 2, 2, 1, 0));
    assert!(at(2016, 2, 2, 2, 1, 0).is_earlier_than(&at(2016, 2, 2, 2, 1, 1)));
    assert!(!at(2016, 2, 2, 2, 1, 1).is_earlier_than(&at(2016, 2, 2, 2, 1, 1)));
}

#[test]
fn sub_second_and_offset_take_no_part_in_comparison() {
    let mut a = at(2016, 5, 4, 3, 2, 0);
    let mut b = at(2016, 5, 4, 3, 2, 0);
    a.nanosecond = Some(900_000_000);
    a.offset = Some(60);
    b.offset = Some(-120);
    assert_eq!(a, b);
    assert_eq!(a.partial_cmp(&b), Some(std::cmp::Ordering::Equal));
}

#[test]
fn range_check_of_month_day_and_year() {
    assert!(at(2016, 5, 4, 0, 0, 0).is_valid_date());
    assert!(at(1, 1, 1, 0, 0, 0).is_valid_date());
    assert!(at(2016, 12, 31, 0, 0, 0).is_valid_date());
    assert!(!at(0, 5, 4, 0, 0, 0).is_valid_date());
    assert!(!at(2016, 0, 4, 0, 0, 0).is_valid_date());
    assert!(!at(2016, 13, 4, 0, 0, 0).is_valid_date());
    assert!(!at(2016, 5, 0, 0, 0, 0).is_valid_date());
    assert!(!at(2016, 5, 32, 0, 0, 0).is_valid_date());
}
