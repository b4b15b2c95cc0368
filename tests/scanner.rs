use dick_sort::resolver::MetadataFields;
use dick_sort::scanner::{is_image_path_exec, Scanner};

fn dated(s: &str) -> MetadataFields {
    MetadataFields { original: Some(s.as_bytes().to_vec()), digitized: None, modified: None, gps: None }
}

fn undated() -> MetadataFields {
    MetadataFields { original: None, digitized: None, modified: None, gps: None }
}

#[test]
fn picture_extensions_in_any_case() {
    assert!(is_image_path_exec("/src/a.jpg"));
    assert!(is_image_path_exec("/src/a.JPG"));
    assert!(is_image_path_exec("/src/a.Jpeg"));
    assert!(is_image_path_exec("/src/a.b.heic"));
    assert!(is_image_path_exec("a.HEIC"));
    assert!(!is_image_path_exec("/src/a.png"));
    assert!(!is_image_path_exec("/src/a.jpgx"));
    assert!(!is_image_path_exec("/src/.jpg"));
    assert!(!is_image_path_exec("/src/jpg"));
    assert!(!is_image_path_exec("/src.jpg/a"));
}

#[test]
fn scan_visits_directories_breadth_first() {
    let mut s = Scanner::new("/src".to_string(), true);
    assert_eq!(s.remaining_dirs(), 1);
    assert_eq!(s.next_dir(), Some("/src".to_string()));
    s.found_dir("/src/a".to_string());
    s.found_dir("/src/b".to_string());
    assert_eq!(s.next_dir(), Some("/src/a".to_string()));
    s.found_dir("/src/a/c".to_string());
    assert_eq!(s.remaining_dirs(), 2);
    assert_eq!(s.next_dir(), Some("/src/b".to_string()));
    assert_eq!(s.next_dir(), Some("/src/a/c".to_string()));
    assert!(s.is_done());
    assert_eq!(s.next_dir(), None);
}

#[test]
fn scan_without_recursion_skips_subdirectories() {
    let mut s = Scanner::new("/src".to_string(), false);
    assert_eq!(s.next_dir(), Some("/src".to_string()));
    s.found_dir("/src/sub".to_string());
    assert!(s.is_done());
    assert_eq!(s.next_dir(), None);
}

#[test]
fn pictures_without_timestamp_are_left_out() {
    let mut s = Scanner::new("/src".to_string(), false);
    s.found_image("/src/a.jpg".to_string(), &dated("2016:05:04 03:02:01"));
    s.found_image("/src/b.jpg".to_string(), &undated());
    s.found_image("/src/c.jpg".to_string(), &dated("2016:13:04 03:02:01"));
    s.found_image("/src/d.jpg".to_string(), &dated("2001:01:01 00:00:00"));
    assert_eq!(s.collected_files(), 2);
    let files = s.into_files();
    assert_eq!(files[0].source, "/src/a.jpg");
    assert_eq!(files[0].date_time.year, 2016);
    assert_eq!(files[1].source, "/src/d.jpg");
    assert_eq!(files[1].date_time.year, 2001);
}

#[test]
fn only_picture_files_enter_the_queue() {
    let mut s = Scanner::new("/src".to_string(), false);
    s.found_image("/src/notes.txt".to_string(), &dated("2016:05:04 03:02:01"));
    s.found_image("/src/.jpg".to_string(), &dated("2016:05:04 03:02:01"));
    s.found_image("/src/a.JPEG".to_string(), &dated("2016:05:04 03:02:01"));
    assert_eq!(s.collected_files(), 1);
    assert_eq!(s.into_files()[0].source, "/src/a.JPEG");
}
