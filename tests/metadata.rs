use dick_sort::image::CopyImage;
use dick_sort::resolver::{resolve, MetadataFields};

fn entry(out: &mut Vec<u8>, tag: u16, typ: u16, count: u32, value: u32) {
    out.extend_from_slice(&tag.to_le_bytes());
    out.extend_from_slice(&typ.to_le_bytes());
    out.extend_from_slice(&count.to_le_bytes());
    out.extend_from_slice(&value.to_le_bytes());
}

/// A little-endian TIFF with `DateTime` in IFD0 and `DateTimeOriginal` in
/// the Exif IFD.
fn tiff(modified: &[u8; 19], original: &[u8; 19]) -> Vec<u8> {
    let mut out = vec![b'I', b'I', 42, 0, 8, 0, 0, 0];
    out.extend_from_slice(&2u16.to_le_bytes());
    entry(&mut out, 0x0132, 2, 20, 38);
    entry(&mut out, 0x8769, 4, 1, 58);
    out.extend_from_slice(&0u32.to_le_bytes());
    out.extend_from_slice(modified);
    out.push(0);
    out.extend_from_slice(&1u16.to_le_bytes());
    entry(&mut out, 0x9003, 2, 20, 76);
    out.extend_from_slice(&0u32.to_le_bytes());
    out.extend_from_slice(original);
    out.push(0);
    out
}

#[test]
fn date_fields_are_read_from_metadata() {
    let data = tiff(b"2019:01:02 03:04:05", b"2016:05:04 03:02:01");
    let exif = exif::Reader::new().read_raw(data).expect("well formed");
    let fields = MetadataFields::from_exif(&exif);
    assert_eq!(fields.original, Some(b"2016:05:04 03:02:01".to_vec()));
    assert_eq!(fields.modified, Some(b"2019:01:02 03:04:05".to_vec()));
    assert_eq!(fields.digitized, None);
    assert_eq!(fields.gps, None);
    let t = resolve(&fields).unwrap();
    assert_eq!((t.year, t.month, t.day), (2016, 5, 4));
}

#[test]
fn picture_with_metadata_becomes_a_work_item() {
    let data = tiff(b"2019:01:02 03:04:05", b"2021:13:04 03:02:01");
    let exif = exif::Reader::new().read_raw(data).expect("well formed");
    let fields = MetadataFields::from_exif(&exif);
    let image = CopyImage::from_metadata("/src/a.jpg".to_string(), &fields).ok().unwrap();
    assert_eq!(image.source, "/src/a.jpg");
    assert_eq!((image.date_time.year, image.date_time.month), (2019, 1));
}

#[test]
fn picture_without_usable_date_is_an_error() {
    let fields = MetadataFields { original: None, digitized: None, modified: None, gps: None };
    let err = CopyImage::from_metadata("/src/a.jpg".to_string(), &fields).err().unwrap();
    assert_eq!(err.msg, "No Date Time in file");
}
