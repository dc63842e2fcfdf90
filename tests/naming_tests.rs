use ospl::get_filename_from;
use ospl::naming::{derive_display_name, fingerprint, sniff};
use ospl::timestamp::ClockReading;
use ospl::Timestamp;

fn at(year: u32, month: u32, day: u32, hour: u32, minute: u32, second: u32, micro: u32) -> Timestamp {
    Timestamp { year, month, day, hour, minute, second, micro }
}

#[test]
fn timestamp_format_pads_every_field() {
    let t = at(2019, 3, 7, 8, 5, 9, 42);
    assert_eq!(t.format(), "2019-03-07_08-05-09-000042");
}

#[test]
fn timestamp_format_pads_short_year() {
    let t = at(7, 12, 31, 23, 59, 59, 999999);
    assert_eq!(t.format(), "0007-12-31_23-59-59-999999");
}

#[test]
fn display_name_is_time_then_basename() {
    let t = at(2023, 1, 15, 14, 30, 0, 123456);
    assert_eq!(
        derive_display_name(&t, "test_photo_light.jpg"),
        "2023-01-15_14-30-00-123456_test_photo_light.jpg"
    );
}

#[test]
fn same_basename_one_microsecond_apart_gets_distinct_names() {
    let a = derive_display_name(&at(2023, 1, 15, 14, 30, 0, 1), "test_photo_light.jpg");
    let b = derive_display_name(&at(2023, 1, 15, 14, 30, 0, 2), "test_photo_light.jpg");
    assert_ne!(a, b);
    assert!(a < b);
}

#[test]
fn filename_of_a_relative_path() {
    assert_eq!(
        get_filename_from("tests/files/test_photo_light.jpg"),
        Some("test_photo_light.jpg".to_string())
    );
}

#[test]
fn filename_of_a_bare_name() {
    assert_eq!(get_filename_from("photo.png"), Some("photo.png".to_string()));
}

#[test]
fn filename_ignores_trailing_slashes() {
    assert_eq!(get_filename_from("/tmp/album//"), Some("album".to_string()));
}

#[test]
fn filename_skips_trailing_dot_components() {
    assert_eq!(get_filename_from("foo.txt/."), Some("foo.txt".to_string()));
    assert_eq!(get_filename_from("dir/photo.jpg/./"), Some("photo.jpg".to_string()));
    assert_eq!(get_filename_from("/."), None);
    assert_eq!(get_filename_from("a/.."), None);
}

#[test]
fn filename_of_paths_without_one() {
    assert_eq!(get_filename_from(""), None);
    assert_eq!(get_filename_from("/"), None);
    assert_eq!(get_filename_from("pictures/.."), None);
    assert_eq!(get_filename_from("."), None);
}

#[test]
fn fingerprint_depends_on_content() {
    let a = fingerprint(b"photo bytes");
    let b = fingerprint(b"photo bytes");
    let c = fingerprint(b"photo bytez");
    assert_eq!(a, b);
    assert_ne!(a, c);
}

#[test]
fn sniff_recognises_a_jpeg() {
    assert_eq!(sniff(&[0xFF, 0xD8, 0xFF, 0xE0, 0x00, 0x10]), Some(true));
}

#[test]
fn sniff_recognises_a_pdf_as_no_image() {
    assert_eq!(sniff(b"%PDF-1.7 rest of the file"), Some(false));
}

#[test]
fn sniff_knows_nothing_of_plain_bytes() {
    assert_eq!(sniff(&[0x00, 0x01, 0x02, 0x03]), None);
}

#[test]
fn clock_reading_with_five_digit_year_is_refused() {
    let c = ClockReading { year: 10000, month: 1, day: 1, hour: 0, minute: 0, second: 0, nano: 0 };
    assert_eq!(Timestamp::from_clock(c), None);
}

#[test]
fn clock_reading_keeps_whole_microseconds() {
    let c = ClockReading { year: 2024, month: 2, day: 29, hour: 23, minute: 59, second: 59, nano: 1_500_999_999 };
    assert_eq!(Timestamp::from_clock(c), Some(at(2024, 2, 29, 23, 59, 59, 500999)));
}

#[test]
fn clock_reading_is_a_calendar_date() {
    let c = ospl::timestamp::clock_reading().unwrap();
    assert!(c.year >= 1970);
    assert!(c.month >= 1 && c.month <= 12 && c.day >= 1 && c.day <= 31);
}

#[test]
fn clock_now_is_well_formed() {
    let t = Timestamp::now().unwrap();
    assert!(t.month >= 1 && t.month <= 12);
    assert_eq!(t.format().len(), 26);
}
