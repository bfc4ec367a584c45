use ql_printer::printer::job::{Info, Page};
use ql_printer::printer::status::{Media, MediaType};

fn endless_62() -> Media {
    Media { media_type: MediaType::ContinuousTape, width: 62, length: 0 }
}

#[test]
fn new_job_has_the_defaults() {
    let info = Info::new(endless_62(), 7);
    assert_eq!(info.num_lines, 7);
    assert_eq!(info.page, Page::Other);
    assert!(info.prioritize_quality);
    assert_eq!(info.cut_each, 1);
    assert!(info.auto_cut);
    assert!(info.cut_at_end);
    assert!(!info.high_resolution);
}

#[test]
fn header_for_one_line_on_endless_tape() {
    let bytes = Info::new(endless_62(), 1).serialize();
    assert_eq!(
        bytes,
        vec![
            0x1B, 0x69, 0x7A, 0xCE, 0x0A, 62, 0, 1, 0, 0, 0, 1, 0, //
            0x1B, 0x69, 0x41, 1, //
            0x1B, 0x69, 0x4D, 0x40, //
            0x1B, 0x69, 0x4B, 0x08, //
            0x1B, 0x69, 0x64, 35, 0,
        ]
    );
    assert_eq!(bytes.len(), 30);
}

#[test]
fn header_fields_follow_the_job() {
    let mut info = Info::new(
        Media { media_type: MediaType::DieCutLabels, width: 29, length: 90 },
        0x0102_0304,
    );
    info.page = Page::Starting;
    info.prioritize_quality = false;
    info.cut_each = 3;
    info.auto_cut = false;
    info.cut_at_end = false;
    info.high_resolution = true;
    let bytes = info.serialize();
    assert_eq!(bytes.len(), 30);
    assert_eq!(&bytes[0..13], &[0x1B, 0x69, 0x7A, 0x8E, 0x0B, 29, 90, 4, 3, 2, 1, 0, 0]);
    assert_eq!(&bytes[13..17], &[0x1B, 0x69, 0x41, 3]);
    assert_eq!(&bytes[17..21], &[0x1B, 0x69, 0x4D, 0]);
    assert_eq!(&bytes[21..25], &[0x1B, 0x69, 0x4B, 0x40]);
    assert_eq!(&bytes[25..30], &[0x1B, 0x69, 0x64, 0, 0]);
}
