use ql_printer::printer::constants::{
    is_supported_printer, label_data, needs_editor_lite_notice, printer_name_from_id, VENDOR_ID,
};
use ql_printer::printer::status::{
    interpret_response, Media, MediaType, Notification, PhaseType, Response, StatusType,
};
use ql_printer::printer::PrinterError;

fn frame(status: u8, phase: u8, notification: u8, e1: u8, e2: u8) -> [u8; 32] {
    let mut f = [0u8; 32];
    f[0] = 0x80;
    f[1] = 0x20;
    f[2] = 0x42;
    f[3] = 0x34;
    f[4] = 0x38;
    f[5] = 0x30;
    f[6] = 0x30;
    f[8] = e1;
    f[9] = e2;
    f[10] = 62;
    f[11] = 0x0A;
    f[17] = 0;
    f[18] = status;
    f[19] = phase;
    f[22] = notification;
    f
}

fn printer_message(r: Result<Response, PrinterError>) -> String {
    match r {
        Err(PrinterError::Printer(m)) => m,
        other => panic!("expected a protocol error, got {:?}", other),
    }
}

#[test]
fn parses_waiting_reply_on_endless_tape() {
    let r = interpret_response(&frame(0, 0, 0, 0, 0)).unwrap();
    assert_eq!(r.model, "QL-800");
    assert_eq!(r.status_type, StatusType::ReplyToStatusRequest);
    assert_eq!(r.phase_type, PhaseType::WaitingToReceive);
    assert_eq!(r.notification, Notification::NotAvailable);
    assert!(r.errors.is_empty());
    assert_eq!(r.media, Media { media_type: MediaType::ContinuousTape, width: 62, length: 0 });
}

#[test]
fn parses_each_status_phase_and_notification_code() {
    let kinds = [
        (0u8, StatusType::ReplyToStatusRequest),
        (1, StatusType::PrintingCompleted),
        (2, StatusType::ErrorOccurred),
        (4, StatusType::TurnedOff),
        (5, StatusType::Notification),
        (6, StatusType::PhaseChange),
    ];
    for (code, kind) in kinds {
        assert_eq!(interpret_response(&frame(code, 0, 0, 0, 0)).unwrap().status_type, kind);
    }
    assert_eq!(interpret_response(&frame(0, 1, 0, 0, 0)).unwrap().phase_type, PhaseType::PrintingState);
    assert_eq!(
        interpret_response(&frame(5, 1, 3, 0, 0)).unwrap().notification,
        Notification::CoolingStarted
    );
    assert_eq!(
        interpret_response(&frame(5, 1, 4, 0, 0)).unwrap().notification,
        Notification::CoolingFinished
    );
}

#[test]
fn parses_media_type_codes() {
    let cases = [
        (0x0Au8, MediaType::ContinuousTape),
        (0x4A, MediaType::ContinuousTape),
        (0x0B, MediaType::DieCutLabels),
        (0x4B, MediaType::DieCutLabels),
        (0x00, MediaType::NoMedia),
    ];
    for (code, kind) in cases {
        let mut f = frame(0, 0, 0, 0, 0);
        f[11] = code;
        assert_eq!(interpret_response(&f).unwrap().media.media_type, kind);
    }
}

#[test]
fn invalid_media_is_reported() {
    let mut f = frame(0, 0, 0, 0, 0);
    f[11] = 0x77;
    assert_eq!(printer_message(interpret_response(&f)), "unknown media type");
}

#[test]
fn error_flags_are_listed_in_table_order() {
    let r = interpret_response(&frame(2, 0, 0, 0x01 | 0x08 | 0x80, 0x10 | 0x80)).unwrap();
    assert_eq!(r.errors, vec!["No media", "Fan", "Cover open", "System error"]);
    let all = interpret_response(&frame(2, 0, 0, 0xFF, 0xFF)).unwrap();
    assert_eq!(all.errors.len(), 15);
    assert_eq!(all.errors[2], "Tape cutter jam");
    assert_eq!(all.errors[7], "Replace media");
}

#[test]
fn rejects_frames_that_break_fixed_bytes() {
    let mut bad_mark = frame(0, 0, 0, 0, 0);
    bad_mark[0] = 0x81;
    assert_eq!(
        printer_message(interpret_response(&bad_mark)),
        "Invalid response from printer: bad frame header"
    );
    let mut series = frame(0, 0, 0, 0, 0);
    series[3] = 0x30;
    assert_eq!(
        printer_message(interpret_response(&series)),
        "Invalid response from printer: unknown series code"
    );
    let mut model = frame(0, 0, 0, 0, 0);
    model[4] = 0x35;
    assert_eq!(printer_message(interpret_response(&model)), "Unknown model");
    let mut reserved = frame(0, 0, 0, 0, 0);
    reserved[7] = 1;
    assert_eq!(
        printer_message(interpret_response(&reserved)),
        "Invalid response from printer: reserved bytes 5 to 7"
    );
    let mut older = frame(0, 0, 0, 0, 0);
    older[6] = 0x00;
    assert!(interpret_response(&older).is_ok());
    let mut reserved16 = frame(0, 0, 0, 0, 0);
    reserved16[16] = 2;
    assert_eq!(
        printer_message(interpret_response(&reserved16)),
        "Invalid response from printer: reserved bytes 12, 13, 16"
    );
    assert_eq!(
        printer_message(interpret_response(&frame(3, 0, 0, 0, 0))),
        "Invalid status type from printer"
    );
    assert_eq!(
        printer_message(interpret_response(&frame(0, 2, 0, 0, 0))),
        "Invalid phase type from printer"
    );
    assert_eq!(
        printer_message(interpret_response(&frame(0, 0, 1, 0, 0))),
        "Invalid notification from printer"
    );
}

#[test]
fn trailing_reserved_bytes_are_not_checked() {
    let mut f = frame(0, 0, 0, 0, 0);
    f[14] = 0x3F;
    f[15] = 7;
    f[25] = 0x01;
    f[31] = 0xAA;
    assert!(interpret_response(&f).is_ok());
}

#[test]
fn status_round_trips_through_its_frame() {
    let f = frame(5, 1, 3, 0x04 | 0x40, 0x02 | 0x10);
    let r = interpret_response(&f).unwrap();
    let written = r.to_frame().unwrap();
    assert_eq!(written, f);
    let back = interpret_response(&written).unwrap();
    assert_eq!(back.errors, r.errors);
    assert_eq!(back.status_type, r.status_type);
    assert_eq!(back.phase_type, r.phase_type);
    assert_eq!(back.notification, r.notification);
    assert_eq!(back.media, r.media);
    assert_eq!(back.model, r.model);
}

#[test]
fn status_without_a_frame_is_not_written() {
    let mut r = interpret_response(&frame(0, 0, 0, 0, 0)).unwrap();
    r.model = "QL-700";
    assert!(r.to_frame().is_none());
    let mut r = interpret_response(&frame(0, 0, 0, 0, 0)).unwrap();
    r.errors = vec!["Cover open", "No media"];
    assert!(r.to_frame().is_none());
}

#[test]
fn label_catalogue_lookups() {
    let l = label_data(62, None).unwrap();
    assert_eq!(l.dots_printable, (696, 0));
    assert_eq!(l.feed_margin, 35);
    let d = label_data(29, Some(90)).unwrap();
    assert_eq!(d.dots_printable, (306, 991));
    assert_eq!(d.feed_margin, 0);
    assert!(label_data(61, None).is_none());
    assert!(label_data(62, Some(5)).is_none());
}

#[test]
fn current_label_resolves_or_reports_unknown_media() {
    let m = Media { media_type: MediaType::ContinuousTape, width: 29, length: 0 };
    assert_eq!(m.current_label().unwrap().dots_printable.0, 306);
    let die = Media { media_type: MediaType::DieCutLabels, width: 62, length: 100 };
    assert_eq!(die.to_label().dots_printable, (696, 1109));
    let unknown = Media { media_type: MediaType::ContinuousTape, width: 63, length: 0 };
    match unknown.current_label() {
        Err(PrinterError::Printer(m)) => assert_eq!(m, "Unknown media loaded in printer"),
        other => panic!("unexpected {:?}", other),
    }
}

#[test]
fn discovery_filters_and_flags_editor_lite_mode() {
    assert_eq!(printer_name_from_id(0x209B), Some("QL-800"));
    assert_eq!(printer_name_from_id(0x1234), None);
    assert!(is_supported_printer(VENDOR_ID, 0x209B));
    assert!(!is_supported_printer(0x1234, 0x209B));
    assert!(needs_editor_lite_notice(VENDOR_ID, 0x2049));
    assert!(is_supported_printer(VENDOR_ID, 0x2049));
    assert!(!is_supported_printer(0x1234, 0x2049));
    assert!(!needs_editor_lite_notice(VENDOR_ID, 0x209B));
    assert!(!needs_editor_lite_notice(0x1234, 0x2049));
}
