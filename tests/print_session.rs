use std::collections::VecDeque;

use ql_printer::printer::session::{
    classify_read, encode_for_media, read_step, select_endpoints, Action, EndpointInfo, Event, PrintJob, ReadOutcome,
    Stage, State, Wait,
};
use ql_printer::printer::status::{interpret_response, Media, MediaType, Response};
use ql_printer::printer::{Orientation, PrinterError, UsbError};
use ql_printer::raster::RgbaBitmap;

fn frame(status: u8, phase: u8, notification: u8, e2: u8) -> [u8; 32] {
    let mut f = [0u8; 32];
    f[..8].copy_from_slice(&[0x80, 0x20, 0x42, 0x34, 0x38, 0x30, 0x30, 0x00]);
    f[9] = e2;
    f[10] = 62;
    f[11] = 0x0A;
    f[18] = status;
    f[19] = phase;
    f[22] = notification;
    f
}

fn reply() -> [u8; 32] {
    frame(0, 0, 0, 0)
}
fn to_printing() -> [u8; 32] {
    frame(6, 1, 0, 0)
}
fn completed() -> [u8; 32] {
    frame(1, 1, 0, 0)
}
fn to_waiting() -> [u8; 32] {
    frame(6, 0, 0, 0)
}
fn cooling_started() -> [u8; 32] {
    frame(5, 1, 3, 0)
}
fn cooling_finished() -> [u8; 32] {
    frame(5, 1, 4, 0)
}

fn copy_frames() -> Vec<[u8; 32]> {
    vec![to_printing(), completed(), to_waiting()]
}

/// A scripted printer: serves frames in order and fails chosen writes.
struct FakeDevice {
    frames: VecDeque<[u8; 32]>,
    writes: Vec<(Vec<u8>, Wait)>,
    fail_write: Option<(usize, UsbError)>,
}

impl FakeDevice {
    fn new(frames: Vec<[u8; 32]>) -> Self {
        FakeDevice { frames: frames.into(), writes: Vec::new(), fail_write: None }
    }

    fn run(&mut self, mut job: PrintJob) -> Result<Response, PrinterError> {
        for _ in 0..100_000 {
            match job.action() {
                Action::Write(bytes, wait) => {
                    let index = self.writes.len();
                    self.writes.push((bytes, wait));
                    match self.fail_write {
                        Some((i, e)) if i == index => {
                            self.fail_write = None;
                            job.advance(Event::WriteFailed(e));
                        }
                        _ => job.advance(Event::Written),
                    }
                }
                Action::Read => {
                    let event = match self.frames.pop_front() {
                        Some(f) => match interpret_response(&f) {
                            Ok(r) => Event::Frame(r),
                            Err(e) => Event::ReadFailed(e),
                        },
                        None => Event::ReadFailed(PrinterError::Usb(UsbError::Io)),
                    };
                    job.advance(event);
                }
                Action::Finish => return job.finish(),
            }
        }
        panic!("the job did not finish");
    }

    fn bytes(&self) -> Vec<Vec<u8>> {
        self.writes.iter().map(|(b, _)| b.clone()).collect()
    }
}

fn one_dot_line() -> [u8; 90] {
    let mut line = [0u8; 90];
    line[89] = 0x01;
    line
}

fn expected_header(num_lines: u32) -> Vec<u8> {
    let n = num_lines.to_le_bytes();
    vec![
        0x1B, 0x69, 0x7A, 0xCE, 0x0A, 62, 0, n[0], n[1], n[2], n[3], 1, 0, 0x1B, 0x69, 0x41, 1,
        0x1B, 0x69, 0x4D, 0x40, 0x1B, 0x69, 0x4B, 0x08, 0x1B, 0x69, 0x64, 35, 0,
    ]
}

fn raster(line: &[u8; 90]) -> Vec<u8> {
    let mut v = vec![0x67, 0x00, 0x5A];
    v.extend_from_slice(line);
    v
}

#[test]
fn happy_path_one_copy_endless_tape() {
    let mut frames = vec![reply()];
    frames.extend(copy_frames());
    frames.push(reply());
    let mut dev = FakeDevice::new(frames);
    let status = dev.run(PrintJob::new(vec![one_dot_line()], 1, 1)).unwrap();
    assert_eq!(status.model, "QL-800");
    let writes = dev.bytes();
    assert_eq!(writes.len(), 7);
    assert_eq!(writes[0], vec![0u8; 400]);
    assert_eq!(dev.writes[0].1, Wait::Standard);
    assert_eq!(writes[1], vec![0u8; 400]);
    assert_eq!(dev.writes[1].1, Wait::General);
    assert_eq!(writes[2], vec![0x1B, 0x69, 0x53]);
    assert_eq!(writes[3], expected_header(1));
    assert_eq!(writes[4].len(), 93);
    assert_eq!(writes[4], raster(&one_dot_line()));
    assert_eq!(dev.writes[4].1, Wait::LinePrint);
    assert_eq!(writes[5], vec![0x1A]);
    assert_eq!(writes[6], vec![0x1B, 0x69, 0x53]);
    assert!(dev.frames.is_empty());
}

#[test]
fn two_copies_feed_only_after_the_last() {
    let mut frames = vec![reply()];
    frames.extend(copy_frames());
    frames.extend(copy_frames());
    frames.push(reply());
    let mut dev = FakeDevice::new(frames);
    dev.run(PrintJob::new(vec![one_dot_line(), one_dot_line()], 2, 1)).unwrap();
    let writes = dev.bytes();
    let terminators: Vec<&Vec<u8>> = writes.iter().filter(|w| w.len() == 1).collect();
    assert_eq!(terminators, vec![&vec![0x0C], &vec![0x1A]]);
    let headers = writes.iter().filter(|w| **w == expected_header(2)).count();
    assert_eq!(headers, 2);
    assert_eq!(writes.iter().filter(|w| w.len() == 93).count(), 4);
}

#[test]
fn cooling_pause_retries_the_same_line() {
    let lines: Vec<[u8; 90]> = (0..1000u32)
        .map(|i| {
            let mut l = [0u8; 90];
            l[0] = (i % 256) as u8;
            l[1] = (i / 256) as u8;
            l
        })
        .collect();
    let mut frames = vec![reply(), to_printing(), cooling_started(), cooling_finished()];
    frames.extend(vec![completed(), to_waiting(), reply()]);
    let mut dev = FakeDevice::new(frames);
    // Writes: invalidate, initialize, status request, header, then lines from index 4.
    dev.fail_write = Some((4 + 499, UsbError::Timeout));
    dev.run(PrintJob::new(lines.clone(), 1, 1)).unwrap();
    let writes = dev.bytes();
    assert_eq!(writes[4 + 499], raster(&lines[499]));
    assert_eq!(writes[4 + 500], raster(&lines[499]));
    assert_eq!(writes[4 + 501], raster(&lines[500]));
    assert_eq!(writes.iter().filter(|w| w.len() == 93).count(), 1001);
}

#[test]
fn cooling_keeps_the_copy_count() {
    let mut job = PrintJob::new(vec![one_dot_line(); 3], 2, 1);
    job.stage = Stage::Line(1);
    job.state = State::PrintingStarted;
    job.printed_copies = 1;
    job.media = interpret_response(&reply()).unwrap().media;
    job.advance(Event::WriteFailed(UsbError::Timeout));
    assert_eq!(job.stage, Stage::Cooling(1));
    job.advance(Event::Frame(interpret_response(&cooling_started()).unwrap()));
    assert_eq!((job.stage, job.state), (Stage::Cooling(1), State::Cooling));
    job.advance(Event::Frame(interpret_response(&cooling_finished()).unwrap()));
    assert_eq!((job.stage, job.state), (Stage::Line(1), State::PrintingStarted));
    assert_eq!(job.printed_copies, 1);
}

#[test]
fn invalid_media_stops_before_the_job() {
    let mut bad = reply();
    bad[11] = 0x77;
    let mut dev = FakeDevice::new(vec![bad]);
    match dev.run(PrintJob::new(vec![one_dot_line()], 1, 1)) {
        Err(PrinterError::Printer(m)) => assert_eq!(m, "unknown media type"),
        other => panic!("unexpected {:?}", other),
    }
    assert_eq!(dev.writes.len(), 3);
}

#[test]
fn cover_open_during_print_fails_the_job() {
    let mut frames = vec![reply(), to_printing(), frame(2, 1, 0, 0x10)];
    frames.push(reply());
    let mut dev = FakeDevice::new(frames);
    match dev.run(PrintJob::new(vec![one_dot_line()], 2, 1)) {
        Err(PrinterError::Printer(m)) => {
            assert!(m.contains("Cover open"));
            assert_eq!(m, "unexpected state during verification; Cover open");
        }
        other => panic!("unexpected {:?}", other),
    }
    // Nothing is written after the first copy's terminator.
    assert_eq!(dev.bytes().last().unwrap(), &vec![0x0C]);
    assert_eq!(dev.frames.len(), 1);
}

#[test]
fn wrong_phase_is_refused() {
    let mut dev = FakeDevice::new(vec![frame(0, 1, 0, 0)]);
    match dev.run(PrintJob::new(vec![one_dot_line()], 1, 1)) {
        Err(PrinterError::Printer(m)) => assert_eq!(m, "printer in invalid phase"),
        other => panic!("unexpected {:?}", other),
    }
}

#[test]
fn missing_or_unknown_media_is_refused() {
    let mut none = reply();
    none[11] = 0x00;
    let mut dev = FakeDevice::new(vec![none]);
    match dev.run(PrintJob::new(vec![one_dot_line()], 1, 1)) {
        Err(PrinterError::Printer(m)) => assert_eq!(m, "no media loaded"),
        other => panic!("unexpected {:?}", other),
    }
    let mut odd = reply();
    odd[10] = 63;
    let mut dev = FakeDevice::new(vec![odd]);
    match dev.run(PrintJob::new(vec![one_dot_line()], 1, 1)) {
        Err(PrinterError::Printer(m)) => assert_eq!(m, "Unknown media loaded in printer"),
        other => panic!("unexpected {:?}", other),
    }
}

#[test]
fn invalidate_retries_until_written() {
    let mut job = PrintJob::new(vec![one_dot_line()], 1, 1);
    job.advance(Event::WriteFailed(UsbError::Busy));
    job.advance(Event::WriteFailed(UsbError::Pipe));
    assert_eq!(job.stage, Stage::Invalidate);
    job.advance(Event::Written);
    assert_eq!(job.stage, Stage::Initialize);
    job.advance(Event::WriteFailed(UsbError::Busy));
    assert_eq!(job.stage, Stage::Failed);
    match job.finish() {
        Err(PrinterError::Usb(e)) => assert_eq!(e, UsbError::Busy),
        other => panic!("unexpected {:?}", other),
    }
}

#[test]
fn status_wait_tolerates_timeouts_until_expired() {
    let mut job = PrintJob::new(vec![one_dot_line()], 1, 1);
    job.advance(Event::Written);
    job.advance(Event::Written);
    job.advance(Event::Written);
    assert_eq!(job.stage, Stage::AwaitStatus);
    job.advance(Event::ReadFailed(PrinterError::Usb(UsbError::Timeout)));
    assert_eq!(job.stage, Stage::AwaitStatus);
    job.advance(Event::Expired);
    match job.finish() {
        Err(PrinterError::Usb(e)) => assert_eq!(e, UsbError::Timeout),
        other => panic!("unexpected {:?}", other),
    }
}

#[test]
fn other_line_errors_abort() {
    let mut dev = FakeDevice::new(vec![reply()]);
    dev.fail_write = Some((4, UsbError::NoDevice));
    match dev.run(PrintJob::new(vec![one_dot_line()], 1, 1)) {
        Err(PrinterError::Usb(e)) => assert_eq!(e, UsbError::NoDevice),
        other => panic!("unexpected {:?}", other),
    }
    assert_eq!(dev.writes.len(), 5);
}

#[test]
fn read_loop_transitions() {
    let r = |f: [u8; 32]| interpret_response(&f).unwrap();
    assert_eq!(read_step(State::Waiting, Some(&r(to_printing()))), (State::PrintingStarted, true));
    assert_eq!(read_step(State::PrintingStarted, Some(&r(completed()))), (State::PrintingFinished, true));
    assert_eq!(read_step(State::PrintingStarted, Some(&r(cooling_started()))), (State::Cooling, true));
    assert_eq!(read_step(State::PrintingFinished, Some(&r(to_waiting()))), (State::Waiting, false));
    assert_eq!(read_step(State::Cooling, Some(&r(cooling_finished()))), (State::PrintingStarted, false));
    assert_eq!(read_step(State::Waiting, Some(&r(completed()))), (State::Errored, false));
    assert_eq!(read_step(State::Cooling, Some(&r(completed()))), (State::Errored, false));
    assert_eq!(read_step(State::PrintingStarted, None), (State::Errored, false));
    assert_eq!(read_step(State::Errored, Some(&r(to_printing()))), (State::Errored, false));
}

#[test]
fn copy_round_trip_returns_to_waiting() {
    let r = |f: [u8; 32]| interpret_response(&f).unwrap();
    let (s1, more1) = read_step(State::Waiting, Some(&r(to_printing())));
    let (s2, more2) = read_step(s1, Some(&r(completed())));
    let (s3, more3) = read_step(s2, Some(&r(to_waiting())));
    assert_eq!((s3, more1, more2, more3), (State::Waiting, true, true, false));
}

#[test]
fn read_classification() {
    assert_eq!(classify_read(0, 0), ReadOutcome::Empty);
    assert_eq!(classify_read(31, 0x80), ReadOutcome::Malformed);
    assert_eq!(classify_read(32, 0x81), ReadOutcome::Malformed);
    assert_eq!(classify_read(32, 0x80), ReadOutcome::Complete);
}

#[test]
fn endpoint_selection() {
    let ep = |address: u8, is_bulk: bool, is_in: bool| EndpointInfo { address, is_bulk, is_in };
    let pair = vec![ep(0x81, true, true), ep(0x02, true, false)];
    assert_eq!(select_endpoints(1, 1, &pair).unwrap(), (0x81, 0x02));
    let device_message = |r: Result<(u8, u8), PrinterError>| match r {
        Err(PrinterError::Device(m)) => m,
        other => panic!("unexpected {:?}", other),
    };
    assert_eq!(
        device_message(select_endpoints(2, 1, &pair)),
        "Brother QL printers should have exactly one interface"
    );
    assert_eq!(
        device_message(select_endpoints(1, 2, &pair)),
        "Brother QL printers should have exactly one interface descriptor"
    );
    assert_eq!(
        device_message(select_endpoints(1, 1, &vec![ep(0x81, true, true), ep(0x83, false, true), ep(0x02, true, false)])),
        "Brother QL printers are defined as using only bulk endpoint communication"
    );
    assert_eq!(
        device_message(select_endpoints(1, 1, &vec![ep(0x81, true, true)])),
        "Input or output endpoint not found"
    );
    assert_eq!(
        device_message(select_endpoints(1, 1, &vec![ep(0x81, true, true), ep(0x83, true, true), ep(0x02, true, false)])),
        "Expected exactly one input and one output endpoint"
    );
}

#[test]
fn encodes_for_the_loaded_media() {
    let img = RgbaBitmap { width: 2, height: 1, pixels: vec![0, 0, 0, 255, 255, 255, 255, 255] };
    let endless = Media { media_type: MediaType::ContinuousTape, width: 62, length: 0 };
    let lines = encode_for_media(&endless, &img, Orientation::Normal, false).unwrap();
    assert_eq!(lines.len(), 348);
    let narrow = Media { media_type: MediaType::ContinuousTape, width: 29, length: 0 };
    assert_eq!(encode_for_media(&narrow, &img, Orientation::Rotated, false).unwrap().len(), 612);
    let unknown = Media { media_type: MediaType::ContinuousTape, width: 61, length: 0 };
    match encode_for_media(&unknown, &img, Orientation::Normal, false) {
        Err(PrinterError::Printer(m)) => assert_eq!(m, "Unknown media loaded in printer"),
        other => panic!("unexpected {:?}", other.map(|l| l.len())),
    }
    let tall = RgbaBitmap { width: 1, height: 1 << 24, pixels: vec![0; 4 << 24] };
    match encode_for_media(&endless, &tall, Orientation::Normal, false) {
        Err(PrinterError::Printer(m)) => assert_eq!(m, "image too large to print"),
        other => panic!("unexpected {:?}", other.map(|l| l.len())),
    }
}
