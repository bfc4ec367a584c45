//! The 32-byte status frame the printer sends, and its typed form.
//!
//! `parse_frame` states what a frame means; `interpret_response` computes it
//! and `Response::to_frame` writes a status back as a frame.

use vstd::prelude::*;

use crate::printer::constants::{label_spec, Label, label_data};
use crate::printer::{printer_error, PrinterError};

verus! {

/// Size in bytes of a status frame.
pub const PRINTER_STATUS_SIZE: usize = 32;

/// Kind of media loaded in the printer.
#[derive(Debug, Clone, Copy, PartialEq, Eq, Structural)]
pub enum MediaType {
    NoMedia,
    ContinuousTape,
    DieCutLabels,
}

/// The media loaded in the printer, as it reports it.
#[derive(Debug, Clone, Copy, PartialEq, Eq, Structural)]
pub struct Media {
    pub media_type: MediaType,
    /// Width in mm.
    pub width: u8,
    /// Length in mm; 0 for endless tape.
    pub length: u8,
}

/// The catalogue key of a reported length: none for endless tape.
pub open spec fn length_key(length: u8) -> Option<u8> {
    if length == 0 {
        None
    } else {
        Some(length)
    }
}

impl Media {
    /// The label of this media in the catalogue, if it has one.
    pub open spec fn label_view(&self) -> Option<Label> {
        label_spec(self.width, length_key(self.length))
    }

    /// Looks this media up in the label catalogue.
    pub fn label(&self) -> (r: Option<Label>)
        ensures
            r == self.label_view(),
    {
        let length = if self.length == 0 {
            None
        } else {
            Some(self.length)
        };
        label_data(self.width, length)
    }

    /// The catalogued label of this media, or an error naming unknown media.
    pub fn current_label(&self) -> (r: Result<Label, PrinterError>)
        ensures
            match self.label_view() {
                Some(l) => r == Ok::<Label, PrinterError>(l),
                None => r is Err && r->Err_0 is Printer && r->Err_0->Printer_0@
                    == "Unknown media loaded in printer"@,
            },
    {
        match self.label() {
            Some(l) => Ok(l),
            None => Err(printer_error("Unknown media loaded in printer")),
        }
    }

    /// The catalogued label of this media, which must have one.
    pub fn to_label(&self) -> (r: Label)
        requires
            self.label_view() is Some,
        ensures
            r == self.label_view()->0,
    {
        match self.label() {
            Some(l) => l,
            None => {
                proof {
                    assert(false);
                }
                Label { tape_size: (0, 0), dots_printable: (0, 0), feed_margin: 0 }
            },
        }
    }
}

/// Why the printer sent a frame.
#[derive(Debug, Clone, Copy, PartialEq, Eq, Structural)]
pub enum StatusType {
    ReplyToStatusRequest,
    PrintingCompleted,
    ErrorOccurred,
    TurnedOff,
    Notification,
    PhaseChange,
}

/// The printer's high-level mode.
#[derive(Debug, Clone, Copy, PartialEq, Eq, Structural)]
pub enum PhaseType {
    WaitingToReceive,
    PrintingState,
}

/// Asynchronous notices a frame may carry.
#[derive(Debug, Clone, Copy, PartialEq, Eq, Structural)]
pub enum Notification {
    NotAvailable,
    CoolingStarted,
    CoolingFinished,
}

/// A decoded status frame.
#[derive(Debug)]
pub struct Response {
    pub model: &'static str,
    pub status_type: StatusType,
    /// Messages of the error flags the printer raised, in table order.
    pub errors: Vec<&'static str>,
    pub phase_type: PhaseType,
    pub notification: Notification,
    pub media: Media,
}

/// The content of a `Response`, with its strings as character sequences.
pub struct StatusView {
    pub model: Seq<char>,
    pub status_type: StatusType,
    pub errors: Seq<Seq<char>>,
    pub phase_type: PhaseType,
    pub notification: Notification,
    pub media: Media,
}

/// The characters of each message.
pub open spec fn texts(v: Seq<&'static str>) -> Seq<Seq<char>> {
    v.map_values(|s: &'static str| s@)
}

impl View for Response {
    type V = StatusView;

    open spec fn view(&self) -> StatusView {
        StatusView {
            model: self.model@,
            status_type: self.status_type,
            errors: texts(self.errors@),
            phase_type: self.phase_type,
            notification: self.notification,
            media: self.media,
        }
    }
}

/// Whether single-bit `mask` is set in `byte`.
pub open spec fn bit_set(byte: u8, mask: u8) -> bool {
    byte / mask % 2 == 1
}

/// Whether `mask` has exactly one bit set.
pub open spec fn is_single_bit(mask: u8) -> bool {
    mask == 0x01 || mask == 0x02 || mask == 0x04 || mask == 0x08 || mask == 0x10 || mask == 0x20
        || mask == 0x40 || mask == 0x80
}

/// `msg` alone if `byte` has single-bit `mask` set, else nothing.
pub open spec fn flag(byte: u8, mask: u8, msg: Seq<char>) -> Seq<Seq<char>> {
    if bit_set(byte, mask) {
        seq![msg]
    } else {
        seq![]
    }
}

/// The messages of error byte 1, bit by bit, low bit first.
pub open spec fn first_byte_messages(e1: u8) -> Seq<Seq<char>> {
    flag(e1, 0x01, "No media"@) + flag(e1, 0x02, "End of media"@) + flag(e1, 0x04, "Tape cutter jam"@) + flag(e1, 0x10, "Main unit in use"@) + flag(e1, 0x20, "Printer turned off"@) + flag(e1, 0x40, "High-voltage adapter"@) + flag(e1, 0x80, "Fan"@)
}

/// The messages of error byte 2, bit by bit, low bit first.
pub open spec fn second_byte_messages(e2: u8) -> Seq<Seq<char>> {
    flag(e2, 0x01, "Replace media"@) + flag(e2, 0x02, "Expansion buffer full"@) + flag(e2, 0x04, "Communication error"@) + flag(e2, 0x08, "Communication buffer full"@) + flag(e2, 0x10, "Cover open"@) + flag(e2, 0x20, "Cancel key"@) + flag(e2, 0x40, "Cannot feed"@) + flag(e2, 0x80, "System error"@)
}

/// The messages of error bytes `e1` and `e2`, bit by bit, low bit first.
pub open spec fn error_messages(e1: u8, e2: u8) -> Seq<Seq<char>> {
    first_byte_messages(e1) + second_byte_messages(e2)
}

/// Model name of a model code.
pub open spec fn model_of(code: u8) -> Option<Seq<char>> {
    if code == 0x38 {
        Some("QL-800"@)
    } else {
        None
    }
}

/// Media type of a media type code.
pub open spec fn media_type_of(code: u8) -> Option<MediaType> {
    match code {
        0x0A | 0x4A => Some(MediaType::ContinuousTape),
        0x0B | 0x4B => Some(MediaType::DieCutLabels),
        0x00 => Some(MediaType::NoMedia),
        _ => None,
    }
}

/// Status type of a status type code.
pub open spec fn status_type_of(code: u8) -> Option<StatusType> {
    match code {
        0 => Some(StatusType::ReplyToStatusRequest),
        1 => Some(StatusType::PrintingCompleted),
        2 => Some(StatusType::ErrorOccurred),
        4 => Some(StatusType::TurnedOff),
        5 => Some(StatusType::Notification),
        6 => Some(StatusType::PhaseChange),
        _ => None,
    }
}

/// Phase type of a phase type code.
pub open spec fn phase_type_of(code: u8) -> Option<PhaseType> {
    match code {
        0 => Some(PhaseType::WaitingToReceive),
        1 => Some(PhaseType::PrintingState),
        _ => None,
    }
}

/// Notification of a notification code.
pub open spec fn notification_of(code: u8) -> Option<Notification> {
    match code {
        0 => Some(Notification::NotAvailable),
        3 => Some(Notification::CoolingStarted),
        4 => Some(Notification::CoolingFinished),
        _ => None,
    }
}

/// What a 32-byte frame `f` means: the status it reports, or the message of
/// the first check it fails. Bytes 14, 15, 20, 21 and 23 to 31 are not checked.
pub open spec fn parse_frame(f: Seq<u8>) -> Result<StatusView, Seq<char>> {
    if f[0] != 0x80 || f[1] != 0x20 || f[2] != 0x42 {
        Err("Invalid response from printer: bad frame header"@)
    } else if f[3] != 0x34 {
        Err("Invalid response from printer: unknown series code"@)
    } else if model_of(f[4]) is None {
        Err("Unknown model"@)
    } else if f[5] != 0x30 || (f[6] != 0x30 && f[6] != 0x00) || f[7] != 0x00 {
        Err("Invalid response from printer: reserved bytes 5 to 7"@)
    } else if media_type_of(f[11]) is None {
        Err("unknown media type"@)
    } else if f[12] != 0x00 || f[13] != 0x00 || f[16] != 0x00 {
        Err("Invalid response from printer: reserved bytes 12, 13, 16"@)
    } else if status_type_of(f[18]) is None {
        Err("Invalid status type from printer"@)
    } else if phase_type_of(f[19]) is None {
        Err("Invalid phase type from printer"@)
    } else if notification_of(f[22]) is None {
        Err("Invalid notification from printer"@)
    } else {
        Ok(
            StatusView {
                model: model_of(f[4])->0,
                status_type: status_type_of(f[18])->0,
                errors: error_messages(f[8], f[9]),
                phase_type: phase_type_of(f[19])->0,
                notification: notification_of(f[22])->0,
                media: Media { media_type: media_type_of(f[11])->0, width: f[10], length: f[17] },
            },
        )
    }
}

/// Whether `r` is `parse_frame`'s answer on `f`.
pub open spec fn parsed_as(f: Seq<u8>, r: Result<Response, PrinterError>) -> bool {
    match (parse_frame(f), r) {
        (Ok(v), Ok(resp)) => resp@ == v,
        (Err(m), Err(PrinterError::Printer(s))) => s@ == m,
        _ => false,
    }
}

fn error_if(byte: u8, mask: u8, message: &'static str, errors: &mut Vec<&'static str>)
    requires
        is_single_bit(mask),
    ensures
        texts(final(errors)@) == texts(old(errors)@) + flag(byte, mask, message@),
{
    proof {
        assert(texts(errors@.push(message)) =~= texts(errors@) + seq![message@]);
        assert(texts(errors@) + seq![] =~= texts(errors@));
        assert(is_single_bit(mask) ==> ((byte & mask != 0) == (byte / mask % 2 == 1))) by (bit_vector);
    }
    if byte & mask != 0 {
        errors.push(message);
    }
}

/// Decodes a status frame, checking the bytes the protocol fixes.
pub fn interpret_response(response: &[u8; 32]) -> (r: Result<Response, PrinterError>)
    ensures
        parsed_as(response@, r),
{
    let f = response;
    if f[0] != 0x80 || f[1] != 0x20 || f[2] != 0x42 {
        return Err(printer_error("Invalid response from printer: bad frame header"));
    }
    if f[3] != 0x34 {
        return Err(printer_error("Invalid response from printer: unknown series code"));
    }
    let model: &'static str = if f[4] == 0x38 {
        "QL-800"
    } else {
        return Err(printer_error("Unknown model"));
    };
    if f[5] != 0x30 || (f[6] != 0x30 && f[6] != 0x00) || f[7] != 0x00 {
        return Err(printer_error("Invalid response from printer: reserved bytes 5 to 7"));
    }
    let errors = messages_of(f[8], f[9]);
    let media_type = match f[11] {
        0x0A | 0x4A => MediaType::ContinuousTape,
        0x0B | 0x4B => MediaType::DieCutLabels,
        0x00 => MediaType::NoMedia,
        _ => return Err(printer_error("unknown media type")),
    };
    if f[12] != 0x00 || f[13] != 0x00 || f[16] != 0x00 {
        return Err(printer_error("Invalid response from printer: reserved bytes 12, 13, 16"));
    }
    let status_type = match f[18] {
        0 => StatusType::ReplyToStatusRequest,
        1 => StatusType::PrintingCompleted,
        2 => StatusType::ErrorOccurred,
        4 => StatusType::TurnedOff,
        5 => StatusType::Notification,
        6 => StatusType::PhaseChange,
        _ => return Err(printer_error("Invalid status type from printer")),
    };
    let phase_type = match f[19] {
        0 => PhaseType::WaitingToReceive,
        1 => PhaseType::PrintingState,
        _ => return Err(printer_error("Invalid phase type from printer")),
    };
    let notification = match f[22] {
        0 => Notification::NotAvailable,
        3 => Notification::CoolingStarted,
        4 => Notification::CoolingFinished,
        _ => return Err(printer_error("Invalid notification from printer")),
    };
    Ok(
        Response {
            model,
            status_type,
            errors,
            phase_type,
            notification,
            media: Media { media_type, width: f[10], length: f[17] },
        },
    )
}

/// Code of a media type in a frame.
pub open spec fn media_code(t: MediaType) -> u8 {
    match t {
        MediaType::NoMedia => 0x00,
        MediaType::ContinuousTape => 0x0A,
        MediaType::DieCutLabels => 0x0B,
    }
}

/// Code of a status type in a frame.
pub open spec fn status_code(t: StatusType) -> u8 {
    match t {
        StatusType::ReplyToStatusRequest => 0,
        StatusType::PrintingCompleted => 1,
        StatusType::ErrorOccurred => 2,
        StatusType::TurnedOff => 4,
        StatusType::Notification => 5,
        StatusType::PhaseChange => 6,
    }
}

/// Code of a phase type in a frame.
pub open spec fn phase_code(t: PhaseType) -> u8 {
    match t {
        PhaseType::WaitingToReceive => 0,
        PhaseType::PrintingState => 1,
    }
}

/// Code of a notification in a frame.
pub open spec fn notification_code(n: Notification) -> u8 {
    match n {
        Notification::NotAvailable => 0,
        Notification::CoolingStarted => 3,
        Notification::CoolingFinished => 4,
    }
}

/// The frame that reports `v`, with error bytes `e1` and `e2`; every byte the
/// protocol leaves open is zero.
pub open spec fn frame_of(v: StatusView, e1: u8, e2: u8) -> Seq<u8> {
    seq![
        0x80u8, 0x20, 0x42, 0x34, 0x38, 0x30, 0x30, 0x00,
        e1, e2, v.media.width, media_code(v.media.media_type), 0, 0, 0, 0,
        0, v.media.length, status_code(v.status_type), phase_code(v.phase_type), 0, 0,
        notification_code(v.notification), 0,
        0, 0, 0, 0, 0, 0, 0, 0,
    ]
}

/// Whether error bytes `e1` and `e2` raise exactly the messages of `v`.
pub open spec fn reports_errors(v: StatusView, e1: u8, e2: u8) -> bool {
    v.errors == error_messages(e1, e2)
}

/// Whether some frame reports `v`: its model is known and its messages are
/// those of some pair of error bytes.
pub open spec fn is_legal(v: StatusView) -> bool {
    &&& v.model == "QL-800"@
    &&& exists|e1: u8, e2: u8| reports_errors(v, e1, e2)
}

/// Parsing the frame written for a legal status gives that status back.
pub proof fn lemma_parse_frame_of(v: StatusView, e1: u8, e2: u8)
    requires
        v.model == "QL-800"@,
        reports_errors(v, e1, e2),
    ensures
        parse_frame(frame_of(v, e1, e2)) == Ok::<StatusView, Seq<char>>(v),
{
    let f = frame_of(v, e1, e2);
    assert(f[8] == e1 && f[9] == e2);
    assert(media_type_of(f[11]) == Some(v.media.media_type));
    assert(status_type_of(f[18]) == Some(v.status_type));
    assert(phase_type_of(f[19]) == Some(v.phase_type));
    assert(notification_of(f[22]) == Some(v.notification));
}

proof fn lemma_add_contains(x: Seq<Seq<char>>, y: Seq<Seq<char>>, m: Seq<char>)
    ensures
        (x + y).contains(m) <==> (x.contains(m) || y.contains(m)),
{
    if (x + y).contains(m) {
        let i = choose|i: int| 0 <= i < (x + y).len() && (x + y)[i] == m;
        if i < x.len() {
            assert(x[i] == m);
        } else {
            assert(y[i - x.len()] == m);
        }
    }
    if x.contains(m) {
        let i = choose|i: int| 0 <= i < x.len() && x[i] == m;
        assert((x + y)[i] == m);
    }
    if y.contains(m) {
        let i = choose|i: int| 0 <= i < y.len() && y[i] == m;
        assert((x + y)[x.len() + i] == m);
    }
}

proof fn lemma_flag_contains(byte: u8, mask: u8, msg: Seq<char>, m: Seq<char>)
    ensures
        flag(byte, mask, msg).contains(m) <==> (bit_set(byte, mask) && msg == m),
{
    if bit_set(byte, mask) && msg == m {
        assert(flag(byte, mask, msg)[0] == m);
    }
}

/// `m` is among the messages of error byte 1 iff some set bit has message `m`.
proof fn lemma_first_byte_contains(e1: u8, m: Seq<char>)
    ensures
        first_byte_messages(e1).contains(m) <==> (
            (bit_set(e1, 0x01) && "No media"@ == m) ||
            (bit_set(e1, 0x02) && "End of media"@ == m) ||
            (bit_set(e1, 0x04) && "Tape cutter jam"@ == m) ||
            (bit_set(e1, 0x10) && "Main unit in use"@ == m) ||
            (bit_set(e1, 0x20) && "Printer turned off"@ == m) ||
            (bit_set(e1, 0x40) && "High-voltage adapter"@ == m) ||
            (bit_set(e1, 0x80) && "Fan"@ == m)
        ),
{
    lemma_flag_contains(e1, 0x01, "No media"@, m);
    lemma_flag_contains(e1, 0x02, "End of media"@, m);
    lemma_flag_contains(e1, 0x04, "Tape cutter jam"@, m);
    lemma_flag_contains(e1, 0x10, "Main unit in use"@, m);
    lemma_flag_contains(e1, 0x20, "Printer turned off"@, m);
    lemma_flag_contains(e1, 0x40, "High-voltage adapter"@, m);
    lemma_flag_contains(e1, 0x80, "Fan"@, m);
    let ghost p0 = flag(e1, 0x01, "No media"@);
    lemma_add_contains(p0, flag(e1, 0x02, "End of media"@), m);
    let ghost p1 = p0 + flag(e1, 0x02, "End of media"@);
    lemma_add_contains(p1, flag(e1, 0x04, "Tape cutter jam"@), m);
    let ghost p2 = p1 + flag(e1, 0x04, "Tape cutter jam"@);
    lemma_add_contains(p2, flag(e1, 0x10, "Main unit in use"@), m);
    let ghost p3 = p2 + flag(e1, 0x10, "Main unit in use"@);
    lemma_add_contains(p3, flag(e1, 0x20, "Printer turned off"@), m);
    let ghost p4 = p3 + flag(e1, 0x20, "Printer turned off"@);
    lemma_add_contains(p4, flag(e1, 0x40, "High-voltage adapter"@), m);
    let ghost p5 = p4 + flag(e1, 0x40, "High-voltage adapter"@);
    lemma_add_contains(p5, flag(e1, 0x80, "Fan"@), m);
    let ghost p6 = p5 + flag(e1, 0x80, "Fan"@);
    assert(p6 == first_byte_messages(e1));
}

/// `m` is among the messages of error byte 2 iff some set bit has message `m`.
proof fn lemma_second_byte_contains(e2: u8, m: Seq<char>)
    ensures
        second_byte_messages(e2).contains(m) <==> (
            (bit_set(e2, 0x01) && "Replace media"@ == m) ||
            (bit_set(e2, 0x02) && "Expansion buffer full"@ == m) ||
            (bit_set(e2, 0x04) && "Communication error"@ == m) ||
            (bit_set(e2, 0x08) && "Communication buffer full"@ == m) ||
            (bit_set(e2, 0x10) && "Cover open"@ == m) ||
            (bit_set(e2, 0x20) && "Cancel key"@ == m) ||
            (bit_set(e2, 0x40) && "Cannot feed"@ == m) ||
            (bit_set(e2, 0x80) && "System error"@ == m)
        ),
{
    lemma_flag_contains(e2, 0x01, "Replace media"@, m);
    lemma_flag_contains(e2, 0x02, "Expansion buffer full"@, m);
    lemma_flag_contains(e2, 0x04, "Communication error"@, m);
    lemma_flag_contains(e2, 0x08, "Communication buffer full"@, m);
    lemma_flag_contains(e2, 0x10, "Cover open"@, m);
    lemma_flag_contains(e2, 0x20, "Cancel key"@, m);
    lemma_flag_contains(e2, 0x40, "Cannot feed"@, m);
    lemma_flag_contains(e2, 0x80, "System error"@, m);
    let ghost p0 = flag(e2, 0x01, "Replace media"@);
    lemma_add_contains(p0, flag(e2, 0x02, "Expansion buffer full"@), m);
    let ghost p1 = p0 + flag(e2, 0x02, "Expansion buffer full"@);
    lemma_add_contains(p1, flag(e2, 0x04, "Communication error"@), m);
    let ghost p2 = p1 + flag(e2, 0x04, "Communication error"@);
    lemma_add_contains(p2, flag(e2, 0x08, "Communication buffer full"@), m);
    let ghost p3 = p2 + flag(e2, 0x08, "Communication buffer full"@);
    lemma_add_contains(p3, flag(e2, 0x10, "Cover open"@), m);
    let ghost p4 = p3 + flag(e2, 0x10, "Cover open"@);
    lemma_add_contains(p4, flag(e2, 0x20, "Cancel key"@), m);
    let ghost p5 = p4 + flag(e2, 0x20, "Cancel key"@);
    lemma_add_contains(p5, flag(e2, 0x40, "Cannot feed"@), m);
    let ghost p6 = p5 + flag(e2, 0x40, "Cannot feed"@);
    lemma_add_contains(p6, flag(e2, 0x80, "System error"@), m);
    let ghost p7 = p6 + flag(e2, 0x80, "System error"@);
    assert(p7 == second_byte_messages(e2));
}

/// Where `m` can be among the messages of `e1` and `e2`.
proof fn lemma_messages_contain_both(e1: u8, e2: u8, m: Seq<char>)
    ensures
        error_messages(e1, e2).contains(m) <==> (first_byte_messages(e1).contains(m)
            || second_byte_messages(e2).contains(m)),
        first_byte_messages(e1).contains(m) <==> (
            (bit_set(e1, 0x01) && "No media"@ == m) ||
            (bit_set(e1, 0x02) && "End of media"@ == m) ||
            (bit_set(e1, 0x04) && "Tape cutter jam"@ == m) ||
            (bit_set(e1, 0x10) && "Main unit in use"@ == m) ||
            (bit_set(e1, 0x20) && "Printer turned off"@ == m) ||
            (bit_set(e1, 0x40) && "High-voltage adapter"@ == m) ||
            (bit_set(e1, 0x80) && "Fan"@ == m)
        ),
        second_byte_messages(e2).contains(m) <==> (
            (bit_set(e2, 0x01) && "Replace media"@ == m) ||
            (bit_set(e2, 0x02) && "Expansion buffer full"@ == m) ||
            (bit_set(e2, 0x04) && "Communication error"@ == m) ||
            (bit_set(e2, 0x08) && "Communication buffer full"@ == m) ||
            (bit_set(e2, 0x10) && "Cover open"@ == m) ||
            (bit_set(e2, 0x20) && "Cancel key"@ == m) ||
            (bit_set(e2, 0x40) && "Cannot feed"@ == m) ||
            (bit_set(e2, 0x80) && "System error"@ == m)
        ),
{
    lemma_add_contains(first_byte_messages(e1), second_byte_messages(e2), m);
    lemma_first_byte_contains(e1, m);
    lemma_second_byte_contains(e2, m);
}

/// Each flag message is raised exactly when its bit is set.
proof fn lemma_raised_iff(e1: u8, e2: u8)
    ensures
        error_messages(e1, e2).contains("No media"@) <==> bit_set(e1, 0x01),
        error_messages(e1, e2).contains("End of media"@) <==> bit_set(e1, 0x02),
        error_messages(e1, e2).contains("Tape cutter jam"@) <==> bit_set(e1, 0x04),
        error_messages(e1, e2).contains("Main unit in use"@) <==> bit_set(e1, 0x10),
        error_messages(e1, e2).contains("Printer turned off"@) <==> bit_set(e1, 0x20),
        error_messages(e1, e2).contains("High-voltage adapter"@) <==> bit_set(e1, 0x40),
        error_messages(e1, e2).contains("Fan"@) <==> bit_set(e1, 0x80),
        error_messages(e1, e2).contains("Replace media"@) <==> bit_set(e2, 0x01),
        error_messages(e1, e2).contains("Expansion buffer full"@) <==> bit_set(e2, 0x02),
        error_messages(e1, e2).contains("Communication error"@) <==> bit_set(e2, 0x04),
        error_messages(e1, e2).contains("Communication buffer full"@) <==> bit_set(e2, 0x08),
        error_messages(e1, e2).contains("Cover open"@) <==> bit_set(e2, 0x10),
        error_messages(e1, e2).contains("Cancel key"@) <==> bit_set(e2, 0x20),
        error_messages(e1, e2).contains("Cannot feed"@) <==> bit_set(e2, 0x40),
        error_messages(e1, e2).contains("System error"@) <==> bit_set(e2, 0x80),
{
    reveal_strlit("No media");
    reveal_strlit("End of media");
    reveal_strlit("Tape cutter jam");
    reveal_strlit("Main unit in use");
    reveal_strlit("Printer turned off");
    reveal_strlit("High-voltage adapter");
    reveal_strlit("Fan");
    reveal_strlit("Replace media");
    reveal_strlit("Expansion buffer full");
    reveal_strlit("Communication error");
    reveal_strlit("Communication buffer full");
    reveal_strlit("Cover open");
    reveal_strlit("Cancel key");
    reveal_strlit("Cannot feed");
    reveal_strlit("System error");
    assert("No media"@.len() == 8 && "No media"@[0] == 'N' && "No media"@[1] == 'o');
    assert("End of media"@.len() == 12 && "End of media"@[0] == 'E' && "End of media"@[1] == 'n');
    assert("Tape cutter jam"@.len() == 15 && "Tape cutter jam"@[0] == 'T' && "Tape cutter jam"@[1] == 'a');
    assert("Main unit in use"@.len() == 16 && "Main unit in use"@[0] == 'M' && "Main unit in use"@[1] == 'a');
    assert("Printer turned off"@.len() == 18 && "Printer turned off"@[0] == 'P' && "Printer turned off"@[1] == 'r');
    assert("High-voltage adapter"@.len() == 20 && "High-voltage adapter"@[0] == 'H' && "High-voltage adapter"@[1] == 'i');
    assert("Fan"@.len() == 3 && "Fan"@[0] == 'F' && "Fan"@[1] == 'a');
    assert("Replace media"@.len() == 13 && "Replace media"@[0] == 'R' && "Replace media"@[1] == 'e');
    assert("Expansion buffer full"@.len() == 21 && "Expansion buffer full"@[0] == 'E' && "Expansion buffer full"@[1] == 'x');
    assert("Communication error"@.len() == 19 && "Communication error"@[0] == 'C' && "Communication error"@[1] == 'o');
    assert("Communication buffer full"@.len() == 25 && "Communication buffer full"@[0] == 'C' && "Communication buffer full"@[1] == 'o');
    assert("Cover open"@.len() == 10 && "Cover open"@[0] == 'C' && "Cover open"@[1] == 'o');
    assert("Cancel key"@.len() == 10 && "Cancel key"@[0] == 'C' && "Cancel key"@[1] == 'a');
    assert("Cannot feed"@.len() == 11 && "Cannot feed"@[0] == 'C' && "Cannot feed"@[1] == 'a');
    assert("System error"@.len() == 12 && "System error"@[0] == 'S' && "System error"@[1] == 'y');
    lemma_messages_contain_both(e1, e2, "No media"@);
    lemma_messages_contain_both(e1, e2, "End of media"@);
    lemma_messages_contain_both(e1, e2, "Tape cutter jam"@);
    lemma_messages_contain_both(e1, e2, "Main unit in use"@);
    lemma_messages_contain_both(e1, e2, "Printer turned off"@);
    lemma_messages_contain_both(e1, e2, "High-voltage adapter"@);
    lemma_messages_contain_both(e1, e2, "Fan"@);
    lemma_messages_contain_both(e1, e2, "Replace media"@);
    lemma_messages_contain_both(e1, e2, "Expansion buffer full"@);
    lemma_messages_contain_both(e1, e2, "Communication error"@);
    lemma_messages_contain_both(e1, e2, "Communication buffer full"@);
    lemma_messages_contain_both(e1, e2, "Cover open"@);
    lemma_messages_contain_both(e1, e2, "Cancel key"@);
    lemma_messages_contain_both(e1, e2, "Cannot feed"@);
    lemma_messages_contain_both(e1, e2, "System error"@);
}

proof fn lemma_bits7(c0: u8, c1: u8, c2: u8, c3: u8, c4: u8, c5: u8, c6: u8)
    requires
        c0 == 0 || c0 == 0x01,
        c1 == 0 || c1 == 0x02,
        c2 == 0 || c2 == 0x04,
        c3 == 0 || c3 == 0x10,
        c4 == 0 || c4 == 0x20,
        c5 == 0 || c5 == 0x40,
        c6 == 0 || c6 == 0x80,
    ensures
        ((c0 | c1 | c2 | c3 | c4 | c5 | c6) / 0x01 % 2 == 1) == (c0 != 0),
        ((c0 | c1 | c2 | c3 | c4 | c5 | c6) / 0x02 % 2 == 1) == (c1 != 0),
        ((c0 | c1 | c2 | c3 | c4 | c5 | c6) / 0x04 % 2 == 1) == (c2 != 0),
        ((c0 | c1 | c2 | c3 | c4 | c5 | c6) / 0x10 % 2 == 1) == (c3 != 0),
        ((c0 | c1 | c2 | c3 | c4 | c5 | c6) / 0x20 % 2 == 1) == (c4 != 0),
        ((c0 | c1 | c2 | c3 | c4 | c5 | c6) / 0x40 % 2 == 1) == (c5 != 0),
        ((c0 | c1 | c2 | c3 | c4 | c5 | c6) / 0x80 % 2 == 1) == (c6 != 0),
{
    assert(
        ((c0 | c1 | c2 | c3 | c4 | c5 | c6) / 0x01 % 2 == 1) == (c0 != 0) &&
        ((c0 | c1 | c2 | c3 | c4 | c5 | c6) / 0x02 % 2 == 1) == (c1 != 0) &&
        ((c0 | c1 | c2 | c3 | c4 | c5 | c6) / 0x04 % 2 == 1) == (c2 != 0) &&
        ((c0 | c1 | c2 | c3 | c4 | c5 | c6) / 0x10 % 2 == 1) == (c3 != 0) &&
        ((c0 | c1 | c2 | c3 | c4 | c5 | c6) / 0x20 % 2 == 1) == (c4 != 0) &&
        ((c0 | c1 | c2 | c3 | c4 | c5 | c6) / 0x40 % 2 == 1) == (c5 != 0) &&
        ((c0 | c1 | c2 | c3 | c4 | c5 | c6) / 0x80 % 2 == 1) == (c6 != 0)
    ) by (bit_vector)
        requires
            c0 == 0 || c0 == 0x01,
            c1 == 0 || c1 == 0x02,
            c2 == 0 || c2 == 0x04,
            c3 == 0 || c3 == 0x10,
            c4 == 0 || c4 == 0x20,
            c5 == 0 || c5 == 0x40,
            c6 == 0 || c6 == 0x80,
    ;
}

proof fn lemma_bits8(c0: u8, c1: u8, c2: u8, c3: u8, c4: u8, c5: u8, c6: u8, c7: u8)
    requires
        c0 == 0 || c0 == 0x01,
        c1 == 0 || c1 == 0x02,
        c2 == 0 || c2 == 0x04,
        c3 == 0 || c3 == 0x08,
        c4 == 0 || c4 == 0x10,
        c5 == 0 || c5 == 0x20,
        c6 == 0 || c6 == 0x40,
        c7 == 0 || c7 == 0x80,
    ensures
        ((c0 | c1 | c2 | c3 | c4 | c5 | c6 | c7) / 0x01 % 2 == 1) == (c0 != 0),
        ((c0 | c1 | c2 | c3 | c4 | c5 | c6 | c7) / 0x02 % 2 == 1) == (c1 != 0),
        ((c0 | c1 | c2 | c3 | c4 | c5 | c6 | c7) / 0x04 % 2 == 1) == (c2 != 0),
        ((c0 | c1 | c2 | c3 | c4 | c5 | c6 | c7) / 0x08 % 2 == 1) == (c3 != 0),
        ((c0 | c1 | c2 | c3 | c4 | c5 | c6 | c7) / 0x10 % 2 == 1) == (c4 != 0),
        ((c0 | c1 | c2 | c3 | c4 | c5 | c6 | c7) / 0x20 % 2 == 1) == (c5 != 0),
        ((c0 | c1 | c2 | c3 | c4 | c5 | c6 | c7) / 0x40 % 2 == 1) == (c6 != 0),
        ((c0 | c1 | c2 | c3 | c4 | c5 | c6 | c7) / 0x80 % 2 == 1) == (c7 != 0),
{
    assert(
        ((c0 | c1 | c2 | c3 | c4 | c5 | c6 | c7) / 0x01 % 2 == 1) == (c0 != 0) &&
        ((c0 | c1 | c2 | c3 | c4 | c5 | c6 | c7) / 0x02 % 2 == 1) == (c1 != 0) &&
        ((c0 | c1 | c2 | c3 | c4 | c5 | c6 | c7) / 0x04 % 2 == 1) == (c2 != 0) &&
        ((c0 | c1 | c2 | c3 | c4 | c5 | c6 | c7) / 0x08 % 2 == 1) == (c3 != 0) &&
        ((c0 | c1 | c2 | c3 | c4 | c5 | c6 | c7) / 0x10 % 2 == 1) == (c4 != 0) &&
        ((c0 | c1 | c2 | c3 | c4 | c5 | c6 | c7) / 0x20 % 2 == 1) == (c5 != 0) &&
        ((c0 | c1 | c2 | c3 | c4 | c5 | c6 | c7) / 0x40 % 2 == 1) == (c6 != 0) &&
        ((c0 | c1 | c2 | c3 | c4 | c5 | c6 | c7) / 0x80 % 2 == 1) == (c7 != 0)
    ) by (bit_vector)
        requires
            c0 == 0 || c0 == 0x01,
            c1 == 0 || c1 == 0x02,
            c2 == 0 || c2 == 0x04,
            c3 == 0 || c3 == 0x08,
            c4 == 0 || c4 == 0x10,
            c5 == 0 || c5 == 0x20,
            c6 == 0 || c6 == 0x40,
            c7 == 0 || c7 == 0x80,
    ;
}

proof fn lemma_same_flags(e1: u8, e2: u8, x1: u8, x2: u8)
    requires
        (bit_set(e1, 0x01)) == (bit_set(x1, 0x01)),
        (bit_set(e1, 0x02)) == (bit_set(x1, 0x02)),
        (bit_set(e1, 0x04)) == (bit_set(x1, 0x04)),
        (bit_set(e1, 0x10)) == (bit_set(x1, 0x10)),
        (bit_set(e1, 0x20)) == (bit_set(x1, 0x20)),
        (bit_set(e1, 0x40)) == (bit_set(x1, 0x40)),
        (bit_set(e1, 0x80)) == (bit_set(x1, 0x80)),
        (bit_set(e2, 0x01)) == (bit_set(x2, 0x01)),
        (bit_set(e2, 0x02)) == (bit_set(x2, 0x02)),
        (bit_set(e2, 0x04)) == (bit_set(x2, 0x04)),
        (bit_set(e2, 0x08)) == (bit_set(x2, 0x08)),
        (bit_set(e2, 0x10)) == (bit_set(x2, 0x10)),
        (bit_set(e2, 0x20)) == (bit_set(x2, 0x20)),
        (bit_set(e2, 0x40)) == (bit_set(x2, 0x40)),
        (bit_set(e2, 0x80)) == (bit_set(x2, 0x80)),
    ensures
        error_messages(e1, e2) == error_messages(x1, x2),
{
}

fn text_eq(a: &str, b: &str) -> (r: bool)
    ensures
        r == (a@ == b@),
{
    a.to_owned() == b.to_owned()
}

/// `mask` if some message of `errors` reads `msg`, else 0.
fn mask_if_raised(errors: &Vec<&'static str>, msg: &str, mask: u8) -> (r: u8)
    ensures
        r == (if texts(errors@).contains(msg@) { mask } else { 0 }),
{
    let mut i: usize = 0;
    while i < errors.len()
        invariant
            i <= errors.len(),
            forall|j: int| 0 <= j < i ==> errors@[j]@ != msg@,
        decreases errors.len() - i,
    {
        if text_eq(errors[i], msg) {
            proof {
                assert(texts(errors@)[i as int] == msg@);
            }
            return mask;
        }
        i = i + 1;
    }
    proof {
        if texts(errors@).contains(msg@) {
            let k = choose|k: int| 0 <= k < texts(errors@).len() && texts(errors@)[k] == msg@;
            assert(errors@[k]@ == msg@);
        }
    }
    0
}

fn same_texts(a: &Vec<&'static str>, b: &Vec<&'static str>) -> (r: bool)
    ensures
        r == (texts(a@) == texts(b@)),
{
    if a.len() != b.len() {
        proof {
            assert(texts(a@).len() != texts(b@).len());
        }
        return false;
    }
    let mut i: usize = 0;
    while i < a.len()
        invariant
            a.len() == b.len(),
            i <= a.len(),
            forall|j: int| 0 <= j < i ==> a@[j]@ == b@[j]@,
        decreases a.len() - i,
    {
        if !text_eq(a[i], b[i]) {
            proof {
                assert(texts(a@)[i as int] != texts(b@)[i as int]);
            }
            return false;
        }
        i = i + 1;
    }
    proof {
        assert(texts(a@) =~= texts(b@));
    }
    true
}

fn push_first_byte_messages(e1: u8, errors: &mut Vec<&'static str>)
    ensures
        texts(final(errors)@) == texts(old(errors)@) + first_byte_messages(e1),
{
    let ghost start = texts(errors@);
    let ghost mut added: Seq<Seq<char>> = seq![];
    error_if(e1, 0x01, "No media", errors);
    proof {
        added = added + flag(e1, 0x01, "No media"@);
        assert(texts(errors@) =~= start + added);
    }
    error_if(e1, 0x02, "End of media", errors);
    proof {
        added = added + flag(e1, 0x02, "End of media"@);
        assert(texts(errors@) =~= start + added);
    }
    error_if(e1, 0x04, "Tape cutter jam", errors);
    proof {
        added = added + flag(e1, 0x04, "Tape cutter jam"@);
        assert(texts(errors@) =~= start + added);
    }
    error_if(e1, 0x10, "Main unit in use", errors);
    proof {
        added = added + flag(e1, 0x10, "Main unit in use"@);
        assert(texts(errors@) =~= start + added);
    }
    error_if(e1, 0x20, "Printer turned off", errors);
    proof {
        added = added + flag(e1, 0x20, "Printer turned off"@);
        assert(texts(errors@) =~= start + added);
    }
    error_if(e1, 0x40, "High-voltage adapter", errors);
    proof {
        added = added + flag(e1, 0x40, "High-voltage adapter"@);
        assert(texts(errors@) =~= start + added);
    }
    error_if(e1, 0x80, "Fan", errors);
    proof {
        added = added + flag(e1, 0x80, "Fan"@);
        assert(texts(errors@) =~= start + added);
    }
    proof {
        assert(added == first_byte_messages(e1));
    }
}

fn push_second_byte_messages(e2: u8, errors: &mut Vec<&'static str>)
    ensures
        texts(final(errors)@) == texts(old(errors)@) + second_byte_messages(e2),
{
    let ghost start = texts(errors@);
    let ghost mut added: Seq<Seq<char>> = seq![];
    error_if(e2, 0x01, "Replace media", errors);
    proof {
        added = added + flag(e2, 0x01, "Replace media"@);
        assert(texts(errors@) =~= start + added);
    }
    error_if(e2, 0x02, "Expansion buffer full", errors);
    proof {
        added = added + flag(e2, 0x02, "Expansion buffer full"@);
        assert(texts(errors@) =~= start + added);
    }
    error_if(e2, 0x04, "Communication error", errors);
    proof {
        added = added + flag(e2, 0x04, "Communication error"@);
        assert(texts(errors@) =~= start + added);
    }
    error_if(e2, 0x08, "Communication buffer full", errors);
    proof {
        added = added + flag(e2, 0x08, "Communication buffer full"@);
        assert(texts(errors@) =~= start + added);
    }
    error_if(e2, 0x10, "Cover open", errors);
    proof {
        added = added + flag(e2, 0x10, "Cover open"@);
        assert(texts(errors@) =~= start + added);
    }
    error_if(e2, 0x20, "Cancel key", errors);
    proof {
        added = added + flag(e2, 0x20, "Cancel key"@);
        assert(texts(errors@) =~= start + added);
    }
    error_if(e2, 0x40, "Cannot feed", errors);
    proof {
        added = added + flag(e2, 0x40, "Cannot feed"@);
        assert(texts(errors@) =~= start + added);
    }
    error_if(e2, 0x80, "System error", errors);
    proof {
        added = added + flag(e2, 0x80, "System error"@);
        assert(texts(errors@) =~= start + added);
    }
    proof {
        assert(added == second_byte_messages(e2));
    }
}

/// The messages of error bytes `e1` and `e2`, in table order.
fn messages_of(e1: u8, e2: u8) -> (r: Vec<&'static str>)
    ensures
        texts(r@) == error_messages(e1, e2),
{
    let mut errors: Vec<&'static str> = Vec::new();
    proof {
        assert(texts(errors@) =~= seq![]);
    }
    push_first_byte_messages(e1, &mut errors);
    push_second_byte_messages(e2, &mut errors);
    proof {
        assert(texts(errors@) =~= error_messages(e1, e2));
    }
    errors
}

impl Response {
    /// Writes this status as the frame a printer would send for it, or none
    /// if no frame can report it.
    pub fn to_frame(&self) -> (r: Option<[u8; 32]>)
        ensures
            r is Some <==> is_legal(self@),
            r is Some ==> exists|e1: u8, e2: u8|
                reports_errors(self@, e1, e2) && r->0@ == frame_of(self@, e1, e2),
            r is Some ==> parse_frame(r->0@) == Ok::<StatusView, Seq<char>>(self@),
    {
        if !text_eq(self.model, "QL-800") {
            return None;
        }
        let e = &self.errors;
        let a0 = mask_if_raised(e, "No media", 0x01);
        let a1 = mask_if_raised(e, "End of media", 0x02);
        let a2 = mask_if_raised(e, "Tape cutter jam", 0x04);
        let a3 = mask_if_raised(e, "Main unit in use", 0x10);
        let a4 = mask_if_raised(e, "Printer turned off", 0x20);
        let a5 = mask_if_raised(e, "High-voltage adapter", 0x40);
        let a6 = mask_if_raised(e, "Fan", 0x80);
        let b0 = mask_if_raised(e, "Replace media", 0x01);
        let b1 = mask_if_raised(e, "Expansion buffer full", 0x02);
        let b2 = mask_if_raised(e, "Communication error", 0x04);
        let b3 = mask_if_raised(e, "Communication buffer full", 0x08);
        let b4 = mask_if_raised(e, "Cover open", 0x10);
        let b5 = mask_if_raised(e, "Cancel key", 0x20);
        let b6 = mask_if_raised(e, "Cannot feed", 0x40);
        let b7 = mask_if_raised(e, "System error", 0x80);
        let e1: u8 = a0 | a1 | a2 | a3 | a4 | a5 | a6;
        let e2: u8 = b0 | b1 | b2 | b3 | b4 | b5 | b6 | b7;
        let rebuilt = messages_of(e1, e2);
        proof {
            lemma_bits7(a0, a1, a2, a3, a4, a5, a6);
            lemma_bits8(b0, b1, b2, b3, b4, b5, b6, b7);
            if is_legal(self@) {
                let (x1, x2) = choose|x1: u8, x2: u8| reports_errors(self@, x1, x2);
                lemma_raised_iff(x1, x2);
                lemma_same_flags(e1, e2, x1, x2);
            }
        }
        if !same_texts(&rebuilt, e) {
            return None;
        }
        let media_code: u8 = match self.media.media_type {
            MediaType::NoMedia => 0x00,
            MediaType::ContinuousTape => 0x0A,
            MediaType::DieCutLabels => 0x0B,
        };
        let status_code: u8 = match self.status_type {
            StatusType::ReplyToStatusRequest => 0,
            StatusType::PrintingCompleted => 1,
            StatusType::ErrorOccurred => 2,
            StatusType::TurnedOff => 4,
            StatusType::Notification => 5,
            StatusType::PhaseChange => 6,
        };
        let phase_code: u8 = match self.phase_type {
            PhaseType::WaitingToReceive => 0,
            PhaseType::PrintingState => 1,
        };
        let notification_code: u8 = match self.notification {
            Notification::NotAvailable => 0,
            Notification::CoolingStarted => 3,
            Notification::CoolingFinished => 4,
        };
        let f: [u8; 32] = [
            0x80, 0x20, 0x42, 0x34, 0x38, 0x30, 0x30, 0x00,
            e1, e2, self.media.width, media_code, 0, 0, 0, 0,
            0, self.media.length, status_code, phase_code, 0, 0, notification_code, 0,
            0, 0, 0, 0, 0, 0, 0, 0,
        ];
        proof {
            assert(f@ =~= frame_of(self@, e1, e2));
            assert(reports_errors(self@, e1, e2));
            lemma_parse_frame_of(self@, e1, e2);
        }
        Some(f)
    }
}

} // verus!
