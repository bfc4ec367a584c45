//! The print transaction as a state machine.
//!
//! `read_step` is the read loop's transition on one status frame. `PrintJob`
//! drives a whole job: `action` says what to send or read next, and `advance`
//! takes what came of it. The caller performs the transfers.

use vstd::prelude::*;
use vstd::string::StringExecFns;

use crate::printer::job::Info;
use crate::printer::status::{
    texts, Media, MediaType, Notification, PhaseType, Response, StatusType, StatusView,
};
use crate::printer::{printer_error, Orientation, PrinterError, UsbError};
use crate::raster::{encode_image, encodes, fits, line_views, RgbaBitmap};

verus! {

/// Where the device stands in printing the current copy.
#[derive(Debug, Clone, Copy, PartialEq, Eq, Structural)]
pub enum State {
    Waiting,
    PrintingStarted,
    PrintingFinished,
    Cooling,
    Errored,
}

/// What the read loop looks at in a frame: status type, phase, notification.
pub type Signal = (StatusType, PhaseType, Notification);

/// The signal of a decoded frame.
pub open spec fn signal_of(v: StatusView) -> Signal {
    (v.status_type, v.phase_type, v.notification)
}

/// The signal of a read: none when the read failed.
pub open spec fn read_signal(frame: Option<&Response>) -> Option<Signal> {
    match frame {
        Some(r) => Some(signal_of(r@)),
        None => None,
    }
}

/// Whether frame `f` is one the read loop expects in state `s`.
pub open spec fn expected(s: State, f: Signal) -> bool {
    match s {
        State::Waiting => f.0 == StatusType::PhaseChange && f.1 == PhaseType::PrintingState,
        State::PrintingStarted => f.0 == StatusType::PrintingCompleted || (f.0
            == StatusType::Notification && f.2 == Notification::CoolingStarted),
        State::PrintingFinished => f.0 == StatusType::PhaseChange,
        State::Cooling => f.0 == StatusType::Notification && f.2 == Notification::CoolingFinished,
        State::Errored => false,
    }
}

/// The state the read loop moves to from `s` on read `f` (none: the read failed).
pub open spec fn read_next(s: State, f: Option<Signal>) -> State {
    match f {
        None => State::Errored,
        Some(sig) => if !expected(s, sig) {
            State::Errored
        } else {
            match s {
                State::Waiting => State::PrintingStarted,
                State::PrintingStarted => if sig.0 == StatusType::PrintingCompleted {
                    State::PrintingFinished
                } else {
                    State::Cooling
                },
                State::PrintingFinished => State::Waiting,
                _ => State::PrintingStarted,
            }
        },
    }
}

/// Whether the read loop reads another frame after moving from `s` to `t`.
pub open spec fn reads_on(s: State, t: State) -> bool {
    (s == State::Waiting && t == State::PrintingStarted) || (s == State::PrintingStarted && (t
        == State::PrintingFinished || t == State::Cooling))
}

/// One step of the read loop: the next state, and whether to read again.
pub fn read_step(state: State, frame: Option<&Response>) -> (r: (State, bool))
    ensures
        r.0 == read_next(state, read_signal(frame)),
        r.1 == reads_on(state, r.0),
{
    let f = match frame {
        Some(f) => f,
        None => return (State::Errored, false),
    };
    match state {
        State::Waiting => {
            if f.status_type == StatusType::PhaseChange && f.phase_type == PhaseType::PrintingState {
                (State::PrintingStarted, true)
            } else {
                (State::Errored, false)
            }
        },
        State::PrintingStarted => {
            if f.status_type == StatusType::PrintingCompleted {
                (State::PrintingFinished, true)
            } else if f.status_type == StatusType::Notification && f.notification
                == Notification::CoolingStarted {
                (State::Cooling, true)
            } else {
                (State::Errored, false)
            }
        },
        State::PrintingFinished => {
            if f.status_type == StatusType::PhaseChange {
                (State::Waiting, false)
            } else {
                (State::Errored, false)
            }
        },
        State::Cooling => {
            if f.status_type == StatusType::Notification && f.notification
                == Notification::CoolingFinished {
                (State::PrintingStarted, false)
            } else {
                (State::Errored, false)
            }
        },
        State::Errored => (State::Errored, false),
    }
}

/// From `Waiting`, a phase change to printing, a completion and a phase change
/// bring the read loop back to `Waiting`, reading on until the last frame.
pub proof fn lemma_copy_round_trip(n1: Notification, p2: PhaseType, n2: Notification, p3: PhaseType, n3: Notification)
    ensures
        ({
            let s1 = read_next(State::Waiting, Some((StatusType::PhaseChange, PhaseType::PrintingState, n1)));
            let s2 = read_next(s1, Some((StatusType::PrintingCompleted, p2, n2)));
            let s3 = read_next(s2, Some((StatusType::PhaseChange, p3, n3)));
            &&& s1 == State::PrintingStarted && reads_on(State::Waiting, s1)
            &&& s2 == State::PrintingFinished && reads_on(s1, s2)
            &&& s3 == State::Waiting && !reads_on(s2, s3)
        }),
{
}

/// A frame the read loop does not expect, or a failed read, ends it in
/// `Errored` from any state.
pub proof fn lemma_unexpected_frame(s: State, f: Option<Signal>)
    requires
        f is None || !expected(s, f->0),
    ensures
        read_next(s, f) == State::Errored,
        !reads_on(s, read_next(s, f)),
{
}

/// How long a transfer may take: the caller maps each to a duration.
#[derive(Debug, Clone, Copy, PartialEq, Eq, Structural)]
pub enum Wait {
    /// The default transfer timeout.
    Standard,
    /// The timeout for setup and header transfers, and for awaiting a status reply.
    General,
    /// The timeout for sending a status request.
    StatusCommand,
    /// The device's worst-case time to take one raster line.
    LinePrint,
}

/// Steps of a print job.
#[derive(Debug, Clone, Copy, PartialEq, Eq, Structural)]
pub enum Stage {
    /// Clearing half-parsed commands: retried until the write succeeds.
    Invalidate,
    Initialize,
    RequestStatus,
    AwaitStatus,
    /// Sending the job header of the next copy.
    Header,
    /// Sending raster line `i`.
    Line(usize),
    /// Reading through a cooling pause that interrupted raster line `i`.
    Cooling(usize),
    /// Sending the end-of-copy command.
    Terminator,
    /// Reading until the copy is done.
    Verify,
    FinalRequest,
    FinalAwait,
    Done,
    Failed,
}

/// What came of the last action.
pub enum Event {
    Written,
    WriteFailed(UsbError),
    Frame(Response),
    ReadFailed(PrinterError),
    /// The general timeout elapsed while awaiting a status reply.
    Expired,
}

/// What the caller does next.
pub enum Action {
    /// Send these bytes within this time.
    Write(Vec<u8>, Wait),
    /// Read one status frame.
    Read,
    /// The job is over: take its result with `finish`.
    Finish,
}

/// A print job in progress.
pub struct PrintJob {
    pub lines: Vec<[u8; 90]>,
    pub copies: usize,
    pub cut_each: u8,
    pub stage: Stage,
    pub state: State,
    pub printed_copies: usize,
    /// The media of the status reply that opened the job.
    pub media: Media,
    pub result: Option<Result<Response, PrinterError>>,
}

/// The command bytes of a raster line.
pub open spec fn raster_command(line: Seq<u8>) -> Seq<u8> {
    seq![0x67u8, 0x00, 0x5A] + line
}

/// The status request command.
pub open spec fn status_request() -> Seq<u8> {
    seq![0x1Bu8, 0x69, 0x53]
}

/// `n` zero bytes.
pub open spec fn zeros(n: nat) -> Seq<u8> {
    Seq::new(n, |i: int| 0u8)
}

/// End of copy `printed + 1` of `copies`: print without feed while copies
/// remain, with feed after the last.
pub open spec fn terminator(printed: nat, copies: nat) -> u8 {
    if copies > printed + 1 {
        0x0C
    } else {
        0x1A
    }
}

/// Whether a job can be printed on `m`: media is loaded and catalogued.
pub open spec fn printable(m: Media) -> bool {
    m.media_type != MediaType::NoMedia && m.label_view() is Some
}

/// The flag messages of a frame, each after "; ".
pub open spec fn flags_text(errors: Seq<Seq<char>>) -> Seq<char>
    decreases errors.len(),
{
    if errors.len() == 0 {
        seq![]
    } else {
        flags_text(errors.drop_last()) + "; "@ + errors.last()
    }
}

/// The flag messages of the frame an event carries, if any.
pub open spec fn event_flags(e: Event) -> Seq<char> {
    match e {
        Event::Frame(r) => flags_text(r@.errors),
        _ => seq![],
    }
}

/// Stage, device state and copies printed.
pub struct Progress {
    pub stage: Stage,
    pub state: State,
    pub printed: nat,
}

/// `p` moved to `stage`.
pub open spec fn at(p: Progress, stage: Stage) -> Progress {
    Progress { stage, ..p }
}

/// After a write: on to `next`, or failed.
pub open spec fn written_or_fail(p: Progress, e: Event, next: Stage) -> Progress {
    match e {
        Event::Written => at(p, next),
        Event::WriteFailed(_) => at(p, Stage::Failed),
        _ => p,
    }
}

/// The read loop's input in an event: a frame's signal, or none for a failed read.
pub open spec fn loop_input(e: Event) -> Option<Option<Signal>> {
    match e {
        Event::Frame(r) => Some(Some(signal_of(r@))),
        Event::ReadFailed(_) => Some(None),
        _ => None,
    }
}

/// How a job moves on event `e`, printing `copies` copies of `n_lines` lines.
pub open spec fn transition(p: Progress, copies: nat, n_lines: nat, e: Event) -> Progress {
    match p.stage {
        Stage::Invalidate => match e {
            Event::Written => at(p, Stage::Initialize),
            _ => p,
        },
        Stage::Initialize => written_or_fail(p, e, Stage::RequestStatus),
        Stage::RequestStatus => written_or_fail(p, e, Stage::AwaitStatus),
        Stage::AwaitStatus => match e {
            Event::Frame(r) => if r@.phase_type == PhaseType::WaitingToReceive && printable(
                r@.media,
            ) {
                Progress { stage: Stage::Header, state: State::Waiting, printed: p.printed }
            } else {
                at(p, Stage::Failed)
            },
            Event::ReadFailed(PrinterError::Usb(UsbError::Timeout)) => p,
            Event::ReadFailed(_) | Event::Expired => at(p, Stage::Failed),
            _ => p,
        },
        Stage::Header => written_or_fail(
            p,
            e,
            if n_lines > 0 {
                Stage::Line(0)
            } else {
                Stage::Terminator
            },
        ),
        Stage::Line(i) => match e {
            Event::Written => at(
                p,
                if i + 1 < n_lines {
                    Stage::Line((i + 1) as usize)
                } else {
                    Stage::Terminator
                },
            ),
            Event::WriteFailed(UsbError::Timeout) => at(p, Stage::Cooling(i)),
            Event::WriteFailed(_) => at(p, Stage::Failed),
            _ => p,
        },
        Stage::Cooling(i) => match loop_input(e) {
            Some(f) => {
                let t = read_next(p.state, f);
                if reads_on(p.state, t) {
                    Progress { state: t, ..p }
                } else if t == State::PrintingStarted {
                    Progress { stage: Stage::Line(i), state: t, printed: p.printed }
                } else {
                    Progress { stage: Stage::Failed, state: t, printed: p.printed }
                }
            },
            None => p,
        },
        Stage::Terminator => written_or_fail(p, e, Stage::Verify),
        Stage::Verify => match loop_input(e) {
            Some(f) => {
                let t = read_next(p.state, f);
                if reads_on(p.state, t) {
                    Progress { state: t, ..p }
                } else if t == State::Waiting {
                    Progress {
                        stage: if p.printed + 1 >= copies {
                            Stage::FinalRequest
                        } else {
                            Stage::Header
                        },
                        state: t,
                        printed: p.printed + 1,
                    }
                } else {
                    Progress { stage: Stage::Failed, state: t, printed: p.printed }
                }
            },
            None => p,
        },
        Stage::FinalRequest => written_or_fail(p, e, Stage::FinalAwait),
        Stage::FinalAwait => match e {
            Event::Frame(_) => at(p, Stage::Done),
            Event::ReadFailed(PrinterError::Usb(UsbError::Timeout)) => p,
            Event::ReadFailed(_) | Event::Expired => at(p, Stage::Failed),
            _ => p,
        },
        Stage::Done | Stage::Failed => p,
    }
}

/// Whether `err` is the error a job fails with when event `e` ends it in `p`.
pub open spec fn error_for(p: Progress, e: Event, err: PrinterError) -> bool {
    match p.stage {
        Stage::AwaitStatus | Stage::FinalAwait => match e {
            Event::ReadFailed(x) => err == x,
            Event::Expired => err == PrinterError::Usb(UsbError::Timeout),
            Event::Frame(r) => err is Printer && err->Printer_0@ == (if r@.phase_type
                != PhaseType::WaitingToReceive {
                "printer in invalid phase"@
            } else if r@.media.media_type == MediaType::NoMedia {
                "no media loaded"@
            } else {
                "Unknown media loaded in printer"@
            }),
            _ => false,
        },
        Stage::Cooling(_) => err is Printer && err->Printer_0@ == "unexpected state during cooldown"@
            + event_flags(e),
        Stage::Verify => err is Printer && err->Printer_0@
            == "unexpected state during verification"@ + event_flags(e),
        _ => match e {
            Event::WriteFailed(u) => err == PrinterError::Usb(u),
            _ => false,
        },
    }
}

/// `msg` followed by the flag messages of `frame`, if any.
fn with_flags(msg: &str, frame: Option<&Response>) -> (r: PrinterError)
    ensures
        r is Printer,
        r->Printer_0@ == msg@ + match frame {
            Some(f) => flags_text(f@.errors),
            None => seq![],
        },
{
    let mut s = msg.to_owned();
    if let Some(f) = frame {
        let mut i: usize = 0;
        proof {
            assert(texts(f.errors@).subrange(0, 0) =~= seq![]);
            assert(s@ =~= msg@ + flags_text(seq![]));
        }
        while i < f.errors.len()
            invariant
                i <= f.errors.len(),
                s@ == msg@ + flags_text(texts(f.errors@).subrange(0, i as int)),
            decreases f.errors.len() - i,
        {
            let ghost prev = texts(f.errors@).subrange(0, i as int);
            let ghost next = texts(f.errors@).subrange(0, i + 1);
            proof {
                assert(next.drop_last() =~= prev);
                assert(next.last() == f.errors@[i as int]@);
            }
            s.append("; ");
            s.append(f.errors[i]);
            proof {
                assert(s@ =~= msg@ + flags_text(next));
            }
            i = i + 1;
        }
        proof {
            assert(texts(f.errors@).subrange(0, f.errors@.len() as int) =~= texts(f.errors@));
        }
    } else {
        proof {
            assert(s@ =~= msg@ + seq![]);
        }
    }
    PrinterError::Printer(s)
}

fn zero_bytes(n: usize) -> (r: Vec<u8>)
    ensures
        r@ == zeros(n as nat),
{
    let mut v: Vec<u8> = Vec::new();
    let mut i: usize = 0;
    while i < n
        invariant
            i <= n,
            v@ =~= zeros(i as nat),
        decreases n - i,
    {
        v.push(0);
        i = i + 1;
    }
    v
}

/// The command that sends raster line `line`: `67 00 5A` and the line.
pub fn raster_line_command(line: &[u8; 90]) -> (r: Vec<u8>)
    ensures
        r@ == raster_command(line@),
        r@.len() == 93,
{
    let mut command: Vec<u8> = Vec::new();
    command.push(0x67);
    command.push(0x00);
    command.push(0x5A);
    let mut i: usize = 0;
    while i < 90
        invariant
            i <= 90,
            command@ =~= seq![0x67u8, 0x00, 0x5A] + line@.subrange(0, i as int),
        decreases 90 - i,
    {
        command.push(line[i]);
        i = i + 1;
    }
    proof {
        assert(line@.subrange(0, 90) =~= line@);
    }
    command
}

impl PrintJob {
    /// Stage, device state and copies printed.
    pub open spec fn progress(&self) -> Progress {
        Progress { stage: self.stage, state: self.state, printed: self.printed_copies as nat }
    }

    /// The job header this job sends before each copy.
    pub open spec fn info(&self) -> Info {
        Info {
            media: self.media,
            num_lines: self.lines@.len() as u32,
            page: crate::printer::job::Page::Other,
            prioritize_quality: true,
            cut_each: self.cut_each,
            auto_cut: true,
            cut_at_end: true,
            high_resolution: false,
        }
    }

    /// The consistency of a job's fields.
    pub open spec fn wf(&self) -> bool {
        &&& self.copies >= 1
        &&& self.lines@.len() <= u32::MAX
        &&& self.printed_copies <= self.copies
        &&& (match self.stage {
            Stage::Header | Stage::Line(_) | Stage::Cooling(_) | Stage::Terminator
            | Stage::Verify => self.printed_copies < self.copies && printable(self.media),
            _ => true,
        })
        &&& (match self.stage {
            Stage::Invalidate | Stage::Initialize | Stage::RequestStatus | Stage::AwaitStatus => self.printed_copies == 0,
            _ => true,
        })
        &&& (match self.stage {
            Stage::Line(i) | Stage::Cooling(i) => i < self.lines@.len(),
            _ => true,
        })
        &&& (self.stage == Stage::Done <==> self.result matches Some(Ok(_)))
        &&& (self.stage == Stage::Failed <==> self.result matches Some(Err(_)))
    }

    /// The bytes to send next and their timeout, in the stages that send.
    pub open spec fn request(&self) -> Option<(Seq<u8>, Wait)> {
        match self.stage {
            Stage::Invalidate => Some((zeros(400), Wait::Standard)),
            Stage::Initialize => Some((zeros(400), Wait::General)),
            Stage::RequestStatus | Stage::FinalRequest => Some((status_request(), Wait::StatusCommand)),
            Stage::Header => Some((self.info().header(), Wait::General)),
            Stage::Line(i) => Some((raster_command(self.lines@[i as int]@), Wait::LinePrint)),
            Stage::Terminator => Some(
                (seq![terminator(self.printed_copies as nat, self.copies as nat)], Wait::LinePrint),
            ),
            _ => None,
        }
    }

    /// A job that prints `copies` copies of `lines`, cutting after every
    /// `cut_each` labels.
    pub fn new(lines: Vec<[u8; 90]>, copies: usize, cut_each: u8) -> (r: Self)
        requires
            copies >= 1,
            lines@.len() <= u32::MAX,
        ensures
            r.wf(),
            r.lines@ == lines@,
            r.copies == copies,
            r.cut_each == cut_each,
            r.progress() == (Progress { stage: Stage::Invalidate, state: State::Waiting, printed: 0 }),
    {
        PrintJob {
            lines,
            copies,
            cut_each,
            stage: Stage::Invalidate,
            state: State::Waiting,
            printed_copies: 0,
            media: Media { media_type: MediaType::NoMedia, width: 0, length: 0 },
            result: None,
        }
    }

    /// What to do next.
    pub fn action(&self) -> (r: Action)
        requires
            self.wf(),
        ensures
            r matches Action::Write(bytes, wait) ==> self.request() == Some((bytes@, wait)),
            r is Read <==> (match self.stage {
                Stage::AwaitStatus | Stage::FinalAwait | Stage::Cooling(_) | Stage::Verify => true,
                _ => false,
            }),
            r is Finish <==> (self.stage == Stage::Done || self.stage == Stage::Failed),
            r is Write <==> self.request() is Some,
    {
        match self.stage {
            Stage::Invalidate => Action::Write(zero_bytes(400), Wait::Standard),
            Stage::Initialize => Action::Write(zero_bytes(400), Wait::General),
            Stage::RequestStatus | Stage::FinalRequest => {
                let command: Vec<u8> = vec![0x1B, 0x69, 0x53];
                proof {
                    assert(command@ =~= status_request());
                }
                Action::Write(command, Wait::StatusCommand)
            },
            Stage::Header => {
                let mut info = Info::new(self.media, self.lines.len() as u32);
                info.cut_each = self.cut_each;
                proof {
                    assert(info == self.info());
                }
                Action::Write(info.serialize(), Wait::General)
            },
            Stage::Line(i) => Action::Write(raster_line_command(&self.lines[i]), Wait::LinePrint),
            Stage::Terminator => {
                let byte: u8 = if self.copies > self.printed_copies + 1 {
                    0x0C
                } else {
                    0x1A
                };
                let command: Vec<u8> = vec![byte];
                proof {
                    assert(command@ =~= seq![terminator(self.printed_copies as nat, self.copies as nat)]);
                }
                Action::Write(command, Wait::LinePrint)
            },
            Stage::AwaitStatus | Stage::FinalAwait | Stage::Cooling(_) | Stage::Verify => Action::Read,
            Stage::Done | Stage::Failed => Action::Finish,
        }
    }

    fn fail(&mut self, err: PrinterError)
        ensures
            final(self).stage == Stage::Failed,
            final(self).result == Some(Err::<Response, PrinterError>(err)),
            final(self).lines == old(self).lines,
            final(self).copies == old(self).copies,
            final(self).cut_each == old(self).cut_each,
            final(self).state == old(self).state,
            final(self).printed_copies == old(self).printed_copies,
            final(self).media == old(self).media,
    {
        self.stage = Stage::Failed;
        self.result = Some(Err(err));
    }

    /// Moves the job on by what came of its last action.
    pub fn advance(&mut self, event: Event)
        requires
            old(self).wf(),
        ensures
            final(self).wf(),
            final(self).progress() == transition(
                old(self).progress(),
                old(self).copies as nat,
                old(self).lines@.len(),
                event,
            ),
            final(self).lines == old(self).lines,
            final(self).copies == old(self).copies,
            final(self).cut_each == old(self).cut_each,
            final(self).media == (match (old(self).stage, event) {
                (Stage::AwaitStatus, Event::Frame(r)) => r.media,
                _ => old(self).media,
            }),
            old(self).stage != Stage::Failed && final(self).stage == Stage::Failed ==> error_for(
                old(self).progress(),
                event,
                final(self).result->0->Err_0,
            ),
            old(self).stage != Stage::Done && final(self).stage == Stage::Done ==> (event matches Event::Frame(r)
                && final(self).result == Some(Ok::<Response, PrinterError>(r))),
            old(self).stage == Stage::Done || old(self).stage == Stage::Failed ==> final(self).result
                == old(self).result,
    {
        match self.stage {
            Stage::Invalidate => {
                if let Event::Written = event {
                    self.stage = Stage::Initialize;
                }
            },
            Stage::Initialize | Stage::RequestStatus | Stage::Header | Stage::Terminator
            | Stage::FinalRequest => {
                match event {
                    Event::Written => {
                        self.stage = match self.stage {
                            Stage::Initialize => Stage::RequestStatus,
                            Stage::RequestStatus => Stage::AwaitStatus,
                            Stage::Header => if self.lines.len() > 0 {
                                Stage::Line(0)
                            } else {
                                Stage::Terminator
                            },
                            Stage::Terminator => Stage::Verify,
                            _ => Stage::FinalAwait,
                        };
                    },
                    Event::WriteFailed(u) => self.fail(PrinterError::Usb(u)),
                    _ => {},
                }
            },
            Stage::AwaitStatus | Stage::FinalAwait => {
                let awaiting_start = self.stage == Stage::AwaitStatus;
                match event {
                    Event::Frame(r) => {
                        if !awaiting_start {
                            self.stage = Stage::Done;
                            self.result = Some(Ok(r));
                        } else if r.phase_type != PhaseType::WaitingToReceive {
                            self.media = r.media;
                            self.fail(printer_error("printer in invalid phase"));
                        } else if r.media.media_type == MediaType::NoMedia {
                            self.media = r.media;
                            self.fail(printer_error("no media loaded"));
                        } else if r.media.label().is_none() {
                            self.media = r.media;
                            self.fail(printer_error("Unknown media loaded in printer"));
                        } else {
                            self.media = r.media;
                            self.stage = Stage::Header;
                            self.state = State::Waiting;
                        }
                    },
                    Event::ReadFailed(err) => {
                        if !matches!(err, PrinterError::Usb(UsbError::Timeout)) {
                            self.fail(err);
                        }
                    },
                    Event::Expired => self.fail(PrinterError::Usb(UsbError::Timeout)),
                    _ => {},
                }
            },
            Stage::Line(i) => {
                match event {
                    Event::Written => {
                        self.stage = if i + 1 < self.lines.len() {
                            Stage::Line(i + 1)
                        } else {
                            Stage::Terminator
                        };
                    },
                    Event::WriteFailed(UsbError::Timeout) => self.stage = Stage::Cooling(i),
                    Event::WriteFailed(u) => self.fail(PrinterError::Usb(u)),
                    _ => {},
                }
            },
            Stage::Cooling(_) | Stage::Verify => {
                let frame: Option<Response> = match event {
                    Event::Frame(r) => Some(r),
                    Event::ReadFailed(_) => None,
                    _ => return ,
                };
                let (next, reads_on) = read_step(self.state, frame.as_ref());
                self.state = next;
                if reads_on {
                    return ;
                }
                match self.stage {
                    Stage::Cooling(i) => {
                        if next == State::PrintingStarted {
                            self.stage = Stage::Line(i);
                        } else {
                            self.fail(with_flags("unexpected state during cooldown", frame.as_ref()));
                        }
                    },
                    _ => {
                        if next == State::Waiting {
                            self.printed_copies = self.printed_copies + 1;
                            self.stage = if self.printed_copies >= self.copies {
                                Stage::FinalRequest
                            } else {
                                Stage::Header
                            };
                        } else {
                            self.fail(
                                with_flags("unexpected state during verification", frame.as_ref()),
                            );
                        }
                    },
                }
            },
            Stage::Done | Stage::Failed => {},
        }
    }

    /// The outcome of a finished job: the final status reply, or the error
    /// that ended it.
    pub fn finish(self) -> (r: Result<Response, PrinterError>)
        requires
            self.wf(),
            self.stage == Stage::Done || self.stage == Stage::Failed,
        ensures
            Some(r) == self.result,
    {
        match self.result {
            Some(r) => r,
            None => {
                proof {
                    assert(false);
                }
                Err(PrinterError::Device(String::new()))
            },
        }
    }
}

/// Whether `e` carries a frame whose signal is `sig`.
pub open spec fn frame_with(e: Event, sig: Signal) -> bool {
    e matches Event::Frame(r) && signal_of(r@) == sig
}

/// A cooling pause inside a copy: a raster line write times out, then the
/// device reports cooling started and cooling finished. The job goes back to
/// the same line, printing, with the same number of copies printed.
pub proof fn lemma_cooling_keeps_copies(
    p: Progress,
    copies: nat,
    n_lines: nat,
    started: Event,
    finished: Event,
    ph1: PhaseType,
    ph2: PhaseType,
)
    requires
        p.stage is Line,
        p.state == State::PrintingStarted,
        frame_with(started, (StatusType::Notification, ph1, Notification::CoolingStarted)),
        frame_with(finished, (StatusType::Notification, ph2, Notification::CoolingFinished)),
    ensures
        ({
            let q1 = transition(p, copies, n_lines, Event::WriteFailed(UsbError::Timeout));
            let q2 = transition(q1, copies, n_lines, started);
            let q3 = transition(q2, copies, n_lines, finished);
            &&& q1.stage == Stage::Cooling(p.stage->Line_0) && q1.printed == p.printed
            &&& q2.stage == Stage::Cooling(p.stage->Line_0) && q2.state == State::Cooling
                && q2.printed == p.printed
            &&& q3.stage == p.stage && q3.state == State::PrintingStarted && q3.printed == p.printed
        }),
{
}

/// A frame the read loop does not expect, met while the job reads (through a
/// cooling pause or at the end of a copy) in any state but `Errored`, fails
/// the job in `Errored`; a failed job stays failed whatever comes, and sends
/// nothing more.
pub proof fn lemma_unexpected_frame_stops_job(job: PrintJob, e: Event, r: Response, later: Event)
    requires
        job.wf(),
        job.stage is Cooling || job.stage == Stage::Verify,
        job.state != State::Errored,
        e == Event::Frame(r),
        !expected(job.state, signal_of(r@)),
    ensures
        ({
            let q = transition(job.progress(), job.copies as nat, job.lines@.len(), e);
            &&& q.stage == Stage::Failed && q.state == State::Errored
            &&& transition(q, job.copies as nat, job.lines@.len(), later) == q
        }),
        forall|j: PrintJob| j.stage == Stage::Failed ==> #[trigger] j.request() is None,
{
}

/// What a bulk read of a status frame gave.
#[derive(Debug, Clone, Copy, PartialEq, Eq, Structural)]
pub enum ReadOutcome {
    /// Nothing yet: wait a moment and read again.
    Empty,
    /// Not a status frame: read again.
    Malformed,
    /// A full frame to decode.
    Complete,
}

/// Classifies a read of `bytes_read` bytes whose first byte is `first_byte`.
pub fn classify_read(bytes_read: usize, first_byte: u8) -> (r: ReadOutcome)
    ensures
        r == (if bytes_read == 0 {
            ReadOutcome::Empty
        } else if bytes_read != 32 || first_byte != 0x80 {
            ReadOutcome::Malformed
        } else {
            ReadOutcome::Complete
        }),
{
    if bytes_read == 0 {
        ReadOutcome::Empty
    } else if bytes_read != 32 || first_byte != 0x80 {
        ReadOutcome::Malformed
    } else {
        ReadOutcome::Complete
    }
}

/// An endpoint of the printer's interface, as its descriptor gives it.
#[derive(Debug, Clone, Copy, PartialEq, Eq, Structural)]
pub struct EndpointInfo {
    pub address: u8,
    pub is_bulk: bool,
    pub is_in: bool,
}

/// The address of the last endpoint of `eps` in direction `is_in`, if any.
pub open spec fn last_address(eps: Seq<EndpointInfo>, is_in: bool) -> Option<u8>
    decreases eps.len(),
{
    if eps.len() == 0 {
        None
    } else if eps.last().is_in == is_in {
        Some(eps.last().address)
    } else {
        last_address(eps.drop_last(), is_in)
    }
}

/// How many endpoints of `eps` go in direction `is_in`.
pub open spec fn count_direction(eps: Seq<EndpointInfo>, is_in: bool) -> nat
    decreases eps.len(),
{
    if eps.len() == 0 {
        0
    } else {
        count_direction(eps.drop_last(), is_in) + if eps.last().is_in == is_in {
            1nat
        } else {
            0
        }
    }
}

/// Whether the device's layout is the one the printers have: one interface
/// with one alternate setting, whose endpoints are all bulk, one IN and one OUT.
pub open spec fn layout_ok(interfaces: nat, alt_settings: nat, eps: Seq<EndpointInfo>) -> bool {
    &&& interfaces == 1
    &&& alt_settings == 1
    &&& forall|k: int| 0 <= k < eps.len() ==> #[trigger] eps[k].is_bulk
    &&& count_direction(eps, true) == 1
    &&& count_direction(eps, false) == 1
}

/// Checks the device's interface layout and picks the (in, out) bulk endpoint
/// addresses: `interfaces` interfaces, `alt_settings` alternate settings of
/// the interface used, and its endpoints.
pub fn select_endpoints(interfaces: usize, alt_settings: usize, endpoints: &Vec<EndpointInfo>) -> (r:
    Result<(u8, u8), PrinterError>)
    ensures
        r is Ok <==> layout_ok(interfaces as nat, alt_settings as nat, endpoints@),
        r is Ok ==> r == Ok::<(u8, u8), PrinterError>(
            (last_address(endpoints@, true)->0, last_address(endpoints@, false)->0),
        ),
        r is Err ==> r->Err_0 is Device,
{
    if interfaces != 1 {
        return Err(
            PrinterError::Device("Brother QL printers should have exactly one interface".to_owned()),
        );
    }
    if alt_settings != 1 {
        return Err(
            PrinterError::Device(
                "Brother QL printers should have exactly one interface descriptor".to_owned(),
            ),
        );
    }
    let mut all_bulk = true;
    let mut in_count: usize = 0;
    let mut out_count: usize = 0;
    let mut in_endpoint: Option<u8> = None;
    let mut out_endpoint: Option<u8> = None;
    let mut k: usize = 0;
    while k < endpoints.len()
        invariant
            k <= endpoints@.len(),
            all_bulk == forall|j: int| 0 <= j < k ==> #[trigger] endpoints@[j].is_bulk,
            in_count == count_direction(endpoints@.subrange(0, k as int), true),
            out_count == count_direction(endpoints@.subrange(0, k as int), false),
            in_count + out_count == k,
            in_endpoint == last_address(endpoints@.subrange(0, k as int), true),
            out_endpoint == last_address(endpoints@.subrange(0, k as int), false),
        decreases endpoints.len() - k,
    {
        let ep = endpoints[k];
        proof {
            assert(endpoints@.subrange(0, k + 1).drop_last() =~= endpoints@.subrange(0, k as int));
        }
        if !ep.is_bulk {
            all_bulk = false;
        }
        if ep.is_in {
            in_endpoint = Some(ep.address);
            in_count = in_count + 1;
        } else {
            out_endpoint = Some(ep.address);
            out_count = out_count + 1;
        }
        k = k + 1;
    }
    proof {
        assert(endpoints@.subrange(0, endpoints@.len() as int) =~= endpoints@);
    }
    if !all_bulk {
        return Err(
            PrinterError::Device(
                "Brother QL printers are defined as using only bulk endpoint communication".to_owned(),
            ),
        );
    }
    match (in_endpoint, out_endpoint) {
        (Some(i), Some(o)) => {
            if in_count == 1 && out_count == 1 {
                Ok((i, o))
            } else {
                Err(PrinterError::Device("Expected exactly one input and one output endpoint".to_owned()))
            }
        },
        _ => {
            proof {
                lemma_no_last_address(endpoints@, true);
                lemma_no_last_address(endpoints@, false);
            }
            Err(PrinterError::Device("Input or output endpoint not found".to_owned()))
        },
    }
}

proof fn lemma_no_last_address(eps: Seq<EndpointInfo>, is_in: bool)
    ensures
        last_address(eps, is_in) is None <==> count_direction(eps, is_in) == 0,
    decreases eps.len(),
{
    if eps.len() > 0 {
        lemma_no_last_address(eps.drop_last(), is_in);
    }
}

/// The raster lines of `image` for the label of `media`: scaled to the
/// label's printable width. Fails on media the catalogue does not know, and on
/// images whose scaled size cannot be held.
pub fn encode_for_media(media: &Media, image: &RgbaBitmap, orientation: Orientation, dither: bool) -> (r:
    Result<Vec<[u8; 90]>, PrinterError>)
    requires
        image@.is_rgba(),
    ensures
        match media.label_view() {
            None => r is Err && r->Err_0 is Printer && r->Err_0->Printer_0@
                == "Unknown media loaded in printer"@,
            Some(l) => if fits(image@, orientation, l.dots_printable.0 as nat) {
                r is Ok && encodes(
                    line_views(r->Ok_0@),
                    image@,
                    orientation,
                    l.dots_printable.0 as nat,
                    dither,
                )
            } else {
                r is Err && r->Err_0 is Printer && r->Err_0->Printer_0@ == "image too large to print"@
            },
        },
{
    let label = media.current_label()?;
    match encode_image(image, orientation, label.dots_printable.0, dither) {
        Some(lines) => Ok(lines),
        None => Err(printer_error("image too large to print")),
    }
}

} // verus!
