//! The capture session: format and frame-rate negotiation, the pool of mapped buffers,
//! and the frames drawn from it.
//!
//! The session decides; the caller performs each query on the device and hands the
//! driver's answer back.
use vstd::prelude::*;

use crate::consts::FIELD_NONE;
use crate::control::{
    set_request, ControlIter, ControlIterView, ControlQuery, Settable, Stage,
};
use crate::enumerate::{
    format_position, fourcc_of, FormatInfo, FormatIter, IntervalWalk, ResolutionWalk, WalkView,
};
use crate::error::{Error, Result, EINVAL, EIO};
use crate::v4l2::{Buffer, ExtControl, Format, Fract, PixFormat, RequestBuffers, StreamParm};

verus! {


pub struct Config<'a> {
    /// The mix of numerator and denominator. v4l2 uses frame intervals instead of frame rates.
    /// Default is `(1, 10)`.
    pub interval: (u32, u32),
    /// Width and height of frame.
    /// Default is `(640, 480)`.
    pub resolution: (u32, u32),
    /// FourCC of format (e.g. `b"RGB3"`). Note that case matters.
    /// Default is `b"YUYV"`.
    pub format: &'a [u8],
    /// Storage method of interlaced video. See `FIELD_*` constants.
    /// Default is `FIELD_NONE` (progressive).
    pub field: u32,
    /// Number of buffers in the queue of camera.
    /// Default is `2`.
    pub nbuffers: u32,
}

/// The outcome of setting a format: the driver's echo must be the request exactly.
pub open spec fn format_verdict(
    resolution: (u32, u32),
    fourcc: u32,
    field: u32,
    echo: PixFormat,
) -> Result<()> {
    if resolution != (echo.width, echo.height) {
        Err(Error::BadResolution)
    } else if fourcc != echo.pixelformat {
        Err(Error::BadFormat)
    } else if field != echo.field {
        Err(Error::BadField)
    } else {
        Ok(())
    }
}

/// Whether the driver's interval `echo` is the requested one, compared by
/// cross-multiplication; a zero product never is.
pub open spec fn interval_agrees(requested: (u32, u32), echo: Fract) -> bool {
    let x = echo.numerator as int * requested.1 as int;
    let y = echo.denominator as int * requested.0 as int;
    x != 0 && y != 0 && x == y
}

/// Checks the driver's echo of a format request.
pub fn tune_format(resolution: (u32, u32), fourcc: u32, field: u32, echo: &Format) -> (r: Result<()>)
    ensures
        r == format_verdict(resolution, fourcc, field, echo.fmt),
{
    if resolution.0 != echo.fmt.width || resolution.1 != echo.fmt.height {
        return Err(Error::BadResolution);
    }
    if fourcc != echo.fmt.pixelformat {
        return Err(Error::BadFormat);
    }
    if field != echo.fmt.field {
        return Err(Error::BadField);
    }
    Ok(())
}

/// Checks the driver's echo of a frame-interval request.
pub fn tune_stream(interval: (u32, u32), echo: Fract) -> (r: Result<()>)
    ensures
        r is Ok <==> interval_agrees(interval, echo),
        r is Err ==> r == Err::<(), Error>(Error::BadInterval),
{
    let (a, b) = (echo.numerator as u64, interval.1 as u64);
    let (c, d) = (echo.denominator as u64, interval.0 as u64);
    assert(a * b <= 0xffff_fffe_0000_0001 && c * d <= 0xffff_fffe_0000_0001) by (nonlinear_arith)
        requires
            a <= u32::MAX,
            b <= u32::MAX,
            c <= u32::MAX,
            d <= u32::MAX,
    ;
    let x = a * b;
    let y = c * d;
    if x == 0 || y == 0 || x != y {
        Err(Error::BadInterval)
    } else {
        Ok(())
    }
}

/// Where a start stands.
#[derive(Debug, Clone, Copy, PartialEq, Eq, Structural)]
pub enum StartPhase {
    /// Setting the format (`VIDIOC_S_FMT`).
    SetFormat,
    /// Setting the frame interval (`VIDIOC_S_PARM`).
    SetInterval,
    /// Reserving the buffers (`VIDIOC_REQBUFS`).
    Reserve,
    /// Querying the buffer at this index (`VIDIOC_QUERYBUF`).
    Query(u32),
    /// Mapping the buffer at this index.
    MapBuffer(u32),
    /// Enqueueing the buffer at this index (`VIDIOC_QBUF`).
    Enqueue(u32),
    /// Switching the stream on (`VIDIOC_STREAMON`).
    StreamOn,
    /// Streaming.
    Done,
    /// Given up, every mapped buffer to be released.
    Failed(Error),
}

/// What a start asks of the device next.
pub enum StartRequest {
    SetFormat(Format),
    SetParm(StreamParm),
    Reserve(RequestBuffers),
    Query(Buffer),
    /// Map `length` bytes of the device's memory at `offset`, as the buffer at `index`.
    MapBuffer { index: u32, length: u32, offset: u64 },
    Enqueue(Buffer),
    StreamOn,
}

/// The device's answer to a `StartRequest`.
pub enum StartAnswer {
    /// The driver's echo of the format.
    Format(Format),
    /// The driver's echo of the stream parameters.
    Parm(StreamParm),
    /// The queried buffer.
    Buffer(Buffer),
    /// The request was carried out.
    Done,
}

pub struct StartView {
    pub resolution: (u32, u32),
    pub fourcc: u32,
    pub format: Seq<u8>,
    pub field: u32,
    pub interval: (u32, u32),
    pub nbuffers: u32,
    pub phase: StartPhase,
    /// Mapped length of each buffer mapped so far, by index.
    pub buffers: Seq<u32>,
    /// Length and offset of the buffer last queried.
    pub pending: (u32, u64),
}

impl StartView {
    /// The buffers mapped match the phase: none before the first is queried, one per
    /// buffer queried and mapped, all of them once enqueueing begins; none after a failure.
    pub open spec fn wf(self) -> bool {
        &&& self.format.len() == 4
        &&& self.nbuffers >= 1
        &&& match self.phase {
            StartPhase::Query(i) | StartPhase::MapBuffer(i) => i < self.nbuffers
                && self.buffers.len() == i,
            StartPhase::Enqueue(i) => i < self.nbuffers && self.buffers.len() == self.nbuffers,
            StartPhase::StreamOn | StartPhase::Done => self.buffers.len() == self.nbuffers,
            _ => self.buffers.len() == 0,
        }
    }
}

/// Whether `a` answers what is asked at `phase`.
pub open spec fn start_answers(phase: StartPhase, a: StartAnswer) -> bool {
    match phase {
        StartPhase::SetFormat => a is Format,
        StartPhase::SetInterval => a is Parm,
        StartPhase::Query(_) => a is Buffer,
        StartPhase::Reserve
        | StartPhase::MapBuffer(_)
        | StartPhase::Enqueue(_)
        | StartPhase::StreamOn => a is Done,
        _ => false,
    }
}

/// What follows the buffer at `index` in a loop over `n` buffers: `more` at the next
/// index, else `then`.
pub open spec fn loop_next(index: u32, n: u32, more: StartPhase, then: StartPhase) -> StartPhase {
    if index + 1 < n {
        more
    } else {
        then
    }
}

/// A start once `reply` is taken at `v`; every failure releases what was mapped.
pub open spec fn start_after(
    v: StartView,
    reply: core::result::Result<StartAnswer, i32>,
) -> StartView {
    match reply {
        Err(e) => StartView { phase: StartPhase::Failed(Error::Io(e)), buffers: seq![], ..v },
        Ok(a) => match (v.phase, a) {
            (StartPhase::SetFormat, StartAnswer::Format(f)) => match format_verdict(
                v.resolution,
                v.fourcc,
                v.field,
                f.fmt,
            ) {
                Ok(_) => StartView { phase: StartPhase::SetInterval, ..v },
                Err(e) => StartView { phase: StartPhase::Failed(e), buffers: seq![], ..v },
            },
            (StartPhase::SetInterval, StartAnswer::Parm(p)) => if interval_agrees(
                v.interval,
                p.parm.timeperframe,
            ) {
                StartView { phase: StartPhase::Reserve, ..v }
            } else {
                StartView { phase: StartPhase::Failed(Error::BadInterval), buffers: seq![], ..v }
            },
            (StartPhase::Reserve, _) => StartView {
                phase: if v.nbuffers > 0 { StartPhase::Query(0) } else { StartPhase::StreamOn },
                ..v
            },
            (StartPhase::Query(i), StartAnswer::Buffer(b)) => StartView {
                phase: StartPhase::MapBuffer(i),
                pending: (b.length, b.m),
                ..v
            },
            (StartPhase::MapBuffer(i), _) => StartView {
                phase: loop_next(
                    i,
                    v.nbuffers,
                    StartPhase::Query((i + 1) as u32),
                    StartPhase::Enqueue(0),
                ),
                buffers: v.buffers.push(v.pending.0),
                ..v
            },
            (StartPhase::Enqueue(i), _) => StartView {
                phase: loop_next(
                    i,
                    v.nbuffers,
                    StartPhase::Enqueue((i + 1) as u32),
                    StartPhase::StreamOn,
                ),
                ..v
            },
            (StartPhase::StreamOn, _) => StartView { phase: StartPhase::Done, ..v },
            _ => v,
        },
    }
}

/// A start of streaming under way: negotiation, then the buffer pool, then the stream.
pub struct Start {
    resolution: (u32, u32),
    fourcc: u32,
    format: [u8; 4],
    field: u32,
    interval: (u32, u32),
    nbuffers: u32,
    phase: StartPhase,
    buffers: Vec<u32>,
    pending: (u32, u64),
}

impl View for Start {
    type V = StartView;

    closed spec fn view(&self) -> StartView {
        StartView {
            resolution: self.resolution,
            fourcc: self.fourcc,
            format: self.format@,
            field: self.field,
            interval: self.interval,
            nbuffers: self.nbuffers,
            phase: self.phase,
            buffers: self.buffers@,
            pending: self.pending,
        }
    }
}

impl Start {
    pub fn phase(&self) -> (r: StartPhase)
        ensures
            r == self@.phase,
    {
        self.phase
    }

    /// The request to carry out next.
    pub fn request(&self) -> (r: StartRequest)
        requires
            !(self@.phase is Done),
            !(self@.phase is Failed),
        ensures
            self@.phase is SetFormat ==> r == StartRequest::SetFormat(
                Format::new_spec(self@.resolution, self@.fourcc, self@.field),
            ),
            self@.phase is SetInterval ==> (r matches StartRequest::SetParm(p) && p.ptype
                == crate::v4l2::BUF_TYPE_VIDEO_CAPTURE && p.parm.timeperframe == (Fract {
                numerator: self@.interval.0,
                denominator: self@.interval.1,
            })),
            self@.phase is Reserve ==> r == StartRequest::Reserve(
                RequestBuffers {
                    count: self@.nbuffers,
                    btype: crate::v4l2::BUF_TYPE_VIDEO_CAPTURE,
                    memory: crate::v4l2::MEMORY_MMAP,
                },
            ),
            self@.phase matches StartPhase::Query(i) ==> r == StartRequest::Query(Buffer::spec_new(i)),
            self@.phase matches StartPhase::MapBuffer(i) ==> r == (StartRequest::MapBuffer {
                index: i,
                length: self@.pending.0,
                offset: self@.pending.1,
            }),
            self@.phase matches StartPhase::Enqueue(i) ==> r == StartRequest::Enqueue(Buffer::spec_new(i)),
            self@.phase is StreamOn ==> r is StreamOn,
    {
        match self.phase {
            StartPhase::SetFormat => StartRequest::SetFormat(
                Format::new(self.resolution, self.fourcc, self.field),
            ),
            StartPhase::SetInterval => StartRequest::SetParm(StreamParm::new(self.interval)),
            StartPhase::Reserve => StartRequest::Reserve(RequestBuffers::new(self.nbuffers)),
            StartPhase::Query(i) => StartRequest::Query(Buffer::with_index(i)),
            StartPhase::MapBuffer(i) => StartRequest::MapBuffer {
                index: i,
                length: self.pending.0,
                offset: self.pending.1,
            },
            StartPhase::Enqueue(i) => StartRequest::Enqueue(Buffer::with_index(i)),
            _ => StartRequest::StreamOn,
        }
    }

    /// Takes the device's answer to `request`.
    pub fn answer(&mut self, reply: core::result::Result<StartAnswer, i32>)
        requires
            !(old(self)@.phase is Done),
            !(old(self)@.phase is Failed),
            old(self)@.wf(),
            reply is Ok ==> start_answers(old(self)@.phase, reply->Ok_0),
        ensures
            final(self)@ == start_after(old(self)@, reply),
            final(self)@.wf(),
    {
        let a = match reply {
            Err(e) => {
                self.fail(Error::Io(e));
                return;
            },
            Ok(a) => a,
        };
        match (self.phase, a) {
            (StartPhase::SetFormat, StartAnswer::Format(f)) => {
                match tune_format(self.resolution, self.fourcc, self.field, &f) {
                    Ok(()) => self.phase = StartPhase::SetInterval,
                    Err(e) => self.fail(e),
                }
            },
            (StartPhase::SetInterval, StartAnswer::Parm(p)) => {
                match tune_stream(self.interval, p.parm.timeperframe) {
                    Ok(()) => self.phase = StartPhase::Reserve,
                    Err(e) => self.fail(e),
                }
            },
            (StartPhase::Reserve, _) => {
                self.phase = if self.nbuffers > 0 { StartPhase::Query(0) } else { StartPhase::StreamOn };
            },
            (StartPhase::Query(i), StartAnswer::Buffer(b)) => {
                self.phase = StartPhase::MapBuffer(i);
                self.pending = (b.length, b.m);
            },
            (StartPhase::MapBuffer(i), _) => {
                self.buffers.push(self.pending.0);
                self.phase = if i < self.nbuffers && i + 1 < self.nbuffers {
                    StartPhase::Query(i + 1)
                } else {
                    StartPhase::Enqueue(0)
                };
            },
            (StartPhase::Enqueue(i), _) => {
                self.phase = if i < self.nbuffers && i + 1 < self.nbuffers {
                    StartPhase::Enqueue(i + 1)
                } else {
                    StartPhase::StreamOn
                };
            },
            (StartPhase::StreamOn, _) => self.phase = StartPhase::Done,
            _ => {},
        }
    }

    fn fail(&mut self, e: Error)
        ensures
            final(self)@ == (StartView { phase: StartPhase::Failed(e), buffers: seq![], ..old(self)@ }),
    {
        self.phase = StartPhase::Failed(e);
        self.buffers = Vec::new();
        assert(self@.buffers =~= seq![]);
    }
}

/// State of a capture session.
#[derive(Debug, Clone, Copy, PartialEq, Eq, Structural)]
pub enum State {
    Idle,
    Streaming,
    Aborted,
}

pub struct CameraView {
    pub state: State,
    pub resolution: (u32, u32),
    pub format: Seq<u8>,
    /// Mapped length of each pooled buffer, by index.
    pub buffers: Seq<u32>,
}

impl CameraView {
    /// The pool holds buffers exactly while streaming.
    pub open spec fn wf(self) -> bool {
        &&& !(self.state is Streaming) ==> self.buffers.len() == 0
        &&& self.state is Streaming ==> self.buffers.len() > 0
    }
}

/// A capture session: its state, the mode negotiated when it started, and its pool of
/// mapped buffers.
pub struct Camera {
    state: State,
    resolution: (u32, u32),
    format: [u8; 4],
    buffers: Vec<u32>,
}

impl View for Camera {
    type V = CameraView;

    closed spec fn view(&self) -> CameraView {
        CameraView {
            state: self.state,
            resolution: self.resolution,
            format: self.format@,
            buffers: self.buffers@,
        }
    }
}

/// A start once it has ended at `run`: streaming on the pool it mapped, or idle as before.
pub open spec fn after_start(c: CameraView, run: StartView) -> CameraView {
    if run.phase is Done {
        CameraView {
            state: State::Streaming,
            resolution: run.resolution,
            format: run.format,
            buffers: run.buffers,
        }
    } else {
        c
    }
}

/// A session once streaming is off: no buffers, and over for good.
pub open spec fn after_stop(c: CameraView) -> CameraView {
    CameraView { state: State::Aborted, buffers: seq![], ..c }
}

/// A frame: a dequeued buffer, read up to the length the driver filled.
pub struct Frame {
    /// Width and height of the frame.
    pub resolution: (u32, u32),
    /// FourCC of the format.
    pub format: [u8; 4],
    /// Number of bytes the driver filled.
    pub length: u32,
    /// The dequeued buffer, handed back to the driver once the frame is released.
    pub buffer: Buffer,
}

impl Frame {
    pub open spec fn spec_resolution(&self) -> (u32, u32) {
        self.resolution
    }

    pub open spec fn spec_format(&self) -> Seq<u8> {
        self.format@
    }

    /// Number of bytes of the frame.
    pub open spec fn spec_len(&self) -> u32 {
        self.length
    }

    /// The dequeued buffer that the frame holds.
    pub open spec fn spec_ticket(&self) -> Buffer {
        self.buffer
    }

    pub fn len(&self) -> (r: u32)
        ensures
            r == self.spec_len(),
    {
        self.length
    }

    /// Index of the pooled buffer that holds the frame.
    pub fn index(&self) -> (r: u32)
        ensures
            r == self.spec_ticket().index,
    {
        self.buffer.index
    }

    /// The record that hands the buffer back to the driver (`VIDIOC_QBUF`) once the frame
    /// is released.
    pub fn ticket(&self) -> (r: Buffer)
        ensures
            r == self.spec_ticket(),
    {
        self.buffer
    }

    /// Return frame timestamp in microseconds using monotonically
    /// nondecreasing clock
    pub fn get_timestamp(&self) -> (r: u64)
        ensures
            r as int == (1_000_000 * (self.spec_ticket().timestamp.tv_sec as u64) + (
            self.spec_ticket().timestamp.tv_usec as u64)) % 0x1_0000_0000_0000_0000,
    {
        let t = self.buffer.timestamp;
        let micros = 1_000_000u64.wrapping_mul(t.tv_sec as u64);
        micros.wrapping_add(t.tv_usec as u64)
    }
}

impl Camera {
    /// A session in `Idle`, with no buffers.
    pub fn new() -> (r: Camera)
        ensures
            r@ == (CameraView {
                state: State::Idle,
                resolution: (0, 0),
                format: seq![0u8, 0, 0, 0],
                buffers: seq![],
            }),
            r@.wf(),
    {
        let r = Camera {
            state: State::Idle,
            resolution: (0, 0),
            format: [0, 0, 0, 0],
            buffers: Vec::new(),
        };
        assert(r@.format =~= seq![0u8, 0, 0, 0]);
        assert(r@.buffers =~= seq![]);
        r
    }

    pub fn state(&self) -> (r: State)
        ensures
            r == self@.state,
    {
        self.state
    }

    /// Number of buffers in the pool.
    pub fn buffer_count(&self) -> (r: usize)
        ensures
            r == self@.buffers.len(),
    {
        self.buffers.len()
    }

    /// Begins to start streaming with `config`; a format name that is not four bytes long
    /// is rejected, and so is a pool of no buffers (`Io(EINVAL)`). Only an idle session can
    /// start: a stopped one is over for good.
    pub fn start(&self, config: &Config) -> (r: Result<Start>)
        requires
            self@.state is Idle,
        ensures
            config.format@.len() != 4 ==> r == Err::<Start, Error>(Error::BadFormat),
            config.format@.len() == 4 && config.nbuffers == 0 ==> r == Err::<Start, Error>(
                Error::Io(EINVAL),
            ),
            config.format@.len() == 4 && config.nbuffers >= 1 ==> (r matches Ok(run) && run@ == (StartView {
                resolution: config.resolution,
                fourcc: fourcc_of(config.format@),
                format: config.format@,
                field: config.field,
                interval: config.interval,
                nbuffers: config.nbuffers,
                phase: StartPhase::SetFormat,
                buffers: seq![],
                pending: (0, 0),
            }) && run@.wf()),
    {
        if config.format.len() != 4 {
            return Err(Error::BadFormat);
        }
        if config.nbuffers == 0 {
            return Err(Error::Io(EINVAL));
        }
        let format = [config.format[0], config.format[1], config.format[2], config.format[3]];
        let run = Start {
            resolution: config.resolution,
            fourcc: FormatInfo::fourcc(config.format),
            format,
            field: config.field,
            interval: config.interval,
            nbuffers: config.nbuffers,
            phase: StartPhase::SetFormat,
            buffers: Vec::new(),
            pending: (0, 0),
        };
        assert(run@.format =~= config.format@);
        assert(run@.buffers =~= seq![]);
        Ok(run)
    }

    /// Ends a start: streaming on its pool when it got through, else the error that
    /// stopped it, the session left as it was.
    pub fn complete_start(&mut self, run: Start) -> (r: Result<()>)
        requires
            old(self)@.state is Idle,
            old(self)@.wf(),
            run@.phase is Done || run@.phase is Failed,
            run@.wf(),
        ensures
            final(self)@ == after_start(old(self)@, run@),
            final(self)@.wf(),
            run@.phase is Done ==> final(self)@.buffers.len() == run@.nbuffers,
            run@.phase is Done ==> r is Ok,
            run@.phase matches StartPhase::Failed(e) ==> r == Err::<(), Error>(e),
    {
        match run.phase {
            StartPhase::Failed(e) => Err(e),
            _ => {
                self.state = State::Streaming;
                self.resolution = run.resolution;
                self.format = run.format;
                self.buffers = run.buffers;
                Ok(())
            },
        }
    }

    /// The record to dequeue a filled buffer with (`VIDIOC_DQBUF`).
    pub fn capture(&self) -> (r: Buffer)
        requires
            self@.state is Streaming,
        ensures
            r == Buffer::spec_new(0),
    {
        Buffer::new()
    }

    /// The frame that the driver's answer to `capture` hands out: tagged with the
    /// negotiated mode, as long as the driver filled, which the mapped buffer must hold.
    /// A buffer outside the pool, or filled past its length, is `Io(EIO)`.
    pub fn frame(&self, reply: core::result::Result<Buffer, i32>) -> (r: Result<Frame>)
        requires
            self@.state is Streaming,
        ensures
            reply is Err ==> r == Err::<Frame, Error>(Error::Io(reply->Err_0)),
            reply is Ok && reply->Ok_0.index >= self@.buffers.len() ==> r == Err::<Frame, Error>(
                Error::Io(EIO),
            ),
            reply is Ok && reply->Ok_0.index < self@.buffers.len() && reply->Ok_0.bytesused
                > self@.buffers[reply->Ok_0.index as int] ==> r == Err::<Frame, Error>(
                Error::Io(EIO),
            ),
            reply is Ok && reply->Ok_0.index < self@.buffers.len() && reply->Ok_0.bytesused
                <= self@.buffers[reply->Ok_0.index as int] ==> (
            r matches Ok(f) && f.resolution == self@.resolution && f.format@ == self@.format
                && f.buffer == reply->Ok_0 && f.length == reply->Ok_0.bytesused),
    {
        match reply {
            Err(e) => Err(Error::Io(e)),
            Ok(b) => {
                if b.index as usize >= self.buffers.len() || b.bytesused > self.buffers[b.index as usize] {
                    return Err(Error::Io(EIO));
                }
                Ok(Frame { resolution: self.resolution, format: self.format, length: b.bytesused, buffer: b })
            },
        }
    }

    /// Ends streaming once the driver has taken the stream off (`VIDIOC_STREAMOFF`): the
    /// pool is released and the session is over. On a failure nothing changes.
    pub fn stop(&mut self, outcome: core::result::Result<(), i32>) -> (r: Result<()>)
        requires
            old(self)@.state is Streaming,
            old(self)@.wf(),
        ensures
            outcome is Ok ==> r is Ok && final(self)@ == after_stop(old(self)@),
            outcome is Err ==> r == Err::<(), Error>(Error::Io(outcome->Err_0)) && final(self)@ == old(self)@,
            final(self)@.wf(),
    {
        match outcome {
            Err(e) => Err(Error::Io(e)),
            Ok(()) => {
                self.buffers = Vec::new();
                self.state = State::Aborted;
                assert(self@.buffers =~= seq![]);
                Ok(())
            },
        }
    }
}

/// FourCC of the default format.
pub const YUYV: [u8; 4] = [89, 85, 89, 86];

impl<'a> Default for Config<'a> {
    fn default() -> (r: Config<'a>)
        ensures
            r.interval == (1u32, 10u32),
            r.resolution == (640u32, 480u32),
            r.format@ == seq![89u8, 85, 89, 86],
            r.field == FIELD_NONE,
            r.nbuffers == 2,
    {
        let r = Config { interval: (1, 10), resolution: (640, 480), format: &YUYV, field: FIELD_NONE, nbuffers: 2 };
        assert(r.format@ =~= seq![89u8, 85, 89, 86]);
        r
    }
}

impl Camera {
    /// Get detailed info about the available formats: a listing from the first.
    pub fn formats(&self) -> (r: FormatIter)
        ensures
            r@ == format_position(0),
    {
        FormatIter::new()
    }

    /// Get detailed info about the available resolutions of `format`.
    pub fn resolutions(&self, format: &[u8]) -> (r: Result<ResolutionWalk>)
        ensures
            format@.len() != 4 ==> r == Err::<ResolutionWalk, Error>(Error::BadFormat),
            format@.len() == 4 ==> (r matches Ok(w) && w@ == (WalkView {
                fourcc: fourcc_of(format@),
                width: 0,
                height: 0,
                index: 0,
                found: seq![],
            })),
    {
        ResolutionWalk::new(format)
    }

    /// Get detailed info about the available intervals of `format` at `resolution`.
    pub fn intervals(&self, format: &[u8], resolution: (u32, u32)) -> (r: Result<IntervalWalk>)
        ensures
            format@.len() != 4 ==> r == Err::<IntervalWalk, Error>(Error::BadFormat),
            format@.len() == 4 ==> (r matches Ok(w) && w@ == (WalkView {
                fourcc: fourcc_of(format@),
                width: resolution.0,
                height: resolution.1,
                index: 0,
                found: seq![],
            })),
    {
        IntervalWalk::new(format, resolution)
    }

    /// Get info about all controls.
    pub fn controls(&self) -> (r: ControlIter)
        ensures
            r@ == (ControlIterView { id: 0, class: 0 }),
    {
        ControlIter::new()
    }

    /// Get info about available controls by class (see `CLASS_*` constants).
    pub fn controls_by_class(&self, class: u32) -> (r: ControlIter)
        ensures
            r@ == (ControlIterView { id: class, class }),
    {
        ControlIter::by_class(class)
    }

    /// Get info about the control by id: the read to carry out.
    pub fn get_control(&self, id: u32) -> (r: ControlQuery)
        ensures
            r@.id == id,
            r@.stage == Stage::Query,
            r@.menu.len() == 0,
            r@.int_menu.len() == 0,
    {
        ControlQuery::new(id)
    }

    /// Set value of the control: the record to send, under the header that
    /// `ext_controls_for` gives for it (the control's class, one control).
    pub fn set_control<T: Settable>(&self, id: u32, value: &T) -> (r: ExtControl)
        ensures
            r == (ExtControl { id, size: 0, value: value.unified() }),
    {
        set_request(id, value)
    }
}

/// A session that started and then stopped holds no buffers and is `Aborted`, so that
/// `start`, which asks for `Idle`, cannot be called on it again.
pub proof fn lemma_start_then_stop(c: CameraView, run: StartView)
    requires
        c.state is Idle,
        c.wf(),
        run.phase is Done,
    ensures
        after_start(c, run).state is Streaming,
        after_stop(after_start(c, run)).buffers.len() == 0,
        after_stop(after_start(c, run)).state is Aborted,
        !(after_stop(after_start(c, run)).state is Idle),
        after_stop(after_start(c, run)).wf(),
{
}

/// A start that fails leaves the session `Idle` with no buffers.
pub proof fn lemma_failed_start_stays_idle(c: CameraView, run: StartView)
    requires
        c.state is Idle,
        c.wf(),
        run.phase is Failed,
    ensures
        after_start(c, run).state is Idle,
        after_start(c, run).buffers.len() == 0,
{
}

/// An interval of 1/30 is accepted exactly when the driver echoes a nonzero multiple of
/// it; an echo of 1/25 is refused.
pub proof fn lemma_interval_one_thirtieth(echo: Fract)
    ensures
        interval_agrees((1, 30), echo) <==> echo.numerator > 0 && echo.denominator as int == 30
            * echo.numerator as int,
        !interval_agrees((1, 30), Fract { numerator: 1, denominator: 25 }),
{
    assert(echo.numerator as int * 30 == 30 * echo.numerator as int);
    assert(echo.denominator as int * 1 == echo.denominator as int);
    assert(echo.numerator as int * 30 != 0 <==> echo.numerator > 0);
}

} // verus!
