//! Handing stitched frames to a video encoder.
//!
//! The encoder runs on a thread of its own. [`AsyncEncodeThread`] keeps what
//! both sides agree on: whether frames are still accepted, the buffers that
//! are used again, and the stats.

use crate::text::{decimal, joined, push_decimal};
use std::collections::VecDeque;
use vstd::prelude::*;

verus! {

/// Why encoding failed.
#[derive(Clone, Debug)]
pub enum EncodeError {
    /// The encoder could not be set up.
    Init {
        /// What went wrong.
        reason: String,
    },
    /// A frame could not be encoded.
    Frame {
        /// Which frame, if that is known.
        frame_index: Option<u64>,
        /// What went wrong.
        reason: String,
    },
    /// The output could not be completed.
    Finalize {
        /// What went wrong.
        reason: String,
    },
}

/// A frame number that may not be known.
pub open spec fn index_text(index: Option<u64>) -> Seq<char> {
    match index {
        Some(i) => "Some("@ + decimal(i as nat) + ")"@,
        None => "None"@,
    }
}

impl EncodeError {
    /// The message of the error.
    pub open spec fn text(&self) -> Seq<char> {
        match *self {
            EncodeError::Init { reason } => "encoder initialization failed: "@ + reason@,
            EncodeError::Frame { frame_index, reason } => "frame encoding failed (frame "@
                + index_text(frame_index) + "): "@ + reason@,
            EncodeError::Finalize { reason } => "finalization failed: "@ + reason@,
        }
    }

    /// The message of the error.
    pub fn message(&self) -> (text: String)
        ensures
            text@ == self.text(),
    {
        match self {
            EncodeError::Init { reason } => {
                joined("encoder initialization failed: ", reason.as_str())
            },
            EncodeError::Frame { frame_index, reason } => {
                let mut text: String = "frame encoding failed (frame ".to_owned();
                match frame_index {
                    Some(i) => {
                        let mut shown: String = "Some(".to_owned();
                        push_decimal(&mut shown, *i);
                        shown.push_str(")");
                        text.push_str(shown.as_str());
                    },
                    None => {
                        text.push_str("None");
                    },
                }
                text.push_str("): ");
                text.push_str(reason.as_str());
                text
            },
            EncodeError::Finalize { reason } => joined("finalization failed: ", reason.as_str()),
        }
    }
}

/// A frame error without a frame number.
pub open spec fn frame_error(error: EncodeError, text: Seq<char>) -> bool {
    error matches EncodeError::Frame { frame_index, reason } && frame_index is None && reason@
        == text
}

/// Pixel format of a frame.
#[derive(Clone, Copy, Debug, PartialEq, Eq, Structural)]
pub enum PixelFormat {
    /// Four bytes per pixel.
    Rgba8,
    /// A luma plane, then interleaved chroma.
    Nv12,
}

/// A frame to encode.
#[derive(Debug)]
pub struct OutputFrame<'a> {
    /// The pixels.
    pub data: &'a [u8],
    /// Width in pixels.
    pub width: u32,
    /// Height in pixels.
    pub height: u32,
    /// Pixel format.
    pub format: PixelFormat,
    /// When the frame is shown, in microseconds.
    pub pts_us: i64,
}

/// A video encoder.
pub trait Encoder: Send {
    /// Encode a frame. Frames come in the order in which they are shown.
    fn submit(&mut self, frame: OutputFrame<'_>) -> Result<(), EncodeError>;

    /// Complete the output; no frames follow.
    fn finish(&mut self) -> Result<(), EncodeError>;
}

/// A frame on its way to the encoder.
#[derive(Clone, Debug)]
pub struct EncodeJob {
    /// The pixels.
    pub data: Vec<u8>,
    /// When the frame is shown, in microseconds.
    pub pts_us: i64,
}

/// Counters of an encoding thread.
#[derive(Clone, Copy, Debug, PartialEq, Eq, Structural)]
pub struct EncodeStats {
    /// Nanoseconds spent encoding.
    pub encode_busy_ns: u64,
    /// Frames encoded.
    pub frames_encoded: u64,
    /// Nanoseconds spent waiting for the encoder.
    pub backpressure_ns: u64,
    /// Frames that had to wait for the encoder.
    pub backpressure_count: u64,
}

/// Bytes of an NV12 picture.
pub open spec fn picture_bytes(width: u32, height: u32) -> nat {
    (width as nat * height as nat) * 3 / 2
}

/// What became of handing a frame over.
#[derive(Clone, Copy, Debug, PartialEq, Eq, Structural)]
pub enum SendOutcome {
    /// The encoder took it at once.
    Sent,
    /// The encoder was busy.
    Waited {
        /// Whether it took the frame in the end.
        taken: bool,
        /// Nanoseconds waited.
        stall_ns: u64,
    },
    /// The encoder is gone.
    Disconnected,
}

/// What the two sides of an encoding thread agree on.
pub struct AsyncEncodeThread {
    /// Whether frames are accepted.
    pub open: bool,
    /// Whether the thread is still to be joined.
    pub running: bool,
    /// Width in pixels.
    pub width: u32,
    /// Height in pixels.
    pub height: u32,
    /// Buffers to use again, longest unused first.
    pub pool: VecDeque<Vec<u8>>,
    /// Most buffers that are kept.
    pub pool_capacity: usize,
    /// Counters.
    pub stats: EncodeStats,
}

impl AsyncEncodeThread {
    /// The invariant of an encoding thread: no more buffers are kept than there is
    /// room for, and none once frames are no longer accepted.
    pub open spec fn valid(&self) -> bool {
        &&& self.pool@.len() <= self.pool_capacity
        &&& !self.open ==> self.pool@.len() == 0
    }

    /// An encoding thread for frames of the given size, with one buffer more
    /// than the frames that can be on their way.
    pub fn new(width: u32, height: u32, buffer_count: usize) -> (thread: Self)
        requires
            width * height * 3 <= usize::MAX,
            buffer_count < usize::MAX,
        ensures
            thread.valid(),
            thread.open,
            thread.running,
            thread.width == width,
            thread.height == height,
            thread.pool_capacity == buffer_count + 1,
            thread.pool@.len() == buffer_count + 1,
            forall|i: int|
                0 <= i < thread.pool@.len() ==> (#[trigger] thread.pool@[i])@.len()
                    == picture_bytes(width, height),
            thread.stats == (EncodeStats {
                encode_busy_ns: 0,
                frames_encoded: 0,
                backpressure_ns: 0,
                backpressure_count: 0,
            }),
    {
        assert(width * height <= width * height * 3) by (nonlinear_arith)
            requires
                0 <= width,
                0 <= height,
        ;
        let size: usize = (width as usize * height as usize) * 3 / 2;
        let mut pool: VecDeque<Vec<u8>> = VecDeque::new();
        let mut i: usize = 0;
        while i < buffer_count + 1
            invariant
                i <= buffer_count + 1,
                buffer_count < usize::MAX,
                pool@.len() == i,
                size == picture_bytes(width, height),
                forall|j: int| 0 <= j < pool@.len() ==> (#[trigger] pool@[j])@.len() == size,
            decreases buffer_count + 1 - i,
        {
            pool.push_back(vec![0u8; size]);
            i = i + 1;
        }
        AsyncEncodeThread {
            open: true,
            running: true,
            width,
            height,
            pool,
            pool_capacity: buffer_count + 1,
            stats: EncodeStats {
                encode_busy_ns: 0,
                frames_encoded: 0,
                backpressure_ns: 0,
                backpressure_count: 0,
            },
        }
    }

    /// Prepare a frame for the encoder, in a used buffer if there is one.
    pub fn submit(&mut self, nv12_data: &[u8], pts_us: i64) -> (job: Result<EncodeJob, EncodeError>)
        ensures
            prepared(*old(self), *final(self), nv12_data@, pts_us, job),
            old(self).valid() ==> final(self).valid(),
    {
        if !self.open {
            return Err(
                EncodeError::Frame {
                    frame_index: None,
                    reason: "encoder already finished".to_owned(),
                },
            );
        }
        let mut buffer: Vec<u8> = match self.pool.pop_front() {
            Some(used) => used,
            None => Vec::new(),
        };
        buffer.clear();
        buffer.extend_from_slice(nv12_data);
        assert(buffer@ =~= nv12_data@);
        Ok(EncodeJob { data: buffer, pts_us })
    }

    /// Take what became of handing a frame over.
    pub fn sent(&mut self, outcome: SendOutcome) -> (done: Result<(), EncodeError>)
        ensures
            handed_over(*old(self), *final(self), outcome),
            old(self).valid() ==> final(self).valid(),
            done is Ok <==> outcome == SendOutcome::Sent || (outcome matches SendOutcome::Waited {
                taken: true,
                ..
            }),
            done matches Err(e) ==> frame_error(e, "encode thread died"@),
    {
        let taken = match outcome {
            SendOutcome::Sent => true,
            SendOutcome::Waited { taken, stall_ns } => {
                self.stats.backpressure_ns = self.stats.backpressure_ns.wrapping_add(stall_ns);
                self.stats.backpressure_count = self.stats.backpressure_count.wrapping_add(1);
                taken
            },
            SendOutcome::Disconnected => false,
        };
        if taken {
            Ok(())
        } else {
            Err(
                EncodeError::Frame { frame_index: None, reason: "encode thread died".to_owned() },
            )
        }
    }

    /// Take what encoding a frame came to. The frame counts and its buffer is
    /// kept only if it was encoded; a full pool drops the buffer, and so does one
    /// that nobody takes from any more.
    pub fn encoded(
        &mut self,
        result: Result<(), EncodeError>,
        busy_ns: u64,
        data: Vec<u8>,
    ) -> (step: Result<(), EncodeError>)
        ensures
            step == result,
            old(self).valid() ==> final(self).valid(),
            result is Err ==> *final(self) == *old(self),
            result is Ok ==> counted(*old(self), *final(self), busy_ns, data),
    {
        if result.is_err() {
            return result;
        }
        self.stats.encode_busy_ns = self.stats.encode_busy_ns.wrapping_add(busy_ns);
        self.stats.frames_encoded = self.stats.frames_encoded.wrapping_add(1);
        if self.open && self.pool.len() < self.pool_capacity {
            self.pool.push_back(data);
        }
        result
    }

    /// Stop accepting frames, and take what the thread came to once it has
    /// been joined: nothing if it panicked. A thread is joined once.
    pub fn finish(&mut self, joined: Option<Result<(), EncodeError>>) -> (done: Result<
        (),
        EncodeError,
    >)
        ensures
            final(self).valid(),
            closed(*old(self), *final(self), joined, done),
    {
        self.open = false;
        self.pool.clear();
        if !self.running {
            return Ok(());
        }
        self.running = false;
        match joined {
            Some(result) => result,
            None => Err(EncodeError::Finalize { reason: "encode thread panicked".to_owned() }),
        }
    }

    /// The stats.
    pub fn stats(&self) -> (stats: EncodeStats)
        ensures
            stats == self.stats,
    {
        self.stats
    }
}

/// Whether a frame was prepared as it should: in a used buffer if there is one, and
/// not at all once frames are no longer accepted.
pub open spec fn prepared(
    before: AsyncEncodeThread,
    after: AsyncEncodeThread,
    data: Seq<u8>,
    pts_us: i64,
    job: Result<EncodeJob, EncodeError>,
) -> bool {
    &&& after == (AsyncEncodeThread { pool: after.pool, ..before })
    &&& match job {
        Ok(j) => {
            &&& before.open
            &&& j.data@ == data
            &&& j.pts_us == pts_us
            &&& after.pool@ == (if before.pool@.len() > 0 {
                before.pool@.skip(1)
            } else {
                before.pool@
            })
        },
        Err(e) => {
            &&& !before.open
            &&& frame_error(e, "encoder already finished"@)
            &&& after.pool@ == before.pool@
        },
    }
}

/// Whether what became of handing a frame over was noted as it should: waiting for
/// the encoder is counted.
pub open spec fn handed_over(
    before: AsyncEncodeThread,
    after: AsyncEncodeThread,
    outcome: SendOutcome,
) -> bool {
    after == (AsyncEncodeThread {
        stats: match outcome {
            SendOutcome::Waited { stall_ns, .. } => EncodeStats {
                backpressure_ns: before.stats.backpressure_ns.wrapping_add(stall_ns),
                backpressure_count: before.stats.backpressure_count.wrapping_add(1),
                ..before.stats
            },
            _ => before.stats,
        },
        ..before
    })
}

/// Whether an encoded frame was counted as it should, and its buffer kept if there
/// is room for it and frames are still accepted.
pub open spec fn counted(
    before: AsyncEncodeThread,
    after: AsyncEncodeThread,
    busy_ns: u64,
    data: Vec<u8>,
) -> bool {
    &&& after == (AsyncEncodeThread {
        stats: EncodeStats {
            encode_busy_ns: before.stats.encode_busy_ns.wrapping_add(busy_ns),
            frames_encoded: before.stats.frames_encoded.wrapping_add(1),
            ..before.stats
        },
        pool: after.pool,
        ..before
    })
    &&& after.pool@ == (if before.open && before.pool@.len() < before.pool_capacity {
        before.pool@.push(data)
    } else {
        before.pool@
    })
}

/// Whether a thread was closed as it should: no frames are accepted any more, and
/// what it came to is told once.
pub open spec fn closed(
    before: AsyncEncodeThread,
    after: AsyncEncodeThread,
    joined: Option<Result<(), EncodeError>>,
    done: Result<(), EncodeError>,
) -> bool {
    &&& after == (AsyncEncodeThread {
        open: false,
        running: false,
        pool: after.pool,
        ..before
    })
    &&& after.pool@.len() == 0
    &&& before.running ==> match joined {
        Some(result) => done == result,
        None => done matches Err(EncodeError::Finalize { reason }) && reason@
            == "encode thread panicked"@,
    }
    &&& !before.running ==> done is Ok
}

/// Whether a frame is that of a job.
pub open spec fn shows(frame: OutputFrame<'_>, job: EncodeJob, width: u32, height: u32) -> bool {
    &&& frame.data@ == job.data@
    &&& frame.width == width
    &&& frame.height == height
    &&& frame.format == PixelFormat::Nv12
    &&& frame.pts_us == job.pts_us
}

/// The frame of a job.
pub fn output_frame<'a>(job: &'a EncodeJob, width: u32, height: u32) -> (frame: OutputFrame<'a>)
    ensures
        shows(frame, *job, width, height),
{
    OutputFrame {
        data: job.data.as_slice(),
        width,
        height,
        format: PixelFormat::Nv12,
        pts_us: job.pts_us,
    }
}

/// What an encoder is asked.
pub enum EncoderCall<'a> {
    /// To encode a frame.
    Submit(OutputFrame<'a>),
    /// To complete the output.
    Finish,
}

/// What a turn of the encoding side came to.
pub enum EncodeStep {
    /// A frame was encoded.
    Encoded {
        /// Its buffer.
        data: Vec<u8>,
    },
    /// Nothing more will be encoded.
    Ended(Result<(), EncodeError>),
}

/// Whether this encoder, as it stands, may answer so when asked that.
pub open spec fn called<E: Encoder + ?Sized>(
    encoder: &mut E,
    call: EncoderCall<'_>,
    answer: Result<(), EncodeError>,
) -> bool {
    match call {
        EncoderCall::Submit(frame) => call_ensures(E::submit, (encoder, frame), answer),
        EncoderCall::Finish => call_ensures(E::finish, (encoder,), answer),
    }
}

/// Whether a turn of the encoding side is what it should be. The frame of the next
/// job is encoded, and the first that cannot be ends it. Once no job will come, the
/// output is completed.
pub open spec fn turned(
    next: Option<EncodeJob>,
    width: u32,
    height: u32,
    call: EncoderCall<'_>,
    answer: Result<(), EncodeError>,
    step: EncodeStep,
) -> bool {
    match next {
        Some(job) => {
            &&& call matches EncoderCall::Submit(frame) && shows(frame, job, width, height)
            &&& match answer {
                Ok(_) => step == (EncodeStep::Encoded { data: job.data }),
                Err(e) => step == EncodeStep::Ended(Err(e)),
            }
        },
        None => call is Finish && step == EncodeStep::Ended(answer),
    }
}

fn feed<E: Encoder + ?Sized>(encoder: &mut E, job: &EncodeJob, width: u32, height: u32) -> (answer:
    Result<(), EncodeError>)
    ensures
        exists|e: &mut E, frame: OutputFrame<'_>|
            #![trigger call_ensures(E::submit, (e, frame), answer)]
            {
                &&& called(e, EncoderCall::Submit(frame), answer)
                &&& shows(frame, *job, width, height)
                &&& &*e == &*old(encoder)
                &&& &*final(e) == &*final(encoder)
            },
{
    encoder.submit(output_frame(job, width, height))
}

fn complete<E: Encoder + ?Sized>(encoder: &mut E) -> (answer: Result<(), EncodeError>)
    ensures
        exists|e: &mut E|
            #![trigger call_ensures(E::finish, (e,), answer)]
            {
                &&& called(e, EncoderCall::Finish, answer)
                &&& &*e == &*old(encoder)
                &&& &*final(e) == &*final(encoder)
            },
{
    encoder.finish()
}

/// One turn of the encoding side: encode the frame of the next job, or complete the
/// output once no job will come. The encoder is asked one thing.
pub fn encode_next<E: Encoder + ?Sized>(
    encoder: &mut E,
    next: Option<EncodeJob>,
    width: u32,
    height: u32,
) -> (step: EncodeStep)
    ensures
        exists|e: &mut E, call: EncoderCall<'_>, answer: Result<(), EncodeError>|
            {
                &&& #[trigger] called(e, call, answer)
                &&& turned(next, width, height, call, answer, step)
                &&& &*e == &*old(encoder)
                &&& &*final(e) == &*final(encoder)
            },
{
    match next {
        Some(job) => match feed(encoder, &job, width, height) {
            Ok(_) => EncodeStep::Encoded { data: job.data },
            Err(e) => EncodeStep::Ended(Err(e)),
        },
        None => EncodeStep::Ended(complete(encoder)),
    }
}

/// An encoding thread with all that goes through it.
pub struct Session<'a> {
    /// What both sides agree on.
    pub thread: AsyncEncodeThread,
    /// The pictures that were accepted, and when they are shown.
    pub accepted: Seq<(Seq<u8>, i64)>,
    /// The jobs that are not encoded, in the order in which they were sent.
    pub waiting: Seq<EncodeJob>,
    /// Whether no more jobs will be sent.
    pub hung_up: bool,
    /// What the encoder was asked.
    pub calls: Seq<EncoderCall<'a>>,
    /// What the encoding side came to, once it has ended.
    pub ended: Option<Result<(), EncodeError>>,
}

impl Session<'_> {
    /// Whether a thread has just been started.
    pub open spec fn fresh(self) -> bool {
        &&& self.thread.open
        &&& self.thread.running
        &&& self.thread.stats.frames_encoded == 0
        &&& self.accepted.len() == 0
        &&& self.waiting.len() == 0
        &&& !self.hung_up
        &&& self.calls.len() == 0
        &&& self.ended is None
    }

    /// Whether a picture was accepted and sent on its way.
    pub open spec fn takes_in(self, after: Self) -> bool {
        &&& !self.hung_up
        &&& exists|data: Seq<u8>, pts_us: i64, job: EncodeJob|
            {
                &&& #[trigger] prepared(self.thread, after.thread, data, pts_us, Ok(job))
                &&& after.accepted == self.accepted.push((data, pts_us))
                &&& after.waiting == self.waiting.push(job)
            }
        &&& after == (Session {
            thread: after.thread,
            accepted: after.accepted,
            waiting: after.waiting,
            ..self
        })
    }

    /// Whether it was noted that a picture had to wait before it was sent.
    pub open spec fn stalls(self, after: Self) -> bool {
        &&& exists|stall_ns: u64| #[trigger]
            handed_over(
                self.thread,
                after.thread,
                SendOutcome::Waited { taken: true, stall_ns },
            )
        &&& after == (Session { thread: after.thread, ..self })
    }

    /// Whether no more jobs will be sent from now on.
    pub open spec fn hangs_up(self, after: Self) -> bool {
        after == (Session { hung_up: true, ..self })
    }

    /// Whether the encoding side took its turn on the first job on its way, and the
    /// frame was encoded and counted.
    pub open spec fn lets_out(self, after: Self) -> bool {
        &&& self.ended is None
        &&& self.waiting.len() > 0
        &&& exists|call: EncoderCall<'_>, answer: Result<(), EncodeError>, data: Vec<u8>, busy_ns: u64|
            {
                &&& #[trigger] turned(
                    Some(self.waiting.first()),
                    self.thread.width,
                    self.thread.height,
                    call,
                    answer,
                    EncodeStep::Encoded { data },
                )
                &&& #[trigger] counted(self.thread, after.thread, busy_ns, data)
                &&& after.calls == self.calls.push(call)
            }
        &&& after == (Session {
            thread: after.thread,
            waiting: self.waiting.drop_first(),
            calls: after.calls,
            ..self
        })
    }

    /// Whether the encoding side took its turn on the first job on its way, and the
    /// frame could not be encoded.
    pub open spec fn fails(self, after: Self) -> bool {
        &&& self.ended is None
        &&& self.waiting.len() > 0
        &&& exists|call: EncoderCall<'_>, error: EncodeError, result: Result<(), EncodeError>|
            {
                &&& #[trigger] turned(
                    Some(self.waiting.first()),
                    self.thread.width,
                    self.thread.height,
                    call,
                    Err(error),
                    EncodeStep::Ended(result),
                )
                &&& after.calls == self.calls.push(call)
                &&& after.ended == Some(result)
            }
        &&& after == (Session { calls: after.calls, ended: after.ended, ..self })
    }

    /// Whether the encoding side took its turn with no job left to come.
    pub open spec fn ends(self, after: Self) -> bool {
        &&& self.ended is None
        &&& self.hung_up
        &&& self.waiting.len() == 0
        &&& exists|call: EncoderCall<'_>, answer: Result<(), EncodeError>, result: Result<(), EncodeError>|
            {
                &&& #[trigger] turned(
                    None,
                    self.thread.width,
                    self.thread.height,
                    call,
                    answer,
                    EncodeStep::Ended(result),
                )
                &&& after.calls == self.calls.push(call)
                &&& after.ended == Some(result)
            }
        &&& after == (Session { calls: after.calls, ended: after.ended, ..self })
    }

    /// Whether one thing happened.
    pub open spec fn goes_on(self, after: Self) -> bool {
        ||| self.takes_in(after)
        ||| self.stalls(after)
        ||| self.hangs_up(after)
        ||| self.lets_out(after)
        ||| self.fails(after)
        ||| self.ends(after)
    }

    /// Whether the encoder was asked to encode a picture.
    pub open spec fn pictures(self, call: EncoderCall<'_>, picture: (Seq<u8>, i64)) -> bool {
        call matches EncoderCall::Submit(frame) && {
            &&& frame.data@ == picture.0
            &&& frame.pts_us == picture.1
            &&& frame.width == self.thread.width
            &&& frame.height == self.thread.height
            &&& frame.format == PixelFormat::Nv12
        }
    }

    /// Number of accepted pictures that are encoded.
    pub open spec fn passed(self) -> int {
        self.accepted.len() - self.waiting.len()
    }

    /// What holds at every moment: the encoder was asked to encode the first of the
    /// accepted pictures, in order, and they are counted; the others are not encoded;
    /// and it ends with the output completed when none is left to come, or with the
    /// first picture that could not be encoded.
    pub open spec fn orderly(self) -> bool {
        &&& self.passed() >= 0
        &&& self.passed() <= u64::MAX ==> self.thread.stats.frames_encoded == self.passed()
        &&& self.calls.len() == self.passed() + if self.ended is Some {
            1int
        } else {
            0
        }
        &&& self.ended matches Some(result) ==> if self.waiting.len() == 0 {
            self.hung_up && self.calls.last() is Finish
        } else {
            result is Err && self.pictures(self.calls.last(), self.accepted[self.passed()])
        }
        &&& forall|i: int|
            0 <= i < self.passed() ==> self.pictures(#[trigger] self.calls[i], self.accepted[i])
        &&& forall|i: int|
            0 <= i < self.waiting.len() ==> {
                &&& (#[trigger] self.waiting[i]).data@ == self.accepted[self.passed() + i].0
                &&& self.waiting[i].pts_us == self.accepted[self.passed() + i].1
            }
    }
}

proof fn lemma_orderly_step(before: Session<'_>, after: Session<'_>)
    requires
        before.orderly(),
        before.goes_on(after),
    ensures
        after.orderly(),
        after.thread.width == before.thread.width,
        after.thread.height == before.thread.height,
        after.thread.running == before.thread.running,
{
    if before.takes_in(after) {
        assert forall|i: int| 0 <= i < after.waiting.len() implies {
            &&& (#[trigger] after.waiting[i]).data@ == after.accepted[after.passed() + i].0
            &&& after.waiting[i].pts_us == after.accepted[after.passed() + i].1
        } by {
            if i < before.waiting.len() {
                assert(after.waiting[i] == before.waiting[i]);
            }
        }
    } else if before.lets_out(after) {
        assert forall|i: int| 0 <= i < after.waiting.len() implies {
            &&& (#[trigger] after.waiting[i]).data@ == after.accepted[after.passed() + i].0
            &&& after.waiting[i].pts_us == after.accepted[after.passed() + i].1
        } by {
            assert(after.waiting[i] == before.waiting[i + 1]);
        }
        assert(before.waiting[0] == before.waiting.first());
        assert forall|i: int| 0 <= i < after.passed() implies after.pictures(
            #[trigger] after.calls[i],
            after.accepted[i],
        ) by {
            if i < before.passed() {
                assert(before.pictures(before.calls[i], before.accepted[i]));
            }
        }
    } else if before.fails(after) {
        assert(before.waiting[0] == before.waiting.first());
        assert forall|i: int| 0 <= i < after.passed() implies after.pictures(
            #[trigger] after.calls[i],
            after.accepted[i],
        ) by {
            assert(before.pictures(before.calls[i], before.accepted[i]));
        }
    } else if before.ends(after) {
        assert forall|i: int| 0 <= i < after.passed() implies after.pictures(
            #[trigger] after.calls[i],
            after.accepted[i],
        ) by {
            assert(before.pictures(before.calls[i], before.accepted[i]));
        }
    }
}

proof fn lemma_orderly(sessions: Seq<Session<'_>>, n: int)
    requires
        0 <= n < sessions.len(),
        sessions[0].fresh(),
        forall|i: int|
            0 <= i < sessions.len() - 1 ==> (#[trigger] sessions[i]).goes_on(sessions[i + 1]),
    ensures
        sessions[n].orderly(),
        sessions[n].thread.width == sessions[0].thread.width,
        sessions[n].thread.height == sessions[0].thread.height,
        sessions[n].thread.running,
    decreases n,
{
    if n > 0 {
        lemma_orderly(sessions, n - 1);
        assert(sessions[n - 1].goes_on(sessions[n - 1 + 1]));
        lemma_orderly_step(sessions[n - 1], sessions[n]);
    }
}

/// However accepting, waiting and encoding alternate: once the encoding side has
/// ended with every picture encoded and the thread is closed, the encoder was asked to encode exactly the
/// accepted pictures, in the order in which they were accepted, and then once to
/// complete its output. All pictures are counted, what completing the output came to
/// is told, and no later picture is accepted.
pub proof fn law_accepted_frames_are_encoded_in_order(
    sessions: Seq<Session<'_>>,
    closing: AsyncEncodeThread,
    done: Result<(), EncodeError>,
)
    requires
        sessions.len() > 0,
        sessions.first().fresh(),
        forall|i: int|
            0 <= i < sessions.len() - 1 ==> (#[trigger] sessions[i]).goes_on(sessions[i + 1]),
        sessions.last().ended is Some,
        sessions.last().waiting.len() == 0,
        sessions.last().accepted.len() <= u64::MAX,
        closed(sessions.last().thread, closing, sessions.last().ended, done),
    ensures
        sessions.last().calls.len() == sessions.last().accepted.len() + 1,
        forall|i: int|
            0 <= i < sessions.last().accepted.len() ==> sessions.first().pictures(
                #[trigger] sessions.last().calls[i],
                sessions.last().accepted[i],
            ),
        sessions.last().calls.last() is Finish,
        closing.stats.frames_encoded == sessions.last().accepted.len(),
        Some(done) == sessions.last().ended,
        forall|
            later: AsyncEncodeThread,
            data: Seq<u8>,
            pts_us: i64,
            job: Result<EncodeJob, EncodeError>,
        |
            #[trigger] prepared(closing, later, data, pts_us, job) ==> job is Err,
{
    lemma_orderly(sessions, sessions.len() - 1);
}

/// The first picture that cannot be encoded ends the encoding: the encoder was asked to
/// encode those before it, in order, and then that one, and nothing after it, and was
/// not asked to complete its output. Those before it are counted, closing the thread
/// tells the error, and no later picture is accepted.
pub proof fn law_first_failure_ends_encoding(
    sessions: Seq<Session<'_>>,
    closing: AsyncEncodeThread,
    done: Result<(), EncodeError>,
)
    requires
        sessions.len() > 0,
        sessions.first().fresh(),
        forall|i: int|
            0 <= i < sessions.len() - 1 ==> (#[trigger] sessions[i]).goes_on(sessions[i + 1]),
        sessions.last().ended is Some,
        sessions.last().waiting.len() > 0,
        sessions.last().accepted.len() <= u64::MAX,
        closed(sessions.last().thread, closing, sessions.last().ended, done),
    ensures
        sessions.last().calls.len() == sessions.last().passed() + 1,
        forall|i: int|
            0 <= i <= sessions.last().passed() ==> sessions.first().pictures(
                #[trigger] sessions.last().calls[i],
                sessions.last().accepted[i],
            ),
        closing.stats.frames_encoded == sessions.last().passed(),
        done is Err,
        Some(done) == sessions.last().ended,
        forall|
            later: AsyncEncodeThread,
            data: Seq<u8>,
            pts_us: i64,
            job: Result<EncodeJob, EncodeError>,
        |
            #[trigger] prepared(closing, later, data, pts_us, job) ==> job is Err,
{
    lemma_orderly(sessions, sessions.len() - 1);
}

/// Once the encoding side has ended, the encoder is asked nothing more.
pub proof fn law_nothing_is_encoded_after_the_end(before: Session<'_>, after: Session<'_>)
    requires
        before.ended is Some,
        before.goes_on(after),
    ensures
        after.calls == before.calls,
        after.ended == before.ended,
{
}

/// A picture is accepted as it is, with its own time, while frames are accepted, and refused
/// when they no longer are. Neither changes the counters.
pub proof fn law_pictures_are_accepted_as_they_are(
    before: AsyncEncodeThread,
    after: AsyncEncodeThread,
    data: Seq<u8>,
    pts_us: i64,
    job: Result<EncodeJob, EncodeError>,
)
    requires
        prepared(before, after, data, pts_us, job),
    ensures
        job is Ok <==> before.open,
        job matches Ok(j) ==> j.data@ == data && j.pts_us == pts_us,
        job matches Ok(_) ==> before.pool@.len() > 0 ==> after.pool@ == before.pool@.drop_first(),
        before.pool@.len() == 0 ==> after.pool@.len() == 0,
        job matches Err(e) ==> e is Frame && e->Frame_frame_index is None && e->Frame_reason@
            == "encoder already finished"@ && after.pool@ == before.pool@,
        after.stats == before.stats,
        after.open == before.open,
        after.running == before.running,
        after.width == before.width,
        after.height == before.height,
        after.pool_capacity == before.pool_capacity,
{
    if before.pool@.len() > 0 {
        assert(before.pool@.skip(1) =~= before.pool@.drop_first());
    }
}

/// Waiting for the encoder is counted, once and with its length; nothing else is.
pub proof fn law_waiting_is_counted(
    before: AsyncEncodeThread,
    after: AsyncEncodeThread,
    outcome: SendOutcome,
)
    requires
        handed_over(before, after, outcome),
    ensures
        after == (AsyncEncodeThread { stats: after.stats, ..before }),
        after.stats.frames_encoded == before.stats.frames_encoded,
        after.stats.encode_busy_ns == before.stats.encode_busy_ns,
        !(outcome is Waited) ==> after.stats == before.stats,
        outcome is Waited ==> {
            &&& before.stats.backpressure_count < u64::MAX ==> after.stats.backpressure_count
                == before.stats.backpressure_count + 1
            &&& before.stats.backpressure_ns + outcome->stall_ns <= u64::MAX
                ==> after.stats.backpressure_ns == before.stats.backpressure_ns
                + outcome->stall_ns
        },
{
}

/// An encoded frame counts once, with the time that it took. Its buffer is kept for the next
/// one while frames are accepted and there is room.
pub proof fn law_encoded_frames_are_counted(
    before: AsyncEncodeThread,
    after: AsyncEncodeThread,
    busy_ns: u64,
    data: Vec<u8>,
)
    requires
        counted(before, after, busy_ns, data),
    ensures
        before.stats.frames_encoded < u64::MAX ==> after.stats.frames_encoded
            == before.stats.frames_encoded + 1,
        before.stats.encode_busy_ns + busy_ns <= u64::MAX ==> after.stats.encode_busy_ns
            == before.stats.encode_busy_ns + busy_ns,
        after.stats.backpressure_ns == before.stats.backpressure_ns,
        after.stats.backpressure_count == before.stats.backpressure_count,
        before.open && before.pool@.len() < before.pool_capacity ==> after.pool@.len()
            == before.pool@.len() + 1 && after.pool@.last() == data && after.pool@.drop_last()
            == before.pool@,
        !before.open || before.pool@.len() >= before.pool_capacity ==> after.pool@ == before.pool@,
        after.open == before.open,
        after.running == before.running,
        after.width == before.width,
        after.height == before.height,
{
    if before.open && before.pool@.len() < before.pool_capacity {
        assert(before.pool@.push(data).drop_last() =~= before.pool@);
    }
}

/// A thread is closed for good and told of once: what it came to when it is joined, that it
/// panicked when nothing came of it, and nothing more afterwards.
pub proof fn law_threads_are_closed_once(
    before: AsyncEncodeThread,
    after: AsyncEncodeThread,
    again: AsyncEncodeThread,
    joined: Option<Result<(), EncodeError>>,
    other: Option<Result<(), EncodeError>>,
    done: Result<(), EncodeError>,
    later: Result<(), EncodeError>,
)
    requires
        before.running,
        closed(before, after, joined, done),
        closed(after, again, other, later),
    ensures
        joined matches Some(result) ==> done == result,
        joined is None ==> (done matches Err(e) && e is Finalize && e->Finalize_reason@
            == "encode thread panicked"@),
        later is Ok,
        !after.open && !after.running && !again.open && !again.running,
        after.pool@.len() == 0,
        after.stats == before.stats,
        again.stats == before.stats,
{
}

/// The encoder gets a picture as it was accepted: its bytes, its time, in NV12 and of the
/// thread's size.
pub proof fn law_encoders_get_the_accepted_picture(
    frame: OutputFrame<'_>,
    job: EncodeJob,
    width: u32,
    height: u32,
)
    requires
        shows(frame, job, width, height),
    ensures
        frame.data@ == job.data@,
        frame.pts_us == job.pts_us,
        frame.width == width,
        frame.height == height,
        frame.format == PixelFormat::Nv12,
{
}

/// With a job the encoder is asked to encode it, and without one to complete the output. A
/// frame that was encoded gives its buffer back; anything else ends the encoding with what the
/// encoder said.
pub proof fn law_turns_follow_the_encoder<E: Encoder + ?Sized>(
    next: Option<EncodeJob>,
    width: u32,
    height: u32,
    call: EncoderCall<'_>,
    answer: Result<(), EncodeError>,
    step: EncodeStep,
)
    requires
        turned(next, width, height, call, answer, step),
    ensures
        next is Some <==> call is Submit,
        next is Some && answer is Ok ==> step is Encoded && step->data == next->0.data,
        next is Some && answer is Err ==> step is Ended && step->Ended_0 == answer,
        next is None ==> step is Ended && step->Ended_0 == answer,
        call matches EncoderCall::Submit(frame) ==> frame.data@ == next->0.data@ && frame.pts_us
            == next->0.pts_us && frame.width == width && frame.height == height,
        forall|e: &mut E| #[trigger]
            called(e, call, answer) ==> (call matches EncoderCall::Submit(frame) ==> call_ensures(
                E::submit,
                (e, frame),
                answer,
            )),
        forall|e: &mut E| #[trigger]
            called(e, call, answer) ==> (call is Finish ==> call_ensures(E::finish, (e,), answer)),
{
}

/// A picture has a byte per pixel and one more for every two.
pub proof fn law_picture_bytes(width: u32, height: u32)
    ensures
        2 * picture_bytes(width, height) <= 3 * (width as nat * height as nat)
            < 2 * picture_bytes(width, height) + 2,
{
}

/// The buffers that are kept are never more than there is room for.
pub proof fn law_kept_buffers_fit(thread: AsyncEncodeThread)
    requires
        thread.valid(),
    ensures
        thread.pool@.len() <= thread.pool_capacity,
        !thread.open ==> thread.pool@.len() == 0,
{
}

/// A message says what failed, of which frame where that is known, and why.
pub proof fn law_encoder_messages_name_the_stage(index: u64, reason: String)
    ensures
        (EncodeError::Init { reason }).text() == "encoder initialization failed: "@ + reason@,
        (EncodeError::Frame { frame_index: None, reason }).text() == "frame encoding failed (frame "@
            + "None"@ + "): "@ + reason@,
        (EncodeError::Frame { frame_index: Some(index), reason }).text()
            == "frame encoding failed (frame "@ + ("Some("@ + decimal(index as nat) + ")"@)
            + "): "@ + reason@,
        (EncodeError::Finalize { reason }).text() == "finalization failed: "@ + reason@,
{
}

/// An error of a frame whose number is not known says why.
pub proof fn law_frame_errors_say_why(error: EncodeError, text: Seq<char>)
    requires
        frame_error(error, text),
    ensures
        error is Frame,
        error->Frame_frame_index is None,
        error->Frame_reason@ == text,
{
}

} // verus!
