use vstd::prelude::*;
use crate::error::{error_of_code, OpusFileError};

verus! {

/// What one read of a byte source gave.
#[derive(Copy, Clone, PartialEq, Eq, Debug, Structural)]
pub enum ReadOutcome {
    /// This many bytes were placed at the front of the buffer; 0 means end of data.
    Data(usize),
    /// The read was interrupted before any byte moved, and may be tried again.
    Interrupted,
    /// The read failed for good.
    Failed,
}

/// What one seek of a byte source gave.
#[derive(Copy, Clone, PartialEq, Eq, Debug, Structural)]
pub enum SeekOutcome {
    /// The source now stands at this absolute position.
    Moved(u64),
    /// The seek was interrupted, and may be tried again.
    Interrupted,
    /// The seek failed for good.
    Failed,
}

/// A byte source that reads sequentially, and can also seek and report its
/// position: what a seekable stream source offers the engine's callbacks.
pub trait ReadSeek {
    /// Reads at most `buf.len()` bytes into the front of `buf`.
    fn read_bytes(&mut self, buf: &mut [u8]) -> ReadOutcome;

    /// Moves the position as `target` asks.
    fn seek_to(&mut self, target: SeekTarget) -> SeekOutcome;
}

/// The capability of a stream source handed to the engine: forward-only
/// reading, or reading together with seeking and position queries.
#[derive(Copy, Clone, PartialEq, Eq, Debug, Structural)]
pub enum SourceKind {
    Readable,
    ReadableSeekable,
}

/// A seek request on the source: an absolute offset from the start, or a
/// relative one from the current position or from the end.
#[derive(Copy, Clone, PartialEq, Eq, Debug, Structural)]
pub enum SeekTarget {
    Start(u64),
    Current(i64),
    End(i64),
}

/// The whence code with which the engine asks for an absolute seek.
pub open spec fn whence_set() -> int {
    0
}

/// The whence code with which the engine asks for a seek from the current position.
pub open spec fn whence_cur() -> int {
    1
}

/// The whence code with which the engine asks for a seek from the end.
pub open spec fn whence_end() -> int {
    2
}

/// Relies on libc::SEEK_SET: 0 on every platform that libc describes.
#[verifier::external_body]
fn seek_set_code() -> (r: i32)
    ensures
        r as int == whence_set(),
{
    libc::SEEK_SET
}

/// Relies on libc::SEEK_CUR: 1 on every platform that libc describes.
#[verifier::external_body]
fn seek_cur_code() -> (r: i32)
    ensures
        r as int == whence_cur(),
{
    libc::SEEK_CUR
}

/// Relies on libc::SEEK_END: 2 on every platform that libc describes.
#[verifier::external_body]
fn seek_end_code() -> (r: i32)
    ensures
        r as int == whence_end(),
{
    libc::SEEK_END
}

/// The seek that the engine's (offset, whence) request asks of a source of the
/// given kind; `None` where the whence code is unknown or the source cannot seek.
pub open spec fn spec_seek_request(kind: SourceKind, offset: i64, whence: i32) -> Option<SeekTarget> {
    if kind == SourceKind::Readable {
        None
    } else if whence as int == whence_set() {
        Some(SeekTarget::Start(offset as u64))
    } else if whence as int == whence_cur() {
        Some(SeekTarget::Current(offset))
    } else if whence as int == whence_end() {
        Some(SeekTarget::End(offset))
    } else {
        None
    }
}

/// The seek with which a position query is answered: a zero-length relative
/// seek, on a source that can seek.
pub open spec fn spec_tell_request(kind: SourceKind) -> Option<SeekTarget> {
    if kind == SourceKind::Readable {
        None
    } else {
        Some(SeekTarget::Current(0))
    }
}

/// Translates an engine seek request into a seek on the source. `None` means
/// that the seek callback answers -1 without touching the source.
pub fn seek_request(kind: SourceKind, offset: i64, whence: i32) -> (r: Option<SeekTarget>)
    ensures
        r == spec_seek_request(kind, offset, whence),
{
    let target = if whence == seek_set_code() {
        SeekTarget::Start(#[verifier::truncate] (offset as u64))
    } else if whence == seek_cur_code() {
        SeekTarget::Current(offset)
    } else if whence == seek_end_code() {
        SeekTarget::End(offset)
    } else {
        return None;
    };
    match kind {
        SourceKind::ReadableSeekable => Some(target),
        SourceKind::Readable => None,
    }
}

/// The seek that answers the engine's position query. `None` means that the
/// tell callback answers -1 without touching the source.
pub fn tell_request(kind: SourceKind) -> (r: Option<SeekTarget>)
    ensures
        r == spec_tell_request(kind),
{
    match kind {
        SourceKind::ReadableSeekable => Some(SeekTarget::Current(0)),
        SourceKind::Readable => None,
    }
}

/// What the read callback does after each read of the source.
#[derive(Copy, Clone, PartialEq, Eq, Debug, Structural)]
pub enum FillStep {
    /// Read again, into the buffer from this offset on.
    ReadAt(usize),
    /// Stop, and answer the engine with this value: the bytes placed, or -1.
    Finish(i32),
}

/// How the read callback starts on a buffer of `size` bytes.
pub open spec fn spec_fill_begin(size: usize) -> FillStep {
    if size == 0 {
        FillStep::Finish(0)
    } else {
        FillStep::ReadAt(0)
    }
}

/// How the read callback goes on when `filled` of its `size` bytes are placed
/// and the next read of the source gave `outcome`: end of data or a full buffer
/// stops with the count placed, an interruption retries at the same offset, a
/// failure stops with -1. A source that claims more than the room it was given
/// has filled the buffer.
pub open spec fn spec_fill_next(filled: usize, size: usize, outcome: ReadOutcome) -> FillStep {
    match outcome {
        ReadOutcome::Data(n) => if n == 0 {
            FillStep::Finish(filled as i32)
        } else if filled + n < size {
            FillStep::ReadAt((filled + n) as usize)
        } else {
            FillStep::Finish(size as i32)
        },
        ReadOutcome::Interrupted => FillStep::ReadAt(filled),
        ReadOutcome::Failed => FillStep::Finish(-1i32),
    }
}

/// The first step of the read callback on a buffer of `size` bytes.
pub fn fill_begin(size: usize) -> (r: FillStep)
    requires
        size <= i32::MAX,
    ensures
        r == spec_fill_begin(size),
{
    if size == 0 {
        FillStep::Finish(0)
    } else {
        FillStep::ReadAt(0)
    }
}

/// The next step of the read callback after a read of the source.
pub fn fill_next(filled: usize, size: usize, outcome: ReadOutcome) -> (r: FillStep)
    requires
        filled < size,
        size <= i32::MAX,
    ensures
        r == spec_fill_next(filled, size, outcome),
        r matches FillStep::ReadAt(at) ==> filled <= at < size,
        r matches FillStep::Finish(v) ==> -1 <= v <= size,
{
    match outcome {
        ReadOutcome::Data(n) => {
            if n == 0 {
                FillStep::Finish(filled as i32)
            } else if n < size - filled {
                FillStep::ReadAt(filled + n)
            } else {
                FillStep::Finish(size as i32)
            }
        },
        ReadOutcome::Interrupted => FillStep::ReadAt(filled),
        ReadOutcome::Failed => FillStep::Finish(-1),
    }
}

/// The seek callback's answer once the source's seek gave `outcome`: 0 on
/// success, -1 on failure, `None` to seek again after an interruption.
pub open spec fn spec_seek_answer(outcome: SeekOutcome) -> Option<i32> {
    match outcome {
        SeekOutcome::Moved(_) => Some(0i32),
        SeekOutcome::Interrupted => None,
        SeekOutcome::Failed => Some(-1i32),
    }
}

/// The tell callback's answer once the source's zero-length seek gave
/// `outcome`: the position reached, -1 on failure, `None` to seek again after
/// an interruption.
pub open spec fn spec_tell_answer(outcome: SeekOutcome) -> Option<i64> {
    match outcome {
        SeekOutcome::Moved(p) => Some(p as i64),
        SeekOutcome::Interrupted => None,
        SeekOutcome::Failed => Some(-1i64),
    }
}

/// Decides the seek callback's answer from the outcome of one seek.
pub fn seek_answer(outcome: SeekOutcome) -> (r: Option<i32>)
    ensures
        r == spec_seek_answer(outcome),
{
    match outcome {
        SeekOutcome::Moved(_) => Some(0),
        SeekOutcome::Interrupted => None,
        SeekOutcome::Failed => Some(-1),
    }
}

/// Decides the tell callback's answer from the outcome of one seek.
pub fn tell_answer(outcome: SeekOutcome) -> (r: Option<i64>)
    ensures
        r == spec_tell_answer(outcome),
{
    match outcome {
        SeekOutcome::Moved(p) => Some(#[verifier::truncate] (p as i64)),
        SeekOutcome::Interrupted => None,
        SeekOutcome::Failed => Some(-1),
    }
}

/// A source of forward-only kind is never asked to seek: every seek request and
/// every position query of the engine is answered with a failure at once, and
/// the status with which the engine then refuses a seek names the
/// seek-unsupported error.
pub proof fn lemma_forward_only_never_seeks(offset: i64, whence: i32)
    ensures
        spec_seek_request(SourceKind::Readable, offset, whence).is_none(),
        spec_tell_request(SourceKind::Readable).is_none(),
        error_of_code(-138) == Some(OpusFileError::ENoSeek),
{
}

} // verus!
