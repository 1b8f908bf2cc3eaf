//! The byte sink: one destination to write, seek and flush, whether it is a
//! native file or a stream that the caller supplied.

use crate::error::SessionError;
use vstd::prelude::*;

verus! {

/// `std::io::Error`, which a sink's operations fail with. Nothing of its
/// inside is visible to a contract.
#[verifier::external_type_specification]
#[verifier::external_body]
pub struct ExIoError(std::io::Error);

/// `std::io::SeekFrom`, the target of a seek: an offset from the start, from
/// the end or from the current position. A sink hands it on as it is.
#[verifier::external_type_specification]
#[verifier::external_body]
pub struct ExSeekFrom(std::io::SeekFrom);

/// What a resource must do to serve as a destination.
///
/// An implementation owes its callers what `std::io::Write` and
/// `std::io::Seek` ask of theirs: `write` reports no more bytes than it was
/// given, and `seek` reports the position that the next write goes to.
///
/// Each operation has a relation that says what it may do: which sink it may
/// leave and which result it may give. A relation that is not written out
/// admits everything, so that an implementation which says nothing of itself
/// is held to nothing; one that is verified may say what it does.
pub trait ByteSink: Sized {
    /// Whether a `write` of `buf` to this sink may leave it as `after` and
    /// give `taken`.
    open spec fn wrote(
        &self,
        buf: Seq<u8>,
        after: &Self,
        taken: Result<usize, std::io::Error>,
    ) -> bool {
        true
    }

    /// Whether a `flush` of this sink may leave it as `after` and give `done`.
    open spec fn flushed(&self, after: &Self, done: Result<(), std::io::Error>) -> bool {
        true
    }

    /// Whether a `seek` of this sink to `pos` may leave it as `after` and give
    /// `offset`.
    open spec fn sought(
        &self,
        pos: std::io::SeekFrom,
        after: &Self,
        offset: Result<u64, std::io::Error>,
    ) -> bool {
        true
    }

    /// Takes some of `buf` and says how many bytes it took.
    fn write(&mut self, buf: &[u8]) -> (taken: Result<usize, std::io::Error>)
        ensures
            old(self).wrote(buf@, final(self), taken),
    ;

    /// Hands on to the resource whatever has been held back.
    fn flush(&mut self) -> (done: Result<(), std::io::Error>)
        ensures
            old(self).flushed(final(self), done),
    ;

    /// Moves to `pos` and says where that is, counted from the start.
    fn seek(&mut self, pos: std::io::SeekFrom) -> (offset: Result<u64, std::io::Error>)
        ensures
            old(self).sought(pos, final(self), offset),
    ;
}

/// The operations that a stream may be asked to support.
#[derive(Debug, Clone, Copy, PartialEq, Eq, Structural)]
pub struct Capabilities {
    pub read: bool,
    pub write: bool,
    pub seek: bool,
    pub fileno: bool,
}

/// What a stream of the caller must support to serve as a sink: writing and
/// seeking. It need not be readable, and need not have a file descriptor.
pub fn required_capabilities() -> (required: Capabilities)
    ensures
        required == (Capabilities { read: false, write: true, seek: true, fileno: false }),
{
    Capabilities { read: false, write: true, seek: true, fileno: false }
}

/// The outcome of resolving a destination, which happens once, before the
/// session exists. A path leads to a created file, a stream to an adapter over
/// it; either may have failed, with the description given.
pub enum Opened<F, S> {
    /// The destination was a path.
    File(Result<F, String>),
    /// The destination was a stream.
    FileLike(Result<S, String>),
}

/// The sink of a session. It holds exactly one resource and keeps it for as
/// long as it lives.
pub enum InnerWriter<F, S> {
    /// A native file, created at a path.
    File(F),
    /// An adapter over a stream of the caller.
    FileLike(S),
}

impl<F, S> InnerWriter<F, S> {
    /// Takes the resource that resolving the destination gave as the sink, or
    /// reports why there is none: a file that could not be created as
    /// [`SessionError::Destination`], a stream that cannot serve as
    /// [`SessionError::Capability`].
    pub fn new(opened: Opened<F, S>) -> (sink: Result<InnerWriter<F, S>, SessionError>)
        ensures
            sink == match opened {
                Opened::File(Ok(file)) => Ok::<InnerWriter<F, S>, SessionError>(
                    InnerWriter::File(file),
                ),
                Opened::File(Err(detail)) => Err(SessionError::Destination(detail)),
                Opened::FileLike(Ok(stream)) => Ok(InnerWriter::FileLike(stream)),
                Opened::FileLike(Err(detail)) => Err(SessionError::Capability(detail)),
            },
    {
        match opened {
            Opened::File(Ok(file)) => Ok(InnerWriter::File(file)),
            Opened::File(Err(detail)) => Err(SessionError::Destination(detail)),
            Opened::FileLike(Ok(stream)) => Ok(InnerWriter::FileLike(stream)),
            Opened::FileLike(Err(detail)) => Err(SessionError::Capability(detail)),
        }
    }

    /// Whether the resource held is a native file.
    pub open spec fn is_file(self) -> bool {
        self is File
    }
}

impl<F: ByteSink, S: ByteSink> InnerWriter<F, S> {
    /// Whether a `write` of `buf` to this sink may leave it as `after` and
    /// give `taken`: the resource held is the same one of the two, and a
    /// `write` of `buf` to it may leave it as `after` holds it and give
    /// `taken`.
    pub open spec fn forwards_write(
        self,
        buf: Seq<u8>,
        after: Self,
        taken: Result<usize, std::io::Error>,
    ) -> bool {
        match (self, after) {
            (InnerWriter::File(file), InnerWriter::File(left)) => file.wrote(buf, &left, taken),
            (InnerWriter::FileLike(stream), InnerWriter::FileLike(left)) => stream.wrote(
                buf,
                &left,
                taken,
            ),
            _ => false,
        }
    }

    /// Whether a `flush` of this sink may leave it as `after` and give `done`:
    /// the resource held is the same one of the two, and a `flush` of it may
    /// leave it as `after` holds it and give `done`.
    pub open spec fn forwards_flush(self, after: Self, done: Result<(), std::io::Error>) -> bool {
        match (self, after) {
            (InnerWriter::File(file), InnerWriter::File(left)) => file.flushed(&left, done),
            (InnerWriter::FileLike(stream), InnerWriter::FileLike(left)) => stream.flushed(
                &left,
                done,
            ),
            _ => false,
        }
    }

    /// Whether a `seek` of this sink to `pos` may leave it as `after` and give
    /// `offset`: the resource held is the same one of the two, and a `seek` of
    /// it to `pos` may leave it as `after` holds it and give `offset`.
    pub open spec fn forwards_seek(
        self,
        pos: std::io::SeekFrom,
        after: Self,
        offset: Result<u64, std::io::Error>,
    ) -> bool {
        match (self, after) {
            (InnerWriter::File(file), InnerWriter::File(left)) => file.sought(pos, &left, offset),
            (InnerWriter::FileLike(stream), InnerWriter::FileLike(left)) => stream.sought(
                pos,
                &left,
                offset,
            ),
            _ => false,
        }
    }
}

impl<F: ByteSink, S: ByteSink> std::io::Write for InnerWriter<F, S> {
    /// Forwards to the resource held, and returns what it returned.
    fn write(&mut self, buf: &[u8]) -> (taken: Result<usize, std::io::Error>)
        ensures
            final(self).is_file() == old(self).is_file(),
            old(self).forwards_write(buf@, *final(self), taken),
    {
        match self {
            InnerWriter::File(file) => file.write(buf),
            InnerWriter::FileLike(stream) => stream.write(buf),
        }
    }

    /// Forwards to the resource held, and returns what it returned.
    fn flush(&mut self) -> (done: Result<(), std::io::Error>)
        ensures
            final(self).is_file() == old(self).is_file(),
            old(self).forwards_flush(*final(self), done),
    {
        match self {
            InnerWriter::File(file) => file.flush(),
            InnerWriter::FileLike(stream) => stream.flush(),
        }
    }
}

impl<F: ByteSink, S: ByteSink> std::io::Seek for InnerWriter<F, S> {
    /// Forwards to the resource held, and returns what it returned.
    fn seek(&mut self, pos: std::io::SeekFrom) -> (offset: Result<u64, std::io::Error>)
        ensures
            final(self).is_file() == old(self).is_file(),
            old(self).forwards_seek(pos, *final(self), offset),
    {
        match self {
            InnerWriter::File(file) => file.seek(pos),
            InnerWriter::FileLike(stream) => stream.seek(pos),
        }
    }
}

} // verus!
