//! The session: open from construction to the first `close`, closed from then
//! on. While it is open, each write appends one entry or fails and leaves the
//! session open; once it is closed, every write is refused.

use crate::codec;
use crate::codec::Codec;
use crate::codec::MAX_NAME_BYTES;
use crate::codec::name_fits;
use crate::error::SessionError;
use crate::error::SourceFailure;
use crate::error::source_error;
use crate::options::EntryOptions;
use crate::options::EntryOptionsView;
use crate::options::derive_options;
use crate::options::options_for;
use crate::sink::ByteSink;
use crate::sink::InnerWriter;
use crate::sink::Opened;
use vstd::prelude::*;

verus! {

/// One entry that a write has appended.
pub struct EntryView {
    pub name: Seq<char>,
    pub data: Seq<u8>,
    pub options: EntryOptionsView,
}

/// What a session is to a contract: whether it is open, the password it was
/// made with, and the entries that its writes have appended so far, oldest
/// first.
pub struct SessionView {
    pub open: bool,
    pub password: Option<Seq<u8>>,
    pub entries: Seq<EntryView>,
}

impl SessionView {
    /// A session as construction leaves it: open, and without entries.
    pub open spec fn fresh(password: Option<Seq<u8>>) -> SessionView {
        SessionView { open: true, password, entries: Seq::empty() }
    }

    /// The entry that a write of `data` under `name` appends to this session.
    pub open spec fn entry(self, name: Seq<char>, data: Seq<u8>) -> EntryView {
        EntryView { name, data, options: options_for(self.password) }
    }

    /// The session after a write of `data` under `name`. An open session whose
    /// write is `accepted`, which means that it succeeded, has one entry more;
    /// any other write changes nothing.
    pub open spec fn write(self, name: Seq<char>, data: Seq<u8>, accepted: bool) -> SessionView {
        if self.open && accepted {
            SessionView { entries: self.entries.push(self.entry(name, data)), ..self }
        } else {
            self
        }
    }

    /// The session after `close`, whether or not the codec could finish.
    pub open spec fn close(self) -> SessionView {
        SessionView { open: false, ..self }
    }

    /// Whether every entry carries the options that the password asks for.
    pub open spec fn follows_policy(self) -> bool {
        forall|i: int|
            0 <= i < self.entries.len() ==> (#[trigger] self.entries[i]).options == options_for(
                self.password,
            )
    }

    /// The results that a write of a buffer under `name` may give on this
    /// session: a closed session refuses, an open one refuses a name that
    /// does not fit, and past that the codec decides.
    pub open spec fn write_bytes_may_give(
        self,
        name: Seq<char>,
        result: Result<(), SessionError>,
    ) -> bool {
        if !self.open {
            result == Err::<(), SessionError>(SessionError::Closed)
        } else if !name_fits(name) {
            result == Err::<(), SessionError>(SessionError::NameTooLong)
        } else {
            ||| result is Ok
            ||| result matches Err(SessionError::StartEntry(_))
            ||| result matches Err(SessionError::WriteBytes(_))
        }
    }

    /// The results that a write from a source under `name` may give on this
    /// session, where `failure` says whether, and how, reading the source
    /// failed: a closed session refuses, an open one reports the failed
    /// source, then refuses a name that does not fit, and past that the codec
    /// decides.
    pub open spec fn write_file_may_give(
        self,
        failure: Option<SourceFailure>,
        name: Seq<char>,
        result: Result<(), SessionError>,
    ) -> bool {
        if !self.open {
            result == Err::<(), SessionError>(SessionError::Closed)
        } else {
            match failure {
                Some(SourceFailure::Open(detail)) => result == Err::<(), SessionError>(
                    SessionError::SourceOpen(detail),
                ),
                Some(SourceFailure::Read(detail)) => result == Err::<(), SessionError>(
                    SessionError::SourceRead(detail),
                ),
                None => if !name_fits(name) {
                    result == Err::<(), SessionError>(SessionError::NameTooLong)
                } else {
                    ||| result is Ok
                    ||| result matches Err(SessionError::StartEntry(_))
                    ||| result matches Err(SessionError::WriteFile(_))
                },
            }
        }
    }

    /// The results that `close` may give on this session.
    pub open spec fn close_may_give(self, result: Result<(), SessionError>) -> bool {
        if !self.open {
            result == Ok::<(), SessionError>(())
        } else {
            result is Ok || result matches Err(SessionError::Finish(_))
        }
    }
}

/// How the codec's two steps went for one entry.
pub enum EntryOutcome {
    /// The entry was begun and took all its bytes.
    Appended,
    /// The entry could not be begun.
    NotStarted(String),
    /// The entry was begun, but did not take all its bytes.
    NotWritten(String),
}

/// What a write of a buffer reports for each way the codec's steps may go.
pub fn bytes_verdict(outcome: EntryOutcome) -> (result: Result<(), SessionError>)
    ensures
        result == match outcome {
            EntryOutcome::Appended => Ok::<(), SessionError>(()),
            EntryOutcome::NotStarted(detail) => Err(SessionError::StartEntry(detail)),
            EntryOutcome::NotWritten(detail) => Err(SessionError::WriteBytes(detail)),
        },
{
    match outcome {
        EntryOutcome::Appended => Ok(()),
        EntryOutcome::NotStarted(detail) => Err(SessionError::StartEntry(detail)),
        EntryOutcome::NotWritten(detail) => Err(SessionError::WriteBytes(detail)),
    }
}

/// What a write from a source reports for each way the codec's steps may go.
pub fn file_verdict(outcome: EntryOutcome) -> (result: Result<(), SessionError>)
    ensures
        result == match outcome {
            EntryOutcome::Appended => Ok::<(), SessionError>(()),
            EntryOutcome::NotStarted(detail) => Err(SessionError::StartEntry(detail)),
            EntryOutcome::NotWritten(detail) => Err(SessionError::WriteFile(detail)),
        },
{
    match outcome {
        EntryOutcome::Appended => Ok(()),
        EntryOutcome::NotStarted(detail) => Err(SessionError::StartEntry(detail)),
        EntryOutcome::NotWritten(detail) => Err(SessionError::WriteFile(detail)),
    }
}

/// What `close` reports on an open session, given how finishing went: the
/// description of a failure, if there was one.
pub fn close_verdict(failure: Option<String>) -> (result: Result<(), SessionError>)
    ensures
        result == match failure {
            None => Ok::<(), SessionError>(()),
            Some(detail) => Err(SessionError::Finish(detail)),
        },
{
    match failure {
        None => Ok(()),
        Some(detail) => Err(SessionError::Finish(detail)),
    }
}

/// Begins an entry named `name` under `options` and feeds it `data`. The
/// second step is taken only if the first went well. An entry that took all
/// its bytes joins `entries`, with the name, the bytes and the options that
/// the codec was given; any other outcome leaves `entries` as they were.
fn append<F: ByteSink, S: ByteSink>(
    codec: &mut Codec<F, S>,
    entries: &mut Ghost<Seq<EntryView>>,
    name: &str,
    data: &[u8],
    options: &EntryOptions,
) -> (outcome: EntryOutcome)
    requires
        name_fits(name@),
    ensures
        final(entries)@ == if outcome is Appended {
            old(entries)@.push(EntryView { name: name@, data: data@, options: options@ })
        } else {
            old(entries)@
        },
{
    match codec::start_file(codec, name, options) {
        Err(error) => EntryOutcome::NotStarted(codec::zip_error_text(&error)),
        Ok(()) => match codec::write_all(codec, data) {
            Err(error) => EntryOutcome::NotWritten(codec::io_error_text(&error)),
            Ok(()) => {
                *entries = Ghost(
                    entries@.push(EntryView { name: name@, data: data@, options: options@ }),
                );
                EntryOutcome::Appended
            },
        },
    }
}

/// A session that writes a ZIP archive into a sink.
///
/// The codec is held while the session is open and given up, once and for
/// good, when it is closed. The password is the one given at construction.
#[verifier::reject_recursive_types(F)]
#[verifier::reject_recursive_types(S)]
pub struct ZipWriter<F: ByteSink, S: ByteSink> {
    writer: Option<Codec<F, S>>,
    password: Option<Vec<u8>>,
    entries: Ghost<Seq<EntryView>>,
}

impl<F: ByteSink, S: ByteSink> View for ZipWriter<F, S> {
    type V = SessionView;

    closed spec fn view(&self) -> SessionView {
        SessionView {
            open: self.writer is Some,
            password: match self.password {
                Some(key) => Some(key@),
                None => None,
            },
            entries: self.entries@,
        }
    }
}

impl<F: ByteSink, S: ByteSink> ZipWriter<F, S> {
    /// Opens a session on the destination that `opened` describes, with an
    /// optional password, which is kept as it is given. Where the destination
    /// could not be resolved, there is no session, and the failure is the one
    /// that [`InnerWriter::new`] reports.
    pub fn new(opened: Opened<F, S>, password: Option<Vec<u8>>) -> (session: Result<
        Self,
        SessionError,
    >)
        ensures
            match opened {
                Opened::File(Ok(_)) | Opened::FileLike(Ok(_)) => session matches Ok(made)
                    && made@ == SessionView::fresh(
                    match password {
                        Some(key) => Some(key@),
                        None => None,
                    },
                ),
                Opened::File(Err(detail)) => session matches Err(error) && error
                    == SessionError::Destination(detail),
                Opened::FileLike(Err(detail)) => session matches Err(error) && error
                    == SessionError::Capability(detail),
            },
    {
        match InnerWriter::new(opened) {
            Ok(sink) => Ok(
                ZipWriter { writer: Some(codec::bind(sink)), password, entries: Ghost(Seq::empty()) },
            ),
            Err(error) => Err(error),
        }
    }

    /// Whether the session is open.
    pub fn is_open(&self) -> (open: bool)
        ensures
            open == self@.open,
    {
        self.writer.is_some()
    }

    /// Says whether a write may go ahead, so that a caller need not fetch the
    /// bytes of an entry for a session that would refuse them.
    pub fn ensure_open(&self) -> (result: Result<(), SessionError>)
        ensures
            result == if self@.open {
                Ok::<(), SessionError>(())
            } else {
                Err(SessionError::Closed)
            },
    {
        if self.writer.is_some() {
            Ok(())
        } else {
            Err(SessionError::Closed)
        }
    }

    /// The options of the next entry, derived from the password each time.
    pub fn get_file_options(&self) -> (options: EntryOptions)
        ensures
            options@ == options_for(self@.password),
    {
        derive_options(&self.password)
    }

    /// Appends an entry named `entry_name` that holds `data`.
    ///
    /// A closed session refuses, and nothing is touched. An open session
    /// refuses a name of more than [`MAX_NAME_BYTES`] bytes, and nothing is
    /// touched either. Past that the codec decides: the session stays open
    /// whatever it answers, and has the entry if it took it.
    pub fn write_bytes(&mut self, data: &[u8], entry_name: &str) -> (result: Result<
        (),
        SessionError,
    >)
        ensures
            old(self)@.write_bytes_may_give(entry_name@, result),
            final(self)@ == old(self)@.write(entry_name@, data@, result is Ok),
            !old(self)@.open || !name_fits(entry_name@) ==> *final(self) == *old(self),
    {
        let options = self.get_file_options();
        let outcome = match &mut self.writer {
            None => {
                return Err(SessionError::Closed);
            },
            Some(codec) => {
                if entry_name.as_bytes().len() > MAX_NAME_BYTES {
                    return Err(SessionError::NameTooLong);
                }
                append(codec, &mut self.entries, entry_name, data, &options)
            },
        };
        bytes_verdict(outcome)
    }

    /// Appends an entry named `entry_name` that holds the bytes read from a
    /// source, or reports why the source gave none.
    ///
    /// A closed session refuses before it looks at `source`, and nothing is
    /// touched. On an open session a source that failed is reported, then a
    /// name of more than [`MAX_NAME_BYTES`] bytes is refused, and in both
    /// cases nothing is handed to the codec. Past that the codec decides; the
    /// session stays open in every case.
    pub fn write_file(&mut self, source: Result<Vec<u8>, SourceFailure>, entry_name: &str) -> (result:
        Result<(), SessionError>)
        ensures
            old(self)@.write_file_may_give(
                match source {
                    Ok(_) => None,
                    Err(failure) => Some(failure),
                },
                entry_name@,
                result,
            ),
            final(self)@ == old(self)@.write(
                entry_name@,
                match source {
                    Ok(buffer) => buffer@,
                    Err(_) => Seq::empty(),
                },
                result is Ok,
            ),
            !old(self)@.open || source is Err || !name_fits(entry_name@) ==> *final(self) == *old(
                self,
            ),
    {
        if self.writer.is_none() {
            return Err(SessionError::Closed);
        }
        let buffer = match source {
            Ok(buffer) => buffer,
            Err(failure) => {
                return Err(source_error(failure));
            },
        };
        let options = self.get_file_options();
        let outcome = match &mut self.writer {
            None => {
                return Err(SessionError::Closed);
            },
            Some(codec) => {
                if entry_name.as_bytes().len() > MAX_NAME_BYTES {
                    return Err(SessionError::NameTooLong);
                }
                append(codec, &mut self.entries, entry_name, buffer.as_slice(), &options)
            },
        };
        file_verdict(outcome)
    }

    /// Closes the session. An open session gives its codec up to be finished,
    /// and is closed whether or not that goes well; a closed one is left as it
    /// is, and that is no failure.
    pub fn close(&mut self) -> (result: Result<(), SessionError>)
        ensures
            old(self)@.close_may_give(result),
            final(self)@ == old(self)@.close(),
            !old(self)@.open ==> *final(self) == *old(self),
    {
        match self.writer.take() {
            None => Ok(()),
            Some(codec) => match codec::finish(codec) {
                Ok(()) => close_verdict(None),
                Err(error) => close_verdict(Some(codec::zip_error_text(&error))),
            },
        }
    }

    /// Enters a scope: the session itself is what the scope works with.
    pub fn enter(self) -> (session: Self)
        ensures
            session == self,
    {
        self
    }

    /// Leaves a scope, however it ended: the session is closed. The answer
    /// `false` says that whatever ended the scope is not held back; a failure
    /// to finish is reported in its place.
    pub fn exit(&mut self) -> (result: Result<bool, SessionError>)
        ensures
            final(self)@ == old(self)@.close(),
            old(self)@.close_may_give(
                match result {
                    Ok(_) => Ok(()),
                    Err(error) => Err(error),
                },
            ),
            result matches Ok(held_back) ==> !held_back,
            !old(self)@.open ==> *final(self) == *old(self),
    {
        match self.close() {
            Ok(()) => Ok(false),
            Err(error) => Err(error),
        }
    }
}

} // verus!
