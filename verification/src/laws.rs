//! What holds of every session, stated over its model and proved from it.

use crate::error::SessionError;
use crate::error::SourceFailure;
use crate::options::EncryptionView;
use crate::options::options_for;
use crate::session::SessionView;
use vstd::prelude::*;

verus! {

/// Closing twice is closing once: whatever the first `close` gave, the second
/// succeeds and leaves the session as the first left it.
pub proof fn lemma_close_is_idempotent(
    session: SessionView,
    first: Result<(), SessionError>,
    second: Result<(), SessionError>,
)
    requires
        session.close_may_give(first),
        session.close().close_may_give(second),
    ensures
        second == Ok::<(), SessionError>(()),
        session.close().close() == session.close(),
{
}

/// Once a session has been closed, a write of a buffer fails as closed and
/// changes nothing, whatever the name and the bytes.
pub proof fn lemma_closed_refuses_bytes(
    session: SessionView,
    name: Seq<char>,
    data: Seq<u8>,
    result: Result<(), SessionError>,
)
    requires
        session.close().write_bytes_may_give(name, result),
    ensures
        result == Err::<(), SessionError>(SessionError::Closed),
        session.close().write(name, data, result is Ok) == session.close(),
{
}

/// Once a session has been closed, a write from a source fails as closed and
/// changes nothing, whether or not the source could be read.
pub proof fn lemma_closed_refuses_file(
    session: SessionView,
    name: Seq<char>,
    source: Result<Seq<u8>, SourceFailure>,
    result: Result<(), SessionError>,
)
    requires
        session.close().write_file_may_give(
            match source {
                Ok(_) => None,
                Err(failure) => Some(failure),
            },
            name,
            result,
        ),
    ensures
        result == Err::<(), SessionError>(SessionError::Closed),
        session.close().write(
            name,
            match source {
                Ok(data) => data,
                Err(_) => Seq::empty(),
            },
            result is Ok,
        ) == session.close(),
{
}

/// A source that could not be read costs the entry and nothing else: the
/// session is as it was, and as open as it was.
pub proof fn lemma_failed_source_keeps_session(
    session: SessionView,
    name: Seq<char>,
    failure: SourceFailure,
    result: Result<(), SessionError>,
)
    requires
        session.open,
        session.write_file_may_give(Some(failure), name, result),
    ensures
        result is Err,
        session.write(name, Seq::empty(), result is Ok) == session,
        session.write(name, Seq::empty(), result is Ok).open,
{
}

/// A session begins with the policy kept, and no step breaks it: every entry
/// of a session carries the options that its password asks for.
pub proof fn lemma_policy_is_kept(
    session: SessionView,
    name: Seq<char>,
    data: Seq<u8>,
    accepted: bool,
)
    ensures
        SessionView::fresh(session.password).follows_policy(),
        session.follows_policy() ==> session.write(name, data, accepted).follows_policy(),
        session.follows_policy() ==> session.close().follows_policy(),
{
}

/// Without a password nothing is encrypted: the options of the next entry
/// are plain, and so is every entry of a session that keeps the policy.
pub proof fn lemma_no_password_no_encryption(session: SessionView, i: int)
    requires
        session.password is None,
        session.follows_policy(),
        0 <= i < session.entries.len(),
    ensures
        options_for(session.password).encryption == EncryptionView::Plain,
        session.entries[i].options.encryption == EncryptionView::Plain,
{
}

/// With a password everything is encrypted under it: the options of the next
/// entry name the legacy cipher with exactly these bytes as its key, so that
/// two passwords ask for the same options only if they are the same bytes.
pub proof fn lemma_password_is_the_key(password: Seq<u8>, other: Seq<u8>)
    ensures
        options_for(Some(password)).encryption == EncryptionView::ZipCrypto(password),
        options_for(Some(password)) == options_for(Some(other)) ==> password == other,
        options_for(Some(password)) != options_for(None),
{
}

/// An entry that an open session took is its newest, holds exactly the name
/// and the bytes that were written, and is still there once the session is
/// closed, with every entry before it.
pub proof fn lemma_written_entry_is_kept(session: SessionView, name: Seq<char>, data: Seq<u8>)
    requires
        session.open,
    ensures
        session.write(name, data, true).close().entries == session.entries.push(
            session.entry(name, data),
        ),
        session.write(name, data, true).close().entries.last().name == name,
        session.write(name, data, true).close().entries.last().data == data,
        session.write(name, data, true).close().entries.last().options == options_for(
            session.password,
        ),
{
}

/// A write changes neither whether the session is open nor its password, and
/// takes no entry away.
pub proof fn lemma_write_keeps_lifecycle(
    session: SessionView,
    name: Seq<char>,
    data: Seq<u8>,
    accepted: bool,
)
    ensures
        session.write(name, data, accepted).open == session.open,
        session.write(name, data, accepted).password == session.password,
        session.entries.is_prefix_of(session.write(name, data, accepted).entries),
        session.write(name, data, accepted).entries.len() == session.entries.len() + (if session.open
            && accepted {
            1int
        } else {
            0int
        }),
{
}

} // verus!
