//! The options under which one entry is written, derived from the password.

use vstd::prelude::*;

verus! {

/// How the bytes of an entry are stored.
#[derive(Debug, Clone, Copy, PartialEq, Eq, Structural)]
pub enum Compression {
    /// As they are.
    Stored,
    /// Compressed with deflate.
    Deflated,
}

/// How the stored bytes of an entry are protected.
#[derive(Debug, Clone, PartialEq, Eq)]
pub enum Encryption {
    /// Not at all: a reader needs no password.
    Plain,
    /// With the legacy ZIP stream cipher, keyed by these bytes.
    ZipCrypto(Vec<u8>),
}

/// What [`Encryption`] is to a contract.
pub enum EncryptionView {
    Plain,
    ZipCrypto(Seq<u8>),
}

impl View for Encryption {
    type V = EncryptionView;

    open spec fn view(&self) -> EncryptionView {
        match self {
            Encryption::Plain => EncryptionView::Plain,
            Encryption::ZipCrypto(key) => EncryptionView::ZipCrypto(key@),
        }
    }
}

/// The options of one entry.
#[derive(Debug, Clone, PartialEq, Eq)]
pub struct EntryOptions {
    pub compression: Compression,
    pub encryption: Encryption,
}

/// What [`EntryOptions`] are to a contract.
pub struct EntryOptionsView {
    pub compression: Compression,
    pub encryption: EncryptionView,
}

impl View for EntryOptions {
    type V = EntryOptionsView;

    open spec fn view(&self) -> EntryOptionsView {
        EntryOptionsView { compression: self.compression, encryption: self.encryption@ }
    }
}

/// The policy of a session: every entry is deflated; it is encrypted with the
/// legacy cipher under the password if there is one, and not at all otherwise.
pub open spec fn options_for(password: Option<Seq<u8>>) -> EntryOptionsView {
    EntryOptionsView {
        compression: Compression::Deflated,
        encryption: match password {
            Some(key) => EncryptionView::ZipCrypto(key),
            None => EncryptionView::Plain,
        },
    }
}

/// Derives the options of the next entry from the session's password.
pub fn derive_options(password: &Option<Vec<u8>>) -> (options: EntryOptions)
    ensures
        options@ == options_for(
            match *password {
                Some(key) => Some(key@),
                None => None,
            },
        ),
{
    let encryption = match password {
        Some(key) => Encryption::ZipCrypto(key.clone()),
        None => Encryption::Plain,
    };
    EntryOptions { compression: Compression::Deflated, encryption }
}

} // verus!
