//! The ZIP codec, as far as the session uses it: the writer of the `zip`
//! crate bound to a sink, and the four steps taken on it. What these
//! functions promise is taken from that crate's source and is not proved here.

use crate::options::Compression;
use crate::options::Encryption;
use crate::options::EntryOptions;
use crate::sink::ByteSink;
use crate::sink::InnerWriter;
use vstd::prelude::*;

verus! {

/// `zip::result::ZipError`, which the codec fails with. Nothing of its
/// inside is visible to a contract.
#[verifier::external_type_specification]
#[verifier::external_body]
pub struct ExZipError(zip::result::ZipError);

/// A `zip::ZipWriter` that owns the sink of a session. The writer keeps the
/// sink until [`finish`] takes both.
#[verifier::external_body]
#[verifier::reject_recursive_types(F)]
#[verifier::reject_recursive_types(S)]
pub struct Codec<F: ByteSink, S: ByteSink> {
    inner: zip::ZipWriter<InnerWriter<F, S>>,
}

/// The longest entry name, in bytes, that the container format can hold: its
/// header stores the length in sixteen bits.
pub const MAX_NAME_BYTES: usize = 65535;

/// Whether a name, encoded as UTF-8, is short enough for the container.
pub open spec fn name_fits(name: Seq<char>) -> bool {
    vstd::utf8::encode_utf8(name).len() <= MAX_NAME_BYTES
}

/// Calls `zip::ZipWriter::new`, which takes the sink and writes nothing yet.
#[verifier::external_body]
pub(crate) fn bind<F: ByteSink, S: ByteSink>(sink: InnerWriter<F, S>) -> (codec: Codec<F, S>) {
    Codec { inner: zip::ZipWriter::new(sink) }
}

/// Calls `zip::ZipWriter::start_file` with the `zip::write::FileOptions` that
/// say what `options` says: the entry before, if one is still being written,
/// is completed, and an entry named `name` is begun. The call fails when the
/// archive holds the name already or the sink fails; nothing is promised of
/// its result. It must not be given a name whose length does not fit the
/// header: the codec would stop the program.
#[verifier::external_body]
pub(crate) fn start_file<F: ByteSink, S: ByteSink>(
    codec: &mut Codec<F, S>,
    name: &str,
    options: &EntryOptions,
) -> (started: Result<(), zip::result::ZipError>)
    requires
        name_fits(name@),
{
    let method = match options.compression {
        Compression::Stored => zip::CompressionMethod::Stored,
        Compression::Deflated => zip::CompressionMethod::Deflated,
    };
    let plain = zip::write::FileOptions::<zip::write::ExtendedFileOptions>::default()
        .compression_method(method);
    let chosen = match &options.encryption {
        Encryption::Plain => plain,
        Encryption::ZipCrypto(key) => {
            zip::unstable::write::FileOptionsExt::with_deprecated_encryption(plain, key)
        },
    };
    codec.inner.start_file(name, chosen)
}

/// Calls `std::io::Write::write_all` on the `zip::ZipWriter`, which feeds
/// `data` to the entry begun last. Nothing is promised of its result.
#[verifier::external_body]
pub(crate) fn write_all<F: ByteSink, S: ByteSink>(codec: &mut Codec<F, S>, data: &[u8]) -> (written:
    Result<(), std::io::Error>) {
    std::io::Write::write_all(&mut codec.inner, data)
}

/// Calls `zip::ZipWriter::finish`, which completes the last entry and writes
/// the central directory, and lets go of the sink that it hands back. Nothing
/// is promised of its result.
#[verifier::external_body]
pub(crate) fn finish<F: ByteSink, S: ByteSink>(codec: Codec<F, S>) -> (finished: Result<
    (),
    zip::result::ZipError,
>) {
    codec.inner.finish().map(|_sink| ())
}

/// Calls `to_string` on a `zip::result::ZipError`: the text that its
/// `Display` gives.
#[verifier::external_body]
pub(crate) fn zip_error_text(error: &zip::result::ZipError) -> (text: String) {
    error.to_string()
}

/// Calls `to_string` on a `std::io::Error`: the text that its `Display` gives.
#[verifier::external_body]
pub(crate) fn io_error_text(error: &std::io::Error) -> (text: String) {
    error.to_string()
}

} // verus!
