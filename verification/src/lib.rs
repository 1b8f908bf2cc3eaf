//! An archive-writing session: a lifecycle state machine over a ZIP codec
//! that writes deflate-compressed, optionally ZipCrypto-protected entries into
//! a byte sink, which is either a native file or a caller-supplied stream.

pub mod error;
pub mod options;
pub mod sink;
pub mod codec;
pub mod session;
pub mod laws;
