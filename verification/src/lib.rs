//! An ownership-safe, error-checked layer over a native Ogg Opus decoder.
//!
//! The native engine reports failures as small negative integer status codes
//! and hands out raw references to decoder state. This crate pins down, with
//! machine-checked contracts, the two things a careless wrapper gets wrong:
//! the total mapping from every status code to a typed error kind, and the
//! acceptance rules each operation applies to what the native calls return
//! (when a candidate handle counts as open, when a return value is a sample
//! count, when it is an error). The unsafe foreign calls themselves live in a
//! thin unverified front end that routes every native result through the
//! functions here.

pub mod error;
pub mod handle;

pub use error::OpusFileError;
pub use handle::OggOpusFile;
pub use handle::OpusHead;
pub use handle::OpusTags;
