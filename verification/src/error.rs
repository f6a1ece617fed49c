//! The error taxonomy: a total, collision-free mapping from the native
//! decoder's status codes to a closed set of named error kinds.

use vstd::prelude::*;

verus! {

/// Status code for a request that did not succeed.
pub const OP_FALSE: i32 = -1;
/// Status code for end of file.
pub const OP_EOF: i32 = -2;
/// Status code for a hole in the page sequence numbers.
pub const OP_HOLE: i32 = -3;
/// Status code for a failed underlying read, seek, or tell operation.
pub const OP_EREAD: i32 = -128;
/// Status code for an unexpected NULL pointer or an internal failure.
pub const OP_EFAULT: i32 = -129;
/// Status code for a stream feature that is not implemented.
pub const OP_EIMPL: i32 = -130;
/// Status code for invalid parameters.
pub const OP_EINVAL: i32 = -131;
/// Status code for data that is not recognizable as an Ogg Opus stream.
pub const OP_ENOTFORMAT: i32 = -132;
/// Status code for a malformed or missing required header packet.
pub const OP_EBADHEADER: i32 = -133;
/// Status code for an unrecognized ID header version number.
pub const OP_EVERSION: i32 = -134;
/// Status code for a stream that is not audio.
pub const OP_ENOTAUDIO: i32 = -135;
/// Status code for an audio packet that failed to decode.
pub const OP_EBADPACKET: i32 = -136;
/// Status code for an unrecoverable or unseekable link.
pub const OP_EBADLINK: i32 = -137;
/// Status code for a seek request on an unseekable stream.
pub const OP_ENOSEEK: i32 = -138;
/// Status code for a granule position that failed basic validity checks.
pub const OP_EBADTIMESTAMP: i32 = -139;

/// One kind for every status code the native decoder documents, plus a
/// defensive `Unknown` for any code outside that set. A non-negative code is
/// never an error, so the mapping sends it to `Unknown` as well; callers only
/// reach the mapping after deciding that an operation failed.
#[derive(Clone, Copy, Debug, PartialEq, Eq, Structural)]
pub enum OpusFileError {
    /// The status code was not one the native decoder documents.
    Unknown,
    /// A request did not succeed.
    False,
    /// End of file.
    Eof,
    /// There was a hole in the page sequence numbers (e.g., a page was
    /// corrupt or missing).
    Hole,
    /// An underlying read, seek, or tell operation failed when it should
    /// have succeeded.
    Read,
    /// A NULL pointer was passed where one was unexpected, or an internal
    /// memory allocation failed, or an internal library error was
    /// encountered.
    Fault,
    /// The stream used a feature that is not implemented, such as an
    /// unsupported channel family.
    NotImplemented,
    /// One or more parameters to a function were invalid.
    InvalidParameters,
    /// The data did not have the format of an Ogg Opus stream.
    InvalidFormat,
    /// A required header packet was not properly formatted, contained
    /// illegal values, or was missing altogether.
    BadHeader,
    /// The ID header contained an unrecognized version number.
    UnrecognizedVersion,
    /// Not audio.
    NotAudio,
    /// An audio packet failed to decode properly.
    BadPacket,
    /// The bitstream structure was too malformed to keep decoding or to
    /// reach the seek target.
    BadLink,
    /// An operation that requires seeking was requested on an unseekable
    /// stream.
    UnableToSeek,
    /// The first or last granule position of a link failed basic validity
    /// checks.
    BadTimestamp,
}

/// The status codes the native decoder documents: two contiguous bands of
/// small negative integers.
pub open spec fn is_native_error_code(status: int) -> bool {
    ||| OP_HOLE as int <= status <= OP_FALSE as int
    ||| OP_EBADTIMESTAMP as int <= status <= OP_EREAD as int
}

/// The total mapping from a status code to its error kind: each documented
/// code to its own kind, everything else to `Unknown`.
pub open spec fn status_kind(status: int) -> OpusFileError {
    if status == OP_FALSE as int {
        OpusFileError::False
    } else if status == OP_EOF as int {
        OpusFileError::Eof
    } else if status == OP_HOLE as int {
        OpusFileError::Hole
    } else if status == OP_EREAD as int {
        OpusFileError::Read
    } else if status == OP_EFAULT as int {
        OpusFileError::Fault
    } else if status == OP_EIMPL as int {
        OpusFileError::NotImplemented
    } else if status == OP_EINVAL as int {
        OpusFileError::InvalidParameters
    } else if status == OP_ENOTFORMAT as int {
        OpusFileError::InvalidFormat
    } else if status == OP_EBADHEADER as int {
        OpusFileError::BadHeader
    } else if status == OP_EVERSION as int {
        OpusFileError::UnrecognizedVersion
    } else if status == OP_ENOTAUDIO as int {
        OpusFileError::NotAudio
    } else if status == OP_EBADPACKET as int {
        OpusFileError::BadPacket
    } else if status == OP_EBADLINK as int {
        OpusFileError::BadLink
    } else if status == OP_ENOSEEK as int {
        OpusFileError::UnableToSeek
    } else if status == OP_EBADTIMESTAMP as int {
        OpusFileError::BadTimestamp
    } else {
        OpusFileError::Unknown
    }
}

/// The status code each kind stands for. `Unknown` stands for no documented
/// code; it keeps the one value the mapping can never send a documented code
/// to.
pub open spec fn kind_code(kind: OpusFileError) -> int {
    match kind {
        OpusFileError::Unknown => i32::MIN as int,
        OpusFileError::False => OP_FALSE as int,
        OpusFileError::Eof => OP_EOF as int,
        OpusFileError::Hole => OP_HOLE as int,
        OpusFileError::Read => OP_EREAD as int,
        OpusFileError::Fault => OP_EFAULT as int,
        OpusFileError::NotImplemented => OP_EIMPL as int,
        OpusFileError::InvalidParameters => OP_EINVAL as int,
        OpusFileError::InvalidFormat => OP_ENOTFORMAT as int,
        OpusFileError::BadHeader => OP_EBADHEADER as int,
        OpusFileError::UnrecognizedVersion => OP_EVERSION as int,
        OpusFileError::NotAudio => OP_ENOTAUDIO as int,
        OpusFileError::BadPacket => OP_EBADPACKET as int,
        OpusFileError::BadLink => OP_EBADLINK as int,
        OpusFileError::UnableToSeek => OP_ENOSEEK as int,
        OpusFileError::BadTimestamp => OP_EBADTIMESTAMP as int,
    }
}

/// The fixed human-readable description of each kind, for diagnostics.
pub open spec fn description_of(kind: OpusFileError) -> Seq<char> {
    match kind {
        OpusFileError::Unknown => "Unknown error."@,
        OpusFileError::False => "A request did not succeed."@,
        OpusFileError::Eof => "End of file."@,
        OpusFileError::Hole => "There was a hole in the page sequence numbers (e.g., a page was corrupt or missing)."@,
        OpusFileError::Read => "An underlying read, seek, or tell operation failed when it should have succeeded."@,
        OpusFileError::Fault => "A NULL pointer was passed where one was unexpected, or an internal memory allocation failed, or an internal library error was encountered."@,
        OpusFileError::NotImplemented => "The stream used a feature that is not implemented, such as an unsupported channel family."@,
        OpusFileError::InvalidParameters => "One or more parameters to a function were invalid."@,
        OpusFileError::InvalidFormat => "A purported Ogg Opus stream did not begin with an Ogg page, a purported header packet did not start with one of the required strings, \"OpusHead\" or \"OpusTags\", or a link in a chained file was encountered that did not contain any logical Opus streams."@,
        OpusFileError::BadHeader => "A required header packet was not properly formatted, contained illegal values, or was missing altogether."@,
        OpusFileError::UnrecognizedVersion => "The ID header contained an unrecognized version number."@,
        OpusFileError::NotAudio => "Not audio."@,
        OpusFileError::BadPacket => "An audio packet failed to decode properly."@,
        OpusFileError::BadLink => "We failed to find data we had seen before, or the bitstream structure was sufficiently malformed that seeking to the target destination was impossible."@,
        OpusFileError::UnableToSeek => "An operation that requires seeking was requested on an unseekable stream."@,
        OpusFileError::BadTimestamp => "The first or last granule position of a link failed basic validity checks."@,
    }
}

/// Maps a 32-bit native status code to its error kind.
pub fn kind_from_status_i32(status: i32) -> (kind: OpusFileError)
    ensures
        kind == status_kind(status as int),
{
    if status == OP_FALSE {
        OpusFileError::False
    } else if status == OP_EOF {
        OpusFileError::Eof
    } else if status == OP_HOLE {
        OpusFileError::Hole
    } else if status == OP_EREAD {
        OpusFileError::Read
    } else if status == OP_EFAULT {
        OpusFileError::Fault
    } else if status == OP_EIMPL {
        OpusFileError::NotImplemented
    } else if status == OP_EINVAL {
        OpusFileError::InvalidParameters
    } else if status == OP_ENOTFORMAT {
        OpusFileError::InvalidFormat
    } else if status == OP_EBADHEADER {
        OpusFileError::BadHeader
    } else if status == OP_EVERSION {
        OpusFileError::UnrecognizedVersion
    } else if status == OP_ENOTAUDIO {
        OpusFileError::NotAudio
    } else if status == OP_EBADPACKET {
        OpusFileError::BadPacket
    } else if status == OP_EBADLINK {
        OpusFileError::BadLink
    } else if status == OP_ENOSEEK {
        OpusFileError::UnableToSeek
    } else if status == OP_EBADTIMESTAMP {
        OpusFileError::BadTimestamp
    } else {
        OpusFileError::Unknown
    }
}

/// Maps a 64-bit native status code (from the operations that return 64-bit
/// values) to its error kind.
pub fn kind_from_status_i64(status: i64) -> (kind: OpusFileError)
    ensures
        kind == status_kind(status as int),
{
    if status == OP_FALSE as i64 {
        OpusFileError::False
    } else if status == OP_EOF as i64 {
        OpusFileError::Eof
    } else if status == OP_HOLE as i64 {
        OpusFileError::Hole
    } else if status == OP_EREAD as i64 {
        OpusFileError::Read
    } else if status == OP_EFAULT as i64 {
        OpusFileError::Fault
    } else if status == OP_EIMPL as i64 {
        OpusFileError::NotImplemented
    } else if status == OP_EINVAL as i64 {
        OpusFileError::InvalidParameters
    } else if status == OP_ENOTFORMAT as i64 {
        OpusFileError::InvalidFormat
    } else if status == OP_EBADHEADER as i64 {
        OpusFileError::BadHeader
    } else if status == OP_EVERSION as i64 {
        OpusFileError::UnrecognizedVersion
    } else if status == OP_ENOTAUDIO as i64 {
        OpusFileError::NotAudio
    } else if status == OP_EBADPACKET as i64 {
        OpusFileError::BadPacket
    } else if status == OP_EBADLINK as i64 {
        OpusFileError::BadLink
    } else if status == OP_ENOSEEK as i64 {
        OpusFileError::UnableToSeek
    } else if status == OP_EBADTIMESTAMP as i64 {
        OpusFileError::BadTimestamp
    } else {
        OpusFileError::Unknown
    }
}

impl OpusFileError {
    /// The status code this kind stands for; `Unknown` reports the one value
    /// outside the documented set.
    pub fn status_code(&self) -> (code: i32)
        ensures
            code as int == kind_code(*self),
    {
        match self {
            OpusFileError::Unknown => i32::MIN,
            OpusFileError::False => OP_FALSE,
            OpusFileError::Eof => OP_EOF,
            OpusFileError::Hole => OP_HOLE,
            OpusFileError::Read => OP_EREAD,
            OpusFileError::Fault => OP_EFAULT,
            OpusFileError::NotImplemented => OP_EIMPL,
            OpusFileError::InvalidParameters => OP_EINVAL,
            OpusFileError::InvalidFormat => OP_ENOTFORMAT,
            OpusFileError::BadHeader => OP_EBADHEADER,
            OpusFileError::UnrecognizedVersion => OP_EVERSION,
            OpusFileError::NotAudio => OP_ENOTAUDIO,
            OpusFileError::BadPacket => OP_EBADPACKET,
            OpusFileError::BadLink => OP_EBADLINK,
            OpusFileError::UnableToSeek => OP_ENOSEEK,
            OpusFileError::BadTimestamp => OP_EBADTIMESTAMP,
        }
    }

    /// The fixed description of this kind, suitable for direct display or
    /// logging.
    pub fn description(&self) -> (text: &'static str)
        ensures
            text@ == description_of(*self),
    {
        match self {
            OpusFileError::Unknown => "Unknown error.",
            OpusFileError::False => "A request did not succeed.",
            OpusFileError::Eof => "End of file.",
            OpusFileError::Hole => "There was a hole in the page sequence numbers (e.g., a page was corrupt or missing).",
            OpusFileError::Read => "An underlying read, seek, or tell operation failed when it should have succeeded.",
            OpusFileError::Fault => "A NULL pointer was passed where one was unexpected, or an internal memory allocation failed, or an internal library error was encountered.",
            OpusFileError::NotImplemented => "The stream used a feature that is not implemented, such as an unsupported channel family.",
            OpusFileError::InvalidParameters => "One or more parameters to a function were invalid.",
            OpusFileError::InvalidFormat => "A purported Ogg Opus stream did not begin with an Ogg page, a purported header packet did not start with one of the required strings, \"OpusHead\" or \"OpusTags\", or a link in a chained file was encountered that did not contain any logical Opus streams.",
            OpusFileError::BadHeader => "A required header packet was not properly formatted, contained illegal values, or was missing altogether.",
            OpusFileError::UnrecognizedVersion => "The ID header contained an unrecognized version number.",
            OpusFileError::NotAudio => "Not audio.",
            OpusFileError::BadPacket => "An audio packet failed to decode properly.",
            OpusFileError::BadLink => "We failed to find data we had seen before, or the bitstream structure was sufficiently malformed that seeking to the target destination was impossible.",
            OpusFileError::UnableToSeek => "An operation that requires seeking was requested on an unseekable stream.",
            OpusFileError::BadTimestamp => "The first or last granule position of a link failed basic validity checks.",
        }
    }
}

/// Every documented status code maps to a kind that stands for exactly that
/// code: following the mapping and reading the code back is the identity on
/// the documented set.
pub proof fn lemma_status_code_round_trip(status: int)
    requires
        is_native_error_code(status),
    ensures
        kind_code(status_kind(status)) == status,
{
}

/// No two distinct documented status codes collide on one kind.
pub proof fn lemma_status_kinds_distinct(status_a: int, status_b: int)
    requires
        is_native_error_code(status_a),
        is_native_error_code(status_b),
        status_a != status_b,
    ensures
        status_kind(status_a) != status_kind(status_b),
{
    lemma_status_code_round_trip(status_a);
    lemma_status_code_round_trip(status_b);
}

/// Distinct kinds never collide on one description either: the diagnostic
/// text identifies the failure condition as precisely as the kind does.
#[verifier::rlimit(100)]
pub proof fn lemma_descriptions_distinct(kind_a: OpusFileError, kind_b: OpusFileError)
    requires
        kind_a != kind_b,
    ensures
        description_of(kind_a) != description_of(kind_b),
{
    reveal_strlit("Unknown error.");
    reveal_strlit("A request did not succeed.");
    reveal_strlit("End of file.");
    reveal_strlit("There was a hole in the page sequence numbers (e.g., a page was corrupt or missing).");
    reveal_strlit("An underlying read, seek, or tell operation failed when it should have succeeded.");
    reveal_strlit("A NULL pointer was passed where one was unexpected, or an internal memory allocation failed, or an internal library error was encountered.");
    reveal_strlit("The stream used a feature that is not implemented, such as an unsupported channel family.");
    reveal_strlit("One or more parameters to a function were invalid.");
    reveal_strlit("A purported Ogg Opus stream did not begin with an Ogg page, a purported header packet did not start with one of the required strings, \"OpusHead\" or \"OpusTags\", or a link in a chained file was encountered that did not contain any logical Opus streams.");
    reveal_strlit("A required header packet was not properly formatted, contained illegal values, or was missing altogether.");
    reveal_strlit("The ID header contained an unrecognized version number.");
    reveal_strlit("Not audio.");
    reveal_strlit("An audio packet failed to decode properly.");
    reveal_strlit("We failed to find data we had seen before, or the bitstream structure was sufficiently malformed that seeking to the target destination was impossible.");
    reveal_strlit("An operation that requires seeking was requested on an unseekable stream.");
    reveal_strlit("The first or last granule position of a link failed basic validity checks.");
    // No two descriptions even share a length.
    assert(description_of(OpusFileError::Unknown).len() == 14);
    assert(description_of(OpusFileError::False).len() == 26);
    assert(description_of(OpusFileError::Eof).len() == 12);
    assert(description_of(OpusFileError::Hole).len() == 84);
    assert(description_of(OpusFileError::Read).len() == 81);
    assert(description_of(OpusFileError::Fault).len() == 138);
    assert(description_of(OpusFileError::NotImplemented).len() == 89);
    assert(description_of(OpusFileError::InvalidParameters).len() == 50);
    assert(description_of(OpusFileError::InvalidFormat).len() == 250);
    assert(description_of(OpusFileError::BadHeader).len() == 105);
    assert(description_of(OpusFileError::UnrecognizedVersion).len() == 55);
    assert(description_of(OpusFileError::NotAudio).len() == 10);
    assert(description_of(OpusFileError::BadPacket).len() == 42);
    assert(description_of(OpusFileError::BadLink).len() == 151);
    assert(description_of(OpusFileError::UnableToSeek).len() == 73);
    assert(description_of(OpusFileError::BadTimestamp).len() == 74);
}

/// A documented status code never falls back to the defensive `Unknown`
/// kind: `Unknown` is reserved for codes outside the documented set.
pub proof fn lemma_documented_code_not_unknown(status: int)
    requires
        is_native_error_code(status),
    ensures
        status_kind(status) != OpusFileError::Unknown,
{
    lemma_status_code_round_trip(status);
}

} // verus!
