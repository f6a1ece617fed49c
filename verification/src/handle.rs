//! The decoder handle and the acceptance rules of every operation on it.
//!
//! The native engine hands out a raw reference to decoder state; here it is
//! modelled by its address, held by a move-only owning type whose invariant
//! is that the address is never null. The unverified front end makes each
//! foreign call and passes what came back — a candidate address, a status
//! code, a return value — to the functions below, which decide, under
//! contract, whether the operation succeeded and what it produced. No
//! function here promises anything about what the native engine returns; it
//! promises how every possible return is judged.

use vstd::prelude::*;

use crate::error::OpusFileError;
use crate::error::kind_from_status_i32;
use crate::error::kind_from_status_i64;
use crate::error::status_kind;

verus! {

/// An exclusively owned, never-null reference to native decoder state.
///
/// A value of this type exists only for a candidate the opening rules
/// accepted, and it cannot be duplicated, so the front end that frees the
/// native reference when its owner is dropped frees it exactly once.
pub struct OggOpusFile {
    raw: usize,
}

/// A non-owning reference to a link's ID header data. The data belongs to
/// the decoder the value was obtained from; the reference is only meaningful
/// while that decoder is alive and may be invalidated by operations that
/// cross a chain-link boundary.
pub struct OpusHead {
    raw: usize,
}

/// A non-owning reference to a link's tag data, with the same aliasing
/// constraints as [`OpusHead`].
pub struct OpusTags {
    raw: usize,
}

impl OggOpusFile {
    /// The address of the native decoder state this handle owns.
    pub closed spec fn raw_spec(&self) -> usize {
        self.raw
    }

    /// A well-formed handle never refers to a null native reference.
    pub open spec fn wf(&self) -> bool {
        self.raw_spec() != 0
    }

    /// Judges the outcome of a native opening call (any of the six open and
    /// test constructors): the candidate is accepted only when the returned
    /// reference is non-null and the status code is non-negative. Otherwise
    /// the status code's kind is reported — which is `Unknown` when the
    /// status itself claimed success but the reference was null, a
    /// combination the native engine should never produce but is not trusted
    /// to avoid.
    pub fn open_outcome(raw: usize, status: i32) -> (result: Result<OggOpusFile, OpusFileError>)
        ensures
            result is Ok <==> raw != 0 && status >= 0,
            result matches Ok(handle) ==> handle.wf() && handle.raw_spec() == raw,
            result matches Err(kind) ==> kind == status_kind(status as int),
    {
        if raw == 0 || status < 0 {
            Err(kind_from_status_i32(status))
        } else {
            Ok(OggOpusFile { raw })
        }
    }

    /// The owned address, for the front end to hand to native calls.
    pub fn raw_addr(&self) -> (addr: usize)
        ensures
            addr == self.raw_spec(),
    {
        self.raw
    }

    /// Judges the outcome of promoting a test-mode handle to a full one: on
    /// a non-negative status the very same handle moves to the caller, so
    /// the native reference keeps exactly one owner; on a negative status
    /// only the status code's kind comes back and the handle is given up.
    pub fn test_open_outcome(self, status: i32) -> (result: Result<OggOpusFile, OpusFileError>)
        requires
            self.wf(),
        ensures
            result is Ok <==> status >= 0,
            result matches Ok(handle) ==> handle == self,
            result matches Err(kind) ==> kind == status_kind(status as int),
    {
        if status < 0 {
            Err(kind_from_status_i32(status))
        } else {
            Ok(self)
        }
    }

    /// Judges a seekability report: any non-zero value means seekable.
    pub fn seekable_outcome(&self, ret: i32) -> (seekable: bool)
        requires
            self.wf(),
        ensures
            seekable == (ret != 0),
    {
        ret != 0
    }

    /// Converts a count the native engine promises to be non-negative (a
    /// link count or a channel count) to an unsigned value.
    pub fn count_outcome(&self, ret: i32) -> (count: usize)
        requires
            self.wf(),
            ret >= 0,
        ensures
            count == ret as int,
    {
        ret as usize
    }

    /// Judges a per-link byte or sample total: a negative value is the
    /// status code of a failure, anything else is the total itself.
    pub fn total_outcome(&self, ret: i64) -> (result: Result<usize, OpusFileError>)
        requires
            self.wf(),
            ret >= 0 ==> ret as int <= usize::MAX as int,
        ensures
            result is Ok <==> ret >= 0,
            result matches Ok(total) ==> total == ret as int,
            result matches Err(kind) ==> kind == status_kind(ret as int),
    {
        if ret < 0 {
            Err(kind_from_status_i64(ret))
        } else {
            Ok(ret as usize)
        }
    }

    /// Judges a 32-bit stream query (current link, average or instantaneous
    /// bitrate): a negative value is the status code of a failure, anything
    /// else is the queried value.
    pub fn query_outcome(&self, ret: i32) -> (result: Result<i32, OpusFileError>)
        requires
            self.wf(),
        ensures
            result is Ok <==> ret >= 0,
            result matches Ok(value) ==> value == ret,
            result matches Err(kind) ==> kind == status_kind(ret as int),
    {
        if ret < 0 {
            Err(kind_from_status_i32(ret))
        } else {
            Ok(ret)
        }
    }

    /// Judges a cursor-position report (raw byte or decoded sample offset):
    /// a negative value is the status code of a failure, anything else is
    /// the position.
    pub fn tell_outcome(&self, ret: i64) -> (result: Result<i64, OpusFileError>)
        requires
            self.wf(),
        ensures
            result is Ok <==> ret >= 0,
            result matches Ok(position) ==> position == ret,
            result matches Err(kind) ==> kind == status_kind(ret as int),
    {
        if ret < 0 {
            Err(kind_from_status_i64(ret))
        } else {
            Ok(ret)
        }
    }

    /// Judges the return of a decode call, shared by all four sample
    /// formats: a negative value is the status code of a failure, anything
    /// else is the number of sample frames decoded — and zero frames is a
    /// successful end of stream, never an error.
    pub fn read_outcome(&self, ret: i32) -> (result: Result<usize, OpusFileError>)
        requires
            self.wf(),
        ensures
            result is Ok <==> ret >= 0,
            result matches Ok(frames) ==> frames == ret as int,
            ret == 0 ==> result is Ok,
            result matches Err(kind) ==> kind == status_kind(ret as int),
    {
        if ret < 0 {
            Err(kind_from_status_i32(ret))
        } else {
            Ok(ret as usize)
        }
    }

    /// Judges the return of a raw or decoded-sample seek: non-negative means
    /// the seek took effect, a negative value is the status code of the
    /// failure (on an unseekable stream, the native engine's "unable to
    /// seek" code).
    pub fn seek_outcome(&self, ret: i32) -> (result: Result<(), OpusFileError>)
        requires
            self.wf(),
        ensures
            result is Ok <==> ret >= 0,
            result matches Err(kind) ==> kind == status_kind(ret as int),
    {
        if ret < 0 {
            Err(kind_from_status_i32(ret))
        } else {
            Ok(())
        }
    }

    /// Checked conversion of a sample buffer's length to the native size
    /// type. A length too large to represent is a caller programming error;
    /// it is reported as `None` — never silently truncated — and the front
    /// end fails fast on it instead of issuing the decode or seek call.
    pub fn native_buffer_len(len: usize) -> (result: Option<i32>)
        ensures
            result is Some <==> len <= i32::MAX as usize,
            result matches Some(native_len) ==> native_len == len as int,
    {
        if len <= i32::MAX as usize {
            Some(len as i32)
        } else {
            None
        }
    }

    /// Judges the header reference a native per-link header query returned:
    /// the query reports no status code, so a null reference can only be
    /// mapped to `Unknown`.
    pub fn head_outcome(&self, raw: usize) -> (result: Result<OpusHead, OpusFileError>)
        requires
            self.wf(),
        ensures
            result is Ok <==> raw != 0,
            result matches Ok(head) ==> head.wf() && head.raw_spec() == raw,
            result matches Err(kind) ==> kind == OpusFileError::Unknown,
    {
        if raw == 0 {
            Err(OpusFileError::Unknown)
        } else {
            Ok(OpusHead { raw })
        }
    }

    /// Judges the tag reference a native per-link tag query returned, by the
    /// same rule as [`Self::head_outcome`].
    pub fn tags_outcome(&self, raw: usize) -> (result: Result<OpusTags, OpusFileError>)
        requires
            self.wf(),
        ensures
            result is Ok <==> raw != 0,
            result matches Ok(tags) ==> tags.wf() && tags.raw_spec() == raw,
            result matches Err(kind) ==> kind == OpusFileError::Unknown,
    {
        if raw == 0 {
            Err(OpusFileError::Unknown)
        } else {
            Ok(OpusTags { raw })
        }
    }
}

impl OpusHead {
    /// The address of the decoder-owned header data.
    pub closed spec fn raw_spec(&self) -> usize {
        self.raw
    }

    /// A well-formed header handle never refers to a null reference.
    pub open spec fn wf(&self) -> bool {
        self.raw_spec() != 0
    }

    /// The referenced address, for the front end to read the data through.
    pub fn raw_addr(&self) -> (addr: usize)
        ensures
            addr == self.raw_spec(),
    {
        self.raw
    }
}

impl OpusTags {
    /// The address of the decoder-owned tag data.
    pub closed spec fn raw_spec(&self) -> usize {
        self.raw
    }

    /// A well-formed tag handle never refers to a null reference.
    pub open spec fn wf(&self) -> bool {
        self.raw_spec() != 0
    }

    /// The referenced address, for the front end to read the data through.
    pub fn raw_addr(&self) -> (addr: usize)
        ensures
            addr == self.raw_spec(),
    {
        self.raw
    }
}

} // verus!
