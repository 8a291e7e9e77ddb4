use vstd::prelude::*;

verus! {

/// Seek origin code of the native engine: from the start of the source.
pub const SEEK_SET: i32 = 0;

/// Seek origin code of the native engine: from the current position.
pub const SEEK_CUR: i32 = 1;

/// Seek origin code of the native engine: from the end of the source.
pub const SEEK_END: i32 = 2;

/// Status the adapter returns to the native engine for a seek that failed,
/// and for a position it cannot tell.
pub const SOURCE_FAILURE: i32 = -1;

/// A seek that the adapter asks of the caller's byte source.
#[derive(Clone, Copy, Debug, PartialEq, Eq)]
pub enum SeekRequest {
    /// To this absolute offset.
    Start(u64),
    /// By this many bytes from the current position.
    Current(i64),
    /// By this many bytes from the end.
    End(i64),
}

/// Whether a code is one of the three seek origins of the native engine.
pub open spec fn is_seek_origin(whence: i32) -> bool {
    whence == SEEK_SET || whence == SEEK_CUR || whence == SEEK_END
}

/// Translates a seek of the native engine into a seek of the byte source.
/// An absolute offset is taken as unsigned, as a machine cast does.
pub fn seek_request(offset: i64, whence: i32) -> (r: SeekRequest)
    requires
        is_seek_origin(whence),
    ensures
        whence == SEEK_SET ==> r == SeekRequest::Start(offset as u64),
        whence == SEEK_CUR ==> r == SeekRequest::Current(offset),
        whence == SEEK_END ==> r == SeekRequest::End(offset),
{
    if whence == SEEK_SET {
        SeekRequest::Start(#[verifier::truncate] (offset as u64))
    } else if whence == SEEK_CUR {
        SeekRequest::Current(offset)
    } else {
        SeekRequest::End(offset)
    }
}

/// The status of a seek for the native engine: zero on success, the
/// failure sentinel whatever the cause of an error.
pub fn seek_status(moved: &Result<u64, std::io::Error>) -> (r: i32)
    ensures
        moved is Ok ==> r == 0,
        moved is Err ==> r == SOURCE_FAILURE,
{
    match moved {
        Ok(_) => 0,
        Err(_) => SOURCE_FAILURE,
    }
}

/// The position to tell the native engine: the source's offset taken as
/// signed, as a machine cast does, or the failure sentinel.
pub fn tell_status(position: &Result<u64, std::io::Error>) -> (r: i64)
    ensures
        position is Ok ==> r == position->Ok_0 as i64,
        position is Err ==> r == SOURCE_FAILURE,
{
    match position {
        Ok(p) => #[verifier::truncate] (*p as i64),
        Err(_) => SOURCE_FAILURE as i64,
    }
}

} // verus!
