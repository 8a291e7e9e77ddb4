use vstd::prelude::*;

verus! {

/// The native engine found a hole in the data: decoding can go on.
pub const OV_HOLE: i32 = -3;

/// The native engine failed to read from its source.
pub const OV_EREAD: i32 = -128;

/// The native engine found its own state broken.
pub const OV_EFAULT: i32 = -129;

/// The native engine cannot comply with the requested mode or quality.
pub const OV_EIMPL: i32 = -130;

/// An invalid request or argument, or corrupt initial headers.
pub const OV_EINVAL: i32 = -131;

/// The bitstream holds no Vorbis data.
pub const OV_ENOTVORBIS: i32 = -132;

/// A Vorbis header is invalid.
pub const OV_EBADHEADER: i32 = -133;

/// The Vorbis version of the stream is not supported.
pub const OV_EVERSION: i32 = -134;

#[verifier::external_type_specification]
#[verifier::external_body]
pub struct ExIoError(std::io::Error);

/// Errors that can happen while decoding and encoding.
#[derive(Debug)]
pub enum VorbisError {
    /// A read from the byte source failed.
    ReadError(std::io::Error),
    NotVorbis,
    VersionMismatch,
    BadHeader,
    Hole,
    /// An invalid setup request, e.g. an out-of-range argument.
    InvalidSetup,
    /// An unimplemented mode: the quality level cannot be met.
    Unimplemented,
}

/// The status codes that stand for a condition a caller can act on: success,
/// and each code of the table that maps to an error value. The others (a read
/// failure inside the engine, an internal fault, any unknown code) signal a
/// broken invariant and are not reportable.
pub open spec fn reportable_status(code: int) -> bool {
    ||| code == 0
    ||| code == OV_ENOTVORBIS
    ||| code == OV_EVERSION
    ||| code == OV_EBADHEADER
    ||| code == OV_EINVAL
    ||| code == OV_HOLE
    ||| code == OV_EIMPL
}

/// The error that a reportable, nonzero status code stands for.
pub open spec fn status_error(code: int) -> VorbisError
    recommends
        reportable_status(code),
        code != 0,
{
    if code == OV_ENOTVORBIS {
        VorbisError::NotVorbis
    } else if code == OV_EVERSION {
        VorbisError::VersionMismatch
    } else if code == OV_EBADHEADER {
        VorbisError::BadHeader
    } else if code == OV_EINVAL {
        VorbisError::InvalidSetup
    } else if code == OV_HOLE {
        VorbisError::Hole
    } else {
        VorbisError::Unimplemented
    }
}

/// What a reportable status code means: success for zero, else its error.
pub open spec fn status_result(code: int) -> Result<(), VorbisError> {
    if code == 0 {
        Ok(())
    } else {
        Err(status_error(code))
    }
}

/// Whether a status code of the native engine can be reported as a value.
/// Callers that hold a code from the engine test it with this before
/// mapping it, and abort on the others.
pub fn is_reportable_status(code: i32) -> (r: bool)
    ensures
        r == reportable_status(code as int),
{
    code == 0 || code == OV_ENOTVORBIS || code == OV_EVERSION || code == OV_EBADHEADER
        || code == OV_EINVAL || code == OV_HOLE || code == OV_EIMPL
}

/// The error value of a reportable, nonzero status code.
pub fn error_for_status(code: i32) -> (e: VorbisError)
    requires
        reportable_status(code as int),
        code != 0,
    ensures
        e == status_error(code as int),
{
    if code == OV_ENOTVORBIS {
        VorbisError::NotVorbis
    } else if code == OV_EVERSION {
        VorbisError::VersionMismatch
    } else if code == OV_EBADHEADER {
        VorbisError::BadHeader
    } else if code == OV_EINVAL {
        VorbisError::InvalidSetup
    } else if code == OV_HOLE {
        VorbisError::Hole
    } else {
        VorbisError::Unimplemented
    }
}

/// Maps a status code of the native engine to success or to an error value.
pub fn check_errors(code: i32) -> (r: Result<(), VorbisError>)
    requires
        reportable_status(code as int),
    ensures
        r == status_result(code as int),
{
    if code == 0 {
        Ok(())
    } else {
        Err(error_for_status(code))
    }
}

impl VorbisError {
    /// The text that describes this error.
    pub open spec fn spec_description(&self) -> Seq<char> {
        match self {
            VorbisError::ReadError(_) => "A read from media returned an error"@,
            VorbisError::NotVorbis => "Bitstream does not contain any Vorbis data"@,
            VorbisError::VersionMismatch => "Vorbis version mismatch"@,
            VorbisError::BadHeader => "Invalid Vorbis bitstream header"@,
            VorbisError::InvalidSetup =>
                "Invalid setup request, eg, out of range argument or initial file headers are corrupt"@,
            VorbisError::Hole => "Interruption of data"@,
            VorbisError::Unimplemented =>
                "Unimplemented mode; unable to comply with quality level request."@,
        }
    }

    /// A sentence that describes the error, for display.
    pub fn description(&self) -> (r: &'static str)
        ensures
            r@ == self.spec_description(),
    {
        match self {
            VorbisError::ReadError(_) => "A read from media returned an error",
            VorbisError::NotVorbis => "Bitstream does not contain any Vorbis data",
            VorbisError::VersionMismatch => "Vorbis version mismatch",
            VorbisError::BadHeader => "Invalid Vorbis bitstream header",
            VorbisError::InvalidSetup =>
                "Invalid setup request, eg, out of range argument or initial file headers are corrupt",
            VorbisError::Hole => "Interruption of data",
            VorbisError::Unimplemented =>
                "Unimplemented mode; unable to comply with quality level request.",
        }
    }

    /// The underlying I/O error of a read failure; no other error has a cause.
    pub fn source(&self) -> (r: Option<&std::io::Error>)
        ensures
            self is ReadError ==> r == Some(&self->ReadError_0),
            !(self is ReadError) ==> r is None,
    {
        match self {
            VorbisError::ReadError(err) => Some(err),
            _ => None,
        }
    }
}

impl From<std::io::Error> for VorbisError {
    fn from(err: std::io::Error) -> (r: VorbisError) {
        VorbisError::ReadError(err)
    }
}

impl vstd::std_specs::convert::FromSpecImpl<std::io::Error> for VorbisError {
    open spec fn obeys_from_spec() -> bool {
        true
    }

    open spec fn from_spec(err: std::io::Error) -> VorbisError {
        VorbisError::ReadError(err)
    }
}

} // verus!
