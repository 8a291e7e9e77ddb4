use vstd::prelude::*;

use crate::error::{error_for_status, reportable_status, status_error, VorbisError};

verus! {

/// Where an encoder session stands in its life.
#[derive(Clone, Copy, Debug, PartialEq, Eq, Structural)]
pub enum EncoderStage {
    /// Header pages are out, no sample has been submitted.
    Fresh,
    /// Samples have been submitted.
    Active,
    /// The end of the stream has been signalled.
    Flushed,
}

/// Whether a native status may stand in the error of a native call: a
/// reportable code, and not the success code.
pub open spec fn failure_status(code: int) -> bool {
    code != 0 && reportable_status(code)
}

/// What a native encoder call amounts to: its bytes as they are, or the
/// error that its status stands for.
pub open spec fn call_result(native: Result<Vec<u8>, i32>) -> Result<Vec<u8>, VorbisError> {
    match native {
        Ok(bytes) => Ok(bytes),
        Err(code) => Err(status_error(code as int)),
    }
}

fn map_call(native: Result<Vec<u8>, i32>) -> (r: Result<Vec<u8>, VorbisError>)
    requires
        native is Err ==> failure_status(native->Err_0 as int),
    ensures
        r == call_result(native),
{
    match native {
        Ok(bytes) => Ok(bytes),
        Err(code) => Err(error_for_status(code)),
    }
}

/// The decisions of an encoder session. The native engine that synthesises
/// headers, analyses blocks and frames pages is driven by the caller, who
/// hands each of its results to the session: the session maps native
/// statuses to errors and tracks the stage, from fresh (headers out) through
/// active (samples submitted) to flushed (end of stream signalled).
pub struct EncoderSession {
    stage: EncoderStage,
}

impl View for EncoderSession {
    type V = EncoderStage;

    closed spec fn view(&self) -> EncoderStage {
        self.stage
    }
}

impl EncoderSession {
    /// Opens a session on the outcome of the native setup (made from a
    /// channel count, a rate and a quality target). A native engine, whose
    /// header pages wait in its buffer, gives a fresh session beside it; a
    /// setup status gives the error it stands for.
    pub fn open<N>(native: Result<N, i32>) -> (r: Result<(N, EncoderSession), VorbisError>)
        requires
            native is Err ==> failure_status(native->Err_0 as int),
        ensures
            r is Ok <==> native is Ok,
            r is Ok ==> r->Ok_0.0 == native->Ok_0 && r->Ok_0.1@ == EncoderStage::Fresh,
            native is Err ==> r == Err::<(N, EncoderSession), VorbisError>(
                status_error(native->Err_0 as int),
            ),
    {
        match native {
            Ok(engine) => Ok((engine, EncoderSession { stage: EncoderStage::Fresh })),
            Err(code) => Err(error_for_status(code)),
        }
    }

    /// Takes the result of submitting a batch of interleaved samples: the
    /// bytes of the pages completed so far, or the native status. The
    /// session is active from then on.
    pub fn after_encode(&mut self, native: Result<Vec<u8>, i32>) -> (r: Result<
        Vec<u8>,
        VorbisError,
    >)
        requires
            native is Err ==> failure_status(native->Err_0 as int),
        ensures
            r == call_result(native),
            final(self)@ == EncoderStage::Active,
    {
        self.stage = EncoderStage::Active;
        map_call(native)
    }

    /// Takes the result of signalling the end of the stream: the bytes of
    /// the last pages, the end-of-stream page among them, or the native
    /// status. The session is flushed from then on.
    pub fn after_flush(&mut self, native: Result<Vec<u8>, i32>) -> (r: Result<
        Vec<u8>,
        VorbisError,
    >)
        requires
            native is Err ==> failure_status(native->Err_0 as int),
        ensures
            r == call_result(native),
            final(self)@ == EncoderStage::Flushed,
    {
        self.stage = EncoderStage::Flushed;
        map_call(native)
    }

    /// Where the session stands.
    pub fn stage(&self) -> (r: EncoderStage)
        ensures
            r == self@,
    {
        self.stage
    }
}

} // verus!
