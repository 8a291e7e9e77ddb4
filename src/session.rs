use vstd::prelude::*;

use crate::error::{error_for_status, reportable_status, status_error, VorbisError};
use crate::packet::{decoded_prefix, keep_decoded};

verus! {

/// What one attempt to read from the caller's byte source gave.
#[derive(Debug)]
pub enum SourceRead {
    /// The source placed this many bytes.
    Filled(usize),
    /// The read was interrupted before any byte was placed.
    Interrupted,
    /// The read failed with a real I/O error.
    Failed(std::io::Error),
}

/// What one native decode round-trip amounts to.
#[derive(Debug)]
pub enum ReadOutcome {
    /// No more data: the stream has ended.
    End,
    /// The round-trip failed with this error.
    Failed(VorbisError),
    /// These samples were decoded.
    Decoded(Vec<i16>),
}

/// The byte count that the adapter hands back to the native engine for a
/// read attempt, or `None` where the attempt must be made again.
pub open spec fn source_read_result(ev: SourceRead) -> Option<usize> {
    match ev {
        SourceRead::Filled(n) => Some(n),
        SourceRead::Interrupted => None,
        SourceRead::Failed(_) => Some(0),
    }
}

/// The deferred-error slot after a read attempt: a failure is recorded in
/// it, anything else leaves it as it was.
pub open spec fn deferred_after(slot: Option<std::io::Error>, ev: SourceRead) -> Option<
    std::io::Error,
> {
    match ev {
        SourceRead::Failed(e) => Some(e),
        _ => slot,
    }
}

/// What a round-trip that read nothing means, given the deferred-error slot:
/// the recorded I/O failure if there is one, else the end of the stream.
pub open spec fn end_of_data(slot: Option<std::io::Error>) -> ReadOutcome {
    match slot {
        Some(e) => ReadOutcome::Failed(VorbisError::ReadError(e)),
        None => ReadOutcome::End,
    }
}

/// The state that a decoder session shares with its byte-source adapter:
/// the logical bitstream that produced the latest samples, and the I/O
/// failure that the adapter recorded and no round-trip has reported yet.
pub struct DecoderState {
    /// Index of the logical bitstream that the native engine read last.
    pub current_logical_bitstream: i32,
    /// The I/O failure that waits to be reported.
    pub read_error: Option<std::io::Error>,
}

impl DecoderState {
    /// The state of a freshly opened session: first bitstream, nothing pending.
    pub fn new() -> (s: DecoderState)
        ensures
            s.current_logical_bitstream == 0,
            s.read_error is None,
    {
        DecoderState { current_logical_bitstream: 0, read_error: None }
    }

    /// Settles one attempt to read from the byte source. Returns the byte
    /// count to hand to the native engine, or `None` where the read was
    /// interrupted and must be tried again. A real failure is recorded and
    /// reads as zero bytes, which the engine takes for the end of the data.
    pub fn on_source_read(&mut self, ev: SourceRead) -> (r: Option<usize>)
        ensures
            r == source_read_result(ev),
            final(self).read_error == deferred_after(old(self).read_error, ev),
            final(self).current_logical_bitstream == old(self).current_logical_bitstream,
    {
        match ev {
            SourceRead::Filled(n) => Some(n),
            SourceRead::Interrupted => None,
            SourceRead::Failed(e) => {
                self.read_error = Some(e);
                Some(0)
            },
        }
    }

    /// Interprets the status of one native decode round-trip into `buffer`.
    /// Zero is the end of the data, unless the adapter recorded an I/O
    /// failure, which is then reported (and cleared). A negative status is
    /// an error code of the engine. A positive one is a byte count: half as
    /// many samples of the buffer were filled.
    pub fn finish_read(&mut self, status: i64, buffer: Vec<i16>) -> (r: ReadOutcome)
        requires
            status < 0 ==> reportable_status(status as int),
        ensures
            status == 0 ==> r == end_of_data(old(self).read_error),
            status == 0 ==> final(self).read_error is None,
            status < 0 ==> r == ReadOutcome::Failed(status_error(status as int)),
            status > 0 ==> r is Decoded && r->Decoded_0@ == decoded_prefix(buffer@, status / 2),
            status != 0 ==> final(self).read_error == old(self).read_error,
            final(self).current_logical_bitstream == old(self).current_logical_bitstream,
    {
        if status == 0 {
            match self.read_error.take() {
                Some(e) => ReadOutcome::Failed(VorbisError::ReadError(e)),
                None => ReadOutcome::End,
            }
        } else if status < 0 {
            ReadOutcome::Failed(error_for_status(status as i32))
        } else {
            ReadOutcome::Decoded(keep_decoded(buffer, (status / 2) as u64))
        }
    }
}

/// A read failure of the byte source is never taken for the end of the
/// stream: once the adapter records it, the next round-trip that reads
/// nothing reports exactly that failure.
pub proof fn lemma_read_failure_surfaces(slot: Option<std::io::Error>, e: std::io::Error)
    ensures
        source_read_result(SourceRead::Failed(e)) == Some(0usize),
        end_of_data(deferred_after(slot, SourceRead::Failed(e))) == ReadOutcome::Failed(
            VorbisError::ReadError(e),
        ),
{
}

/// The deferred-error slot after a run of read attempts, in order.
pub open spec fn deferred_after_reads(slot: Option<std::io::Error>, evs: Seq<SourceRead>) -> Option<
    std::io::Error,
>
    decreases evs.len(),
{
    if evs.len() == 0 {
        slot
    } else {
        deferred_after_reads(deferred_after(slot, evs[0]), evs.drop_first())
    }
}

/// A recorded failure outlives any run of later reads that do not fail
/// (the engine may read again after taking the zero bytes for an end): the
/// round-trip that reads nothing still reports that very failure.
pub proof fn lemma_failure_outlives_clean_reads(e: std::io::Error, evs: Seq<SourceRead>)
    requires
        forall|i: int| 0 <= i < evs.len() ==> !(#[trigger] evs[i] is Failed),
    ensures
        deferred_after_reads(Some(e), evs) == Some(e),
        end_of_data(deferred_after_reads(Some(e), evs)) == ReadOutcome::Failed(
            VorbisError::ReadError(e),
        ),
    decreases evs.len(),
{
    if evs.len() > 0 {
        assert(!(evs[0] is Failed));
        let rest = evs.drop_first();
        assert forall|i: int| 0 <= i < rest.len() implies !(#[trigger] rest[i] is Failed) by {
            assert(rest[i] == evs[i + 1]);
        }
        lemma_failure_outlives_clean_reads(e, rest);
    }
}

/// An interrupted read is retried and changes nothing; a clean read leaves
/// the slot as it was, so a stream without failures ends cleanly.
pub proof fn lemma_clean_reads_end_cleanly(slot: Option<std::io::Error>, ev: SourceRead)
    requires
        !(ev is Failed),
    ensures
        deferred_after(slot, ev) == slot,
        ev is Interrupted ==> source_read_result(ev) is None,
        slot is None ==> end_of_data(deferred_after(slot, ev)) == ReadOutcome::End,
{
}

} // verus!
