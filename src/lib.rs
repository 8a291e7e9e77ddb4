//! A streaming front-end for the Vorbis codec: the error taxonomy of the
//! native engine, the decisions of a decoder session and of its byte-source
//! adapter, the quality levels of the encoder, and the decisions of an
//! encoder session.

mod adapter;
mod encoder;
mod error;
mod packet;
mod quality;
mod session;

pub use adapter::{
    is_seek_origin, seek_request, seek_status, tell_status, SeekRequest, SEEK_CUR, SEEK_END,
    SEEK_SET, SOURCE_FAILURE,
};
pub use encoder::{call_result, failure_status, EncoderSession, EncoderStage};
pub use error::{
    check_errors, error_for_status, is_reportable_status, reportable_status, status_error,
    status_result, VorbisError, OV_EBADHEADER, OV_EFAULT, OV_EIMPL, OV_EINVAL, OV_ENOTVORBIS,
    OV_EREAD, OV_EVERSION, OV_HOLE,
};
pub use packet::{
    chained_decode, channel_sequence, decoded_prefix, lemma_channel_change_marks_new_stream,
    lemma_channel_runs_count_streams, lemma_one_stream_one_format, reported_bitrate, run_count,
    scratch_buffer, Packet, StreamInfo, PACKET_CAPACITY,
};
pub use quality::{lemma_quality_monotonic, VorbisQuality};
pub use session::{
    deferred_after, deferred_after_reads, end_of_data, lemma_clean_reads_end_cleanly,
    lemma_failure_outlives_clean_reads, lemma_read_failure_surfaces, source_read_result, DecoderState, ReadOutcome, SourceRead,
};
