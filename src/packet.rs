use vstd::prelude::*;

verus! {

/// Number of sample slots that one native decode round-trip may fill.
pub const PACKET_CAPACITY: usize = 2048;

/// Packet of data.
///
/// Each sample is an `i16` ranging from `i16::MIN` to `i16::MAX`.
///
/// The channels are interleaved in the data. For example if you have two
/// channels, you get a sample from channel 1, then a sample from channel 2,
/// then a sample from channel 1, etc.
#[derive(Clone, Debug)]
pub struct Packet {
    pub data: Vec<i16>,
    pub channels: u16,
    pub rate: u64,
    pub bitrate_upper: u64,
    pub bitrate_nominal: u64,
    pub bitrate_lower: u64,
    pub bitrate_window: u64,
}

/// The stream info of one logical bitstream, as the native engine reports
/// it: its channel count, its sample rate in Hz, and its four bitrate
/// descriptors (zero or negative where the stream declares none).
#[derive(Clone, Copy, Debug, PartialEq, Eq)]
pub struct StreamInfo {
    pub channels: i32,
    pub rate: i64,
    pub bitrate_upper: i64,
    pub bitrate_nominal: i64,
    pub bitrate_lower: i64,
    pub bitrate_window: i64,
}

/// The first `n` samples of a decode buffer, or all of them if it holds fewer.
pub open spec fn decoded_prefix(buffer: Seq<i16>, n: int) -> Seq<i16> {
    if n < buffer.len() {
        buffer.take(n)
    } else {
        buffer
    }
}

/// A bitrate descriptor as a packet reports it: the declared value where the
/// stream declares one (a positive value), zero where it does not.
pub open spec fn reported_bitrate(declared: i64) -> u64 {
    if declared > 0 {
        declared as u64
    } else {
        0
    }
}

fn report_bitrate(declared: i64) -> (r: u64)
    ensures
        r == reported_bitrate(declared),
{
    if declared > 0 {
        declared as u64
    } else {
        0
    }
}

impl Packet {
    /// Whether the stream fields of this packet are those of `info`: the
    /// channel count and rate taken into their fields as a machine cast does,
    /// each bitrate as declared, or zero where the stream declares none.
    pub open spec fn carries(&self, info: StreamInfo) -> bool {
        &&& self.channels == info.channels as u16
        &&& self.rate == info.rate as u64
        &&& self.bitrate_upper == reported_bitrate(info.bitrate_upper)
        &&& self.bitrate_nominal == reported_bitrate(info.bitrate_nominal)
        &&& self.bitrate_lower == reported_bitrate(info.bitrate_lower)
        &&& self.bitrate_window == reported_bitrate(info.bitrate_window)
    }

    /// A packet of the decoded samples `data`, paired with the stream info
    /// of the logical bitstream that produced them.
    pub fn from_info(data: Vec<i16>, info: &StreamInfo) -> (p: Packet)
        ensures
            p.data@ == data@,
            p.carries(*info),
    {
        Packet {
            data,
            channels: #[verifier::truncate] (info.channels as u16),
            rate: #[verifier::truncate] (info.rate as u64),
            bitrate_upper: report_bitrate(info.bitrate_upper),
            bitrate_nominal: report_bitrate(info.bitrate_nominal),
            bitrate_lower: report_bitrate(info.bitrate_lower),
            bitrate_window: report_bitrate(info.bitrate_window),
        }
    }
}

/// Packets that carry the stream info of one logical bitstream agree on their
/// channel count, their rate and their four bitrates: these fields can vary
/// only where the stream info does, at a logical-bitstream boundary.
pub proof fn lemma_one_stream_one_format(p: Packet, q: Packet, info: StreamInfo)
    requires
        p.carries(info),
        q.carries(info),
    ensures
        p.channels == q.channels,
        p.rate == q.rate,
        p.bitrate_upper == q.bitrate_upper,
        p.bitrate_nominal == q.bitrate_nominal,
        p.bitrate_lower == q.bitrate_lower,
        p.bitrate_window == q.bitrate_window,
{
}

/// A change of channel count between two packets always marks a change of
/// stream info: packets whose channel counts differ come from streams whose
/// declared channel counts differ.
pub proof fn lemma_channel_change_marks_new_stream(
    p: Packet,
    q: Packet,
    a: StreamInfo,
    b: StreamInfo,
)
    requires
        p.carries(a),
        q.carries(b),
        p.channels != q.channels,
    ensures
        a.channels != b.channels,
        a != b,
{
}

/// The number of maximal runs of equal values in `s`.
pub open spec fn run_count(s: Seq<u16>) -> nat
    decreases s.len(),
{
    if s.len() == 0 {
        0
    } else if s.len() == 1 {
        1
    } else {
        run_count(s.drop_last()) + if s[s.len() - 1] != s[s.len() - 2] {
            1nat
        } else {
            0nat
        }
    }
}

/// The channel counts of a sequence of packets, in order.
pub open spec fn channel_sequence(packets: Seq<Packet>) -> Seq<u16> {
    packets.map_values(|p: Packet| p.channels)
}

/// Whether `packets` are what a decoder yields from a chained stream whose
/// logical bitstreams have the stream infos `infos`, in order: packet `i`
/// comes from bitstream `links[i]` and carries its info, the first packet
/// comes from the first bitstream and the last from the last, and the
/// bitstreams follow one another without one being skipped (each holds
/// audio). Each bitstream declares between 1 and 255 channels, and
/// adjacent bitstreams declare different channel counts.
pub open spec fn chained_decode(packets: Seq<Packet>, links: Seq<int>, infos: Seq<StreamInfo>) -> bool {
    &&& packets.len() > 0
    &&& links.len() == packets.len()
    &&& links[0] == 0
    &&& links[links.len() - 1] == infos.len() - 1
    &&& forall|i: int|
        0 <= i < links.len() ==> 0 <= #[trigger] links[i] < infos.len() && packets[i].carries(
            infos[links[i]],
        )
    &&& forall|i: int|
        0 < i < links.len() ==> #[trigger] links[i] == links[i - 1] || links[i] == links[i - 1]
            + 1
    &&& forall|j: int| 0 <= j < infos.len() ==> 0 < #[trigger] infos[j].channels <= 255
    &&& forall|j: int|
        0 < j < infos.len() ==> infos[j - 1].channels != #[trigger] infos[j].channels
}

proof fn lemma_prefix_runs(packets: Seq<Packet>, links: Seq<int>, infos: Seq<StreamInfo>, k: int)
    requires
        chained_decode(packets, links, infos),
        1 <= k <= packets.len(),
    ensures
        run_count(channel_sequence(packets.take(k))) == links[k - 1] + 1,
    decreases k,
{
    let s = channel_sequence(packets.take(k));
    if k > 1 {
        lemma_prefix_runs(packets, links, infos, k - 1);
        assert(s.drop_last() =~= channel_sequence(packets.take(k - 1)));
        let a = links[k - 2];
        let b = links[k - 1];
        assert(b == a || b == a + 1);
        assert(packets[k - 2].carries(infos[a]));
        assert(packets[k - 1].carries(infos[b]));
        assert(s[k - 1] == packets[k - 1].channels);
        assert(s[k - 2] == packets[k - 2].channels);
        if b == a + 1 {
            let x = infos[a].channels;
            let y = infos[b].channels;
            assert(0 < x <= 255 && 0 < y <= 255 && x != y);
            assert(x as u16 != y as u16) by (bit_vector)
                requires
                    0 < x <= 255,
                    0 < y <= 255,
                    x != y,
            ;
        }
    }
}

/// Segmenting the packets of a chained stream by changes of channel count
/// gives exactly one run per logical bitstream, in order: the packets up to
/// and including packet `i` span `links[i] + 1` runs, so packet `i` lies in
/// the run of its own bitstream, and the whole sequence spans as many runs
/// as the stream has logical bitstreams.
pub proof fn lemma_channel_runs_count_streams(
    packets: Seq<Packet>,
    links: Seq<int>,
    infos: Seq<StreamInfo>,
)
    requires
        chained_decode(packets, links, infos),
    ensures
        forall|i: int|
            0 <= i < packets.len() ==> run_count(channel_sequence(#[trigger] packets.take(i + 1)))
                == links[i] + 1,
        run_count(channel_sequence(packets)) == infos.len(),
{
    assert forall|i: int| 0 <= i < packets.len() implies run_count(
        channel_sequence(#[trigger] packets.take(i + 1)),
    ) == links[i] + 1 by {
        lemma_prefix_runs(packets, links, infos, i + 1);
    }
    lemma_prefix_runs(packets, links, infos, packets.len() as int);
    assert(packets.take(packets.len() as int) =~= packets);
}

/// A zeroed scratch buffer for one decode round-trip.
pub fn scratch_buffer() -> (r: Vec<i16>)
    ensures
        r.len() == PACKET_CAPACITY,
        forall|i: int| 0 <= i < r.len() ==> r@[i] == 0,
{
    let mut r: Vec<i16> = Vec::with_capacity(PACKET_CAPACITY);
    let mut k: usize = 0;
    while k < PACKET_CAPACITY
        invariant
            k <= PACKET_CAPACITY,
            r.len() == k,
            forall|i: int| 0 <= i < r.len() ==> r@[i] == 0,
        decreases PACKET_CAPACITY - k,
    {
        r.push(0);
        k = k + 1;
    }
    r
}

/// Keeps the samples that a decode round-trip filled: the first `samples`
/// slots of the scratch buffer.
pub fn keep_decoded(buffer: Vec<i16>, samples: u64) -> (r: Vec<i16>)
    ensures
        r@ == decoded_prefix(buffer@, samples as int),
{
    let mut buffer = buffer;
    if samples < buffer.len() as u64 {
        buffer.truncate(samples as usize);
    }
    buffer
}

} // verus!
