//! The wire-format encoders: pure functions turning a sequence of metric
//! records into framed byte packets, in one of three formats. Records are
//! grouped into packets of at most fourteen records for StatsD and pickled
//! Graphite, and one record per packet for plaintext Graphite; chunking
//! preserves input order and the last chunk may be shorter.

use vstd::prelude::*;
use vstd::string::StrSliceExecFns;
use vstd::string::StringExecFns;
use vstd::utf8::encode_utf8;

use crate::metric::gauge::gauge_chars;
use crate::metric::{path_chars, MetricData, MetricDataView, MetricType};
use crate::render::{dec_chars, decimal_string};

verus! {

/// The wire protocol spoken to the collector.
#[derive(Debug, Clone, Copy, PartialEq, Eq, Structural)]
pub enum Protocol {
    StatsD,
    Graphite(Compression),
}

/// The network transport a packet travels over.
#[derive(Debug, Clone, Copy, PartialEq, Eq, Structural)]
pub enum NetworkProtocol {
    UDP,
    TCP,
}

/// How Graphite packets are encoded: pickled tuples or plain text.
#[derive(Debug, Clone, Copy, PartialEq, Eq, Structural)]
pub enum Compression {
    Pickled,
    Uncompressed,
}

/// The rendering of a record's value: the plain decimal count or elapsed
/// time, or the signed gauge rendering.
pub open spec fn value_chars(m: MetricType) -> Seq<char> {
    match m {
        MetricType::Counter(count) => dec_chars(count as int),
        MetricType::Timer(elapsed) => dec_chars(elapsed as int),
        MetricType::Gauge(gauge) => gauge_chars(gauge),
    }
}

/// The StatsD type tag of a record's value: `c`, `ms` or `g`.
pub open spec fn type_tag_chars(m: MetricType) -> Seq<char> {
    match m {
        MetricType::Counter(_) => seq!['c'],
        MetricType::Timer(_) => seq!['m', 's'],
        MetricType::Gauge(_) => seq!['g'],
    }
}

/// One StatsD record line, newline-terminated: `path:value|type\n`.
pub open spec fn statsd_record_chars(m: MetricDataView) -> Seq<char> {
    path_chars(m) + seq![':'] + value_chars(m.metric) + seq!['|'] + type_tag_chars(m.metric)
        + seq!['\n']
}

/// The UTF-8 bytes of one newline-terminated StatsD record line.
pub open spec fn statsd_record_bytes(m: MetricDataView) -> Seq<u8> {
    encode_utf8(statsd_record_chars(m))
}

/// The concatenated newline-terminated StatsD lines of a chunk.
pub open spec fn statsd_concat_bytes(ms: Seq<MetricDataView>) -> Seq<u8>
    decreases ms.len(),
{
    if ms.len() == 0 {
        Seq::<u8>::empty()
    } else {
        statsd_concat_bytes(ms.drop_last()) + statsd_record_bytes(ms.last())
    }
}

/// A StatsD packet: the chunk's record lines joined by newlines, with no
/// trailing newline (the final byte of the concatenation is removed).
pub open spec fn statsd_packet_bytes(ms: Seq<MetricDataView>) -> Seq<u8> {
    let joined = statsd_concat_bytes(ms);
    if joined.len() == 0 {
        joined
    } else {
        joined.take(joined.len() - 1)
    }
}

/// One plaintext Graphite record: `path value occurred`, space-separated,
/// with no trailing newline.
pub open spec fn graphite_record_chars(m: MetricDataView) -> Seq<char> {
    path_chars(m) + seq![' '] + value_chars(m.metric) + seq![' '] + dec_chars(m.occurred as int)
}

/// The UTF-8 bytes of one plaintext Graphite record.
pub open spec fn graphite_record_bytes(m: MetricDataView) -> Seq<u8> {
    encode_utf8(graphite_record_chars(m))
}

/// A plaintext Graphite packet: the chunk's records concatenated with no
/// separator (chunks hold a single record, so none is needed).
pub open spec fn graphite_packet_bytes(ms: Seq<MetricDataView>) -> Seq<u8>
    decreases ms.len(),
{
    if ms.len() == 0 {
        Seq::<u8>::empty()
    } else {
        graphite_packet_bytes(ms.drop_last()) + graphite_record_bytes(ms.last())
    }
}

/// The pickled form of one record: `(path, (value, occurred))`, every part
/// rendered as text.
pub open spec fn pickle_entry(m: MetricDataView) -> (Seq<char>, (Seq<char>, Seq<char>)) {
    (path_chars(m), (value_chars(m.metric), dec_chars(m.occurred as int)))
}

/// The pickled entries of a chunk, in input order.
pub open spec fn pickle_entries(ms: Seq<MetricDataView>) -> Seq<
    (Seq<char>, (Seq<char>, Seq<char>)),
>
    decreases ms.len(),
{
    if ms.len() == 0 {
        Seq::empty()
    } else {
        pickle_entries(ms.drop_last()).push(pickle_entry(ms.last()))
    }
}

/// The character-level value of a built list of pickled entries.
pub open spec fn entries_view(ts: Seq<(String, (String, String))>) -> Seq<
    (Seq<char>, (Seq<char>, Seq<char>)),
>
    decreases ts.len(),
{
    if ts.len() == 0 {
        Seq::empty()
    } else {
        entries_view(ts.drop_last()).push(
            (ts.last().0@, (ts.last().1.0@, ts.last().1.1@)),
        )
    }
}

/// The byte payload that pickling a list of entries produces, protocol
/// version 3. The encoding takes pages to state, but it is a function of
/// the entries alone, so it only carries this name.
pub uninterp spec fn pickle_of(entries: Seq<(Seq<char>, (Seq<char>, Seq<char>))>) -> Seq<u8>;

/// Relies on `serde_pickle::ser::to_vec` with its default options: the
/// pickle-protocol-3 serialization of the record list, a deterministic
/// function of the records alone, named [`pickle_of`]. On a list of string
/// tuples the call cannot fail: it serializes into a byte vector, whose
/// writes never error, and the serializer constructs no error of its own
/// for lists, tuples or strings, so the empty fallback is never taken.
#[verifier::external_body]
fn pickle_records(records: &Vec<(String, (String, String))>) -> (r: Vec<u8>)
    ensures
        r@ == pickle_of(entries_view(records@)),
{
    serde_pickle::ser::to_vec(records, serde_pickle::SerOptions::new()).unwrap_or(Vec::new())
}

/// The length header value of a pickled packet: the payload's byte length,
/// reduced to 32 bits.
pub open spec fn payload_size(len: int) -> u32 {
    (len % 0x1_0000_0000) as u32
}

/// The four big-endian bytes of a 32-bit length header.
pub open spec fn spec_be32(v: u32) -> Seq<u8> {
    seq![
        (v / 0x1000000) as u8,
        ((v / 0x10000) % 0x100) as u8,
        ((v / 0x100) % 0x100) as u8,
        (v % 0x100) as u8,
    ]
}

/// The big-endian value of four header bytes.
pub open spec fn be32_value(b: Seq<u8>) -> int {
    b[0] * 0x1000000 + b[1] * 0x10000 + b[2] * 0x100 + b[3]
}

/// Relies on `byteorder::BigEndian::write_u32`: the four bytes of `v`,
/// most significant first.
#[verifier::external_body]
fn be32_bytes(v: u32) -> (r: Vec<u8>)
    ensures
        r@ == spec_be32(v),
{
    let mut buf = [0u8; 4];
    <byteorder::BigEndian as byteorder::ByteOrder>::write_u32(&mut buf, v);
    buf.to_vec()
}

/// A length-framed byte packet: a four-byte big-endian header holding the
/// payload's byte length, then the payload.
pub open spec fn framed_bytes(payload: Seq<u8>) -> Seq<u8> {
    spec_be32(payload_size(payload.len() as int)) + payload
}

/// A pickled Graphite packet for a chunk: the framed pickling of its
/// entries.
pub open spec fn pickled_packet_bytes(ms: Seq<MetricDataView>) -> Seq<u8> {
    framed_bytes(pickle_of(pickle_entries(ms)))
}

/// Reading the header of a framed packet gives back the payload's length,
/// whenever that length fits the 32-bit header.
pub proof fn lemma_framed_header(payload: Seq<u8>)
    requires
        payload.len() < 0x1_0000_0000,
    ensures
        framed_bytes(payload).len() == payload.len() + 4,
        be32_value(framed_bytes(payload).take(4)) == payload.len(),
        framed_bytes(payload).skip(4) == payload,
{
    let v = payload_size(payload.len() as int);
    assert(v == payload.len());
    assert(framed_bytes(payload).take(4) =~= spec_be32(v));
    assert(framed_bytes(payload).skip(4) =~= payload);
    assert(be32_value(spec_be32(v)) == v) by {
        lemma_be32_value(v);
    }
}

/// The four big-endian header bytes decode to the value they were written
/// from.
pub proof fn lemma_be32_value(v: u32)
    ensures
        spec_be32(v).len() == 4,
        be32_value(spec_be32(v)) == v,
{
}

/// Every pickled packet whose payload fits the 32-bit header carries, in
/// its first four bytes, the big-endian byte length of the remaining
/// payload. Nothing bounds the pickling of arbitrary entries, so the
/// bound stands as a hypothesis; a payload beyond it has its length
/// reduced modulo the header's range instead.
pub proof fn lemma_pickled_header(ms: Seq<MetricDataView>)
    requires
        pickle_of(pickle_entries(ms)).len() < 0x1_0000_0000,
    ensures
        pickled_packet_bytes(ms).len() == pickle_of(pickle_entries(ms)).len() + 4,
        be32_value(pickled_packet_bytes(ms).take(4)) == pickled_packet_bytes(ms).len() - 4,
        pickled_packet_bytes(ms).skip(4) == pickle_of(pickle_entries(ms)),
{
    lemma_framed_header(pickle_of(pickle_entries(ms)));
}

impl Protocol {
    /// The most records one packet of this protocol may carry.
    pub open spec fn chunk_limit(self) -> int {
        match self {
            Protocol::StatsD => 14,
            Protocol::Graphite(Compression::Uncompressed) => 1,
            Protocol::Graphite(Compression::Pickled) => 14,
        }
    }

    /// What a single packet of this protocol holds for one chunk of
    /// records.
    pub open spec fn packet_ok(self, ms: Seq<MetricDataView>, packet: Seq<u8>) -> bool {
        match self {
            Protocol::StatsD => packet == statsd_packet_bytes(ms),
            Protocol::Graphite(Compression::Uncompressed) => packet == graphite_packet_bytes(ms),
            Protocol::Graphite(Compression::Pickled) => packet == pickled_packet_bytes(ms),
        }
    }

    /// Renders one record as a newline-terminated StatsD line.
    pub fn serialized_statsd_record(metric: MetricData) -> (r: Vec<u8>)
        ensures
            r@ == statsd_record_bytes(metric@),
    {
        proof {
            reveal_strlit(":");
            reveal_strlit("|");
            reveal_strlit("c");
            reveal_strlit("ms");
            reveal_strlit("g");
            reveal_strlit("\n");
        }
        let mut s = metric.path();
        s.append(":");
        let (value, tag): (String, &'static str) = match metric.metric() {
            MetricType::Counter(count) => (decimal_string(*count as u128), "c"),
            MetricType::Timer(elapsed) => (decimal_string(*elapsed), "ms"),
            MetricType::Gauge(gauge) => (gauge.render(), "g"),
        };
        s.append(value.as_str());
        s.append("|");
        s.append(tag);
        s.append("\n");
        proof {
            assert(s@ =~= statsd_record_chars(metric@));
        }
        s.as_str().as_bytes_vec()
    }

    /// Encodes one chunk as a StatsD packet: the records' lines joined by
    /// newlines, with the trailing newline removed.
    pub fn serialize_statsd(metrics: Vec<MetricData>) -> (r: Vec<u8>)
        ensures
            r@ == statsd_packet_bytes(metrics.deep_view()),
    {
        let ghost v = metrics.deep_view();
        let mut data: Vec<u8> = Vec::new();
        let mut i: usize = 0;
        while i < metrics.len()
            invariant
                i <= metrics.len(),
                v == metrics.deep_view(),
                data@ == statsd_concat_bytes(v.take(i as int)),
            decreases metrics.len() - i,
        {
            let mut line = Protocol::serialized_statsd_record(metrics[i].clone());
            data.append(&mut line);
            proof {
                assert(v.take(i + 1).drop_last() =~= v.take(i as int));
                assert(v.take(i + 1).last() == v[i as int]);
            }
            i += 1;
        }
        proof {
            assert(v.take(v.len() as int) =~= v);
        }
        let _trailing_newline = data.pop();
        data
    }

    /// Renders one record as a plaintext Graphite line.
    pub fn serialized_graphite_record(metric: MetricData) -> (r: Vec<u8>)
        ensures
            r@ == graphite_record_bytes(metric@),
    {
        proof {
            reveal_strlit(" ");
        }
        let occurred = metric.occurred();
        let mut s = metric.path();
        s.append(" ");
        let value: String = match metric.metric() {
            MetricType::Counter(count) => decimal_string(*count as u128),
            MetricType::Timer(elapsed) => decimal_string(*elapsed),
            MetricType::Gauge(gauge) => gauge.render(),
        };
        s.append(value.as_str());
        s.append(" ");
        s.append(decimal_string(occurred as u128).as_str());
        proof {
            assert(s@ =~= graphite_record_chars(metric@));
        }
        s.as_str().as_bytes_vec()
    }

    /// Encodes one chunk as a plaintext Graphite packet.
    pub fn serialize_graphite_uncompressed(metrics: Vec<MetricData>) -> (r: Vec<u8>)
        ensures
            r@ == graphite_packet_bytes(metrics.deep_view()),
    {
        let ghost v = metrics.deep_view();
        let mut data: Vec<u8> = Vec::new();
        let mut i: usize = 0;
        while i < metrics.len()
            invariant
                i <= metrics.len(),
                v == metrics.deep_view(),
                data@ == graphite_packet_bytes(v.take(i as int)),
            decreases metrics.len() - i,
        {
            let mut line = Protocol::serialized_graphite_record(metrics[i].clone());
            data.append(&mut line);
            proof {
                assert(v.take(i + 1).drop_last() =~= v.take(i as int));
                assert(v.take(i + 1).last() == v[i as int]);
            }
            i += 1;
        }
        proof {
            assert(v.take(v.len() as int) =~= v);
        }
        data
    }

    /// Renders one record as its pickled entry `(path, (value, occurred))`.
    pub fn pickle_tuple(metric: MetricData) -> (r: (String, (String, String)))
        ensures
            (r.0@, (r.1.0@, r.1.1@)) == pickle_entry(metric@),
    {
        let occurred = decimal_string(metric.occurred() as u128);
        let path = metric.path();
        let value: String = match metric.metric() {
            MetricType::Counter(count) => decimal_string(*count as u128),
            MetricType::Timer(elapsed) => decimal_string(*elapsed),
            MetricType::Gauge(gauge) => gauge.render(),
        };
        (path, (value, occurred))
    }

    /// Encodes one chunk as a pickled Graphite packet: the pickled entry
    /// list, prefixed with a four-byte big-endian length header.
    pub fn serialize_graphite_pickled(metrics: Vec<MetricData>) -> (r: Vec<u8>)
        ensures
            r@ == pickled_packet_bytes(metrics.deep_view()),
    {
        let ghost v = metrics.deep_view();
        let mut entries: Vec<(String, (String, String))> = Vec::new();
        let mut i: usize = 0;
        while i < metrics.len()
            invariant
                i <= metrics.len(),
                v == metrics.deep_view(),
                entries_view(entries@) == pickle_entries(v.take(i as int)),
            decreases metrics.len() - i,
        {
            let entry = Protocol::pickle_tuple(metrics[i].clone());
            let ghost pre = entries@;
            entries.push(entry);
            proof {
                assert(entries@.drop_last() =~= pre);
                assert(v.take(i + 1).drop_last() =~= v.take(i as int));
                assert(v.take(i + 1).last() == v[i as int]);
            }
            i += 1;
        }
        proof {
            assert(v.take(v.len() as int) =~= v);
        }
        let mut payload = pickle_records(&entries);
        let size: u32 = ((payload.len() as u64) % 0x1_0000_0000u64) as u32;
        let mut packet = be32_bytes(size);
        packet.append(&mut payload);
        packet
    }

    /// Encodes one chunk into a single packet of this protocol.
    pub fn serialize_data(&self, metrics: Vec<MetricData>) -> (r: Vec<u8>)
        ensures
            self.packet_ok(metrics.deep_view(), r@),
    {
        match self {
            Protocol::StatsD => Protocol::serialize_statsd(metrics),
            Protocol::Graphite(Compression::Pickled) => Protocol::serialize_graphite_pickled(
                metrics,
            ),
            Protocol::Graphite(Compression::Uncompressed) =>
                Protocol::serialize_graphite_uncompressed(metrics),
        }
    }
}

/// The chunks a record sequence is grouped into: full chunks of `n` records
/// in input order, with a shorter final chunk for what remains.
pub open spec fn chunks_of(ms: Seq<MetricDataView>, n: int) -> Seq<Seq<MetricDataView>>
    decreases ms.len(),
{
    if n < 1 {
        Seq::empty()
    } else if ms.len() == 0 {
        Seq::empty()
    } else if ms.len() <= n {
        seq![ms]
    } else {
        seq![ms.take(n)] + chunks_of(ms.skip(n), n)
    }
}

/// Chunking produces exactly the rounded-up quotient of the record count by
/// the chunk limit: `ceil(count / n)` chunks, so `ceil(count / 14)` packets
/// for StatsD and pickled Graphite and one packet per record for plaintext
/// Graphite.
pub proof fn lemma_chunks_count(ms: Seq<MetricDataView>, n: int)
    requires
        1 <= n,
    ensures
        chunks_of(ms, n).len() == (ms.len() + n - 1) / n,
    decreases ms.len(),
{
    if ms.len() == 0 {
        assert((n - 1) / n == 0) by (nonlinear_arith)
            requires
                1 <= n,
        ;
    } else if ms.len() <= n {
        assert((ms.len() + n - 1) / n == 1) by (nonlinear_arith)
            requires
                1 <= n && 1 <= ms.len() <= n,
        ;
    } else {
        lemma_chunks_count(ms.skip(n), n);
        assert(ms.skip(n).len() == ms.len() - n);
        assert((ms.len() - n + n - 1) / n + 1 == (ms.len() + n - 1) / n) by (nonlinear_arith)
            requires
                1 <= n < ms.len(),
        ;
    }
}

impl Protocol {
    /// Splits the records into chunks of at most [`Protocol::chunk_limit`]
    /// records, preserving order, and encodes each chunk independently into
    /// exactly one packet.
    pub fn serialize(&self, data: Vec<MetricData>) -> (r: Vec<Vec<u8>>)
        ensures
            r@.len() == chunks_of(data.deep_view(), self.chunk_limit()).len(),
            forall|i: int|
                0 <= i < r@.len() ==> self.packet_ok(
                    chunks_of(data.deep_view(), self.chunk_limit())[i],
                    #[trigger] r@[i]@,
                ),
    {
        let num_in_packet: usize = match self {
            Protocol::StatsD => 14,
            Protocol::Graphite(Compression::Uncompressed) => 1,
            Protocol::Graphite(Compression::Pickled) => 14,
        };
        let ghost v = data.deep_view();
        let ghost cs = chunks_of(v, self.chunk_limit());
        proof {
            assert(num_in_packet as int == self.chunk_limit());
            assert(v.skip(0) =~= v);
            assert(cs.skip(0) =~= cs);
        }

        let mut packet_bodies: Vec<Vec<u8>> = Vec::new();
        let mut i: usize = 0;
        while i < data.len()
            invariant
                v == data.deep_view(),
                cs == chunks_of(v, num_in_packet as int),
                num_in_packet as int == self.chunk_limit(),
                1 <= num_in_packet,
                i <= data.len(),
                packet_bodies@.len() <= cs.len(),
                cs.skip(packet_bodies@.len() as int) == chunks_of(
                    v.skip(i as int),
                    num_in_packet as int,
                ),
                forall|j: int|
                    0 <= j < packet_bodies@.len() ==> self.packet_ok(
                        cs[j],
                        #[trigger] packet_bodies@[j]@,
                    ),
            decreases data.len() - i,
        {
            let end: usize = if data.len() - i < num_in_packet {
                data.len()
            } else {
                i + num_in_packet
            };
            let mut chunk: Vec<MetricData> = Vec::new();
            let mut j: usize = i;
            while j < end
                invariant
                    i <= j <= end <= data.len(),
                    v == data.deep_view(),
                    chunk.deep_view() == v.subrange(i as int, j as int),
                decreases end - j,
            {
                let element = data[j].clone();
                proof {
                    assert(element.deep_view() == v[j as int]);
                }
                let ghost prechunk = chunk.deep_view();
                chunk.push(element);
                proof {
                    assert(chunk.deep_view().len() == prechunk.len() + 1);
                    assert forall|k: int| 0 <= k < prechunk.len() implies chunk.deep_view()[k]
                        == prechunk[k] by {}
                    assert(chunk.deep_view().last() == v[j as int]);
                    assert(chunk.deep_view() =~= v.subrange(i as int, j + 1));
                }
                j += 1;
            }
            let ghost rest = v.skip(i as int);
            proof {
                assert(rest.len() == v.len() - i);
                if rest.len() <= num_in_packet as int {
                    assert(end == data.len());
                    assert(chunk.deep_view() =~= rest);
                    assert(chunks_of(rest, num_in_packet as int) == seq![rest]);
                } else {
                    assert(end == i + num_in_packet);
                    assert(chunk.deep_view() =~= rest.take(num_in_packet as int));
                    assert(rest.skip(num_in_packet as int) =~= v.skip(end as int));
                }
            }
            let packet = self.serialize_data(chunk);
            let ghost pre_len = packet_bodies@.len() as int;
            packet_bodies.push(packet);
            proof {
                let tail = cs.skip(pre_len);
                assert(tail == seq![chunk.deep_view()] + chunks_of(
                    v.skip(end as int),
                    num_in_packet as int,
                ));
                assert(tail.len() >= 1);
                assert(cs[pre_len] == tail[0]);
                assert(tail[0] == chunk.deep_view());
                assert(cs.skip(pre_len + 1) =~= tail.skip(1));
                assert(tail.skip(1) =~= chunks_of(v.skip(end as int), num_in_packet as int));
            }
            i = end;
        }
        proof {
            assert(v.skip(v.len() as int) =~= Seq::<MetricDataView>::empty());
            assert(chunks_of(v.skip(v.len() as int), num_in_packet as int).len() == 0);
            assert(cs.skip(packet_bodies@.len() as int).len() == cs.len() - packet_bodies@.len());
        }
        packet_bodies
    }
}

} // verus!
