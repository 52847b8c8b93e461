use metrical::metric::{metric_test_data, MetricData, MetricType};
use metrical::protocol::{Compression, Protocol};

fn plain_records(count: u32) -> Vec<MetricData> {
    let mut records: Vec<MetricData> = Vec::new();
    let mut i: u32 = 0;
    while i < count {
        records.push(MetricData::new(
            None,
            format!("metric{}", i),
            i as u64,
            MetricType::Counter(i),
        ));
        i += 1;
    }
    records
}

#[test]
pub fn it_should_handle_one_metric_per_entry() {
    let data = metric_test_data();
    let protocol = Protocol::Graphite(Compression::Uncompressed);
    let result: Vec<Vec<u8>> = protocol.serialize(data);

    assert_eq!(result.len(), 4);

    let payload1 = result[0].clone();
    assert_eq!(payload1, b"test.HelloTimer 1005 1".to_vec());

    let payload2 = result[1].clone();
    assert_eq!(payload2, b"test.HelloCounter 12 2".to_vec());

    let payload3 = result[2].clone();
    assert_eq!(payload3, b"test.HelloGauge 13 3".to_vec());

    let payload4 = result[3].clone();
    assert_eq!(payload4, b"test.HelloGauge -2 4".to_vec());
}

#[test]
pub fn it_should_pickle_properly() {
    let data = metric_test_data();
    let protocol = Protocol::Graphite(Compression::Pickled);

    let pickle_data: Vec<Vec<u8>> = protocol.serialize(data);
    let data_point = &pickle_data[0][4..];

    assert_eq!(pickle_data.len(), 1);
    assert_eq!(data_point.len(), 158);
}

#[test]
pub fn it_should_construct_properly() {
    let data = metric_test_data();
    let protocol = Protocol::StatsD;

    let data = protocol.serialize(data);

    assert_eq!(data.len(), 1);
    assert_eq!(
        data[0].to_vec(),
        b"test.HelloTimer:1005|ms\ntest.HelloCounter:12|c\ntest.HelloGauge:13|g\ntest.HelloGauge:-2|g".to_vec()
    );
}

#[test]
pub fn it_should_frame_pickled_packets_with_their_length() {
    let data = metric_test_data();
    let packets = Protocol::Graphite(Compression::Pickled).serialize(data);

    assert_eq!(packets.len(), 1);
    let packet = &packets[0];
    assert!(packet.len() >= 4);
    let header = ((packet[0] as u32) << 24)
        | ((packet[1] as u32) << 16)
        | ((packet[2] as u32) << 8)
        | (packet[3] as u32);
    assert_eq!(header as usize, packet.len() - 4);
}

#[test]
pub fn it_should_chunk_fourteen_records_per_statsd_packet() {
    assert_eq!(Protocol::StatsD.serialize(plain_records(14)).len(), 1);
    assert_eq!(Protocol::StatsD.serialize(plain_records(15)).len(), 2);
    assert_eq!(Protocol::StatsD.serialize(plain_records(29)).len(), 3);
    assert_eq!(
        Protocol::Graphite(Compression::Pickled).serialize(plain_records(15)).len(),
        2
    );
    assert_eq!(Protocol::Graphite(Compression::Uncompressed).serialize(plain_records(15)).len(), 15);
}

#[test]
pub fn it_should_produce_no_packets_for_no_records() {
    assert_eq!(Protocol::StatsD.serialize(Vec::new()).len(), 0);
    assert_eq!(Protocol::Graphite(Compression::Uncompressed).serialize(Vec::new()).len(), 0);
    assert_eq!(Protocol::Graphite(Compression::Pickled).serialize(Vec::new()).len(), 0);
}

#[test]
pub fn it_should_serialize_single_records_without_namespace() {
    let record = MetricData::new(None, "lonely".to_owned(), 7, MetricType::Counter(3));
    let line = Protocol::serialized_statsd_record(record);
    assert_eq!(line, b"lonely:3|c\n".to_vec());

    let record = MetricData::new(None, "lonely".to_owned(), 7, MetricType::Counter(3));
    let line = Protocol::serialized_graphite_record(record);
    assert_eq!(line, b"lonely 3 7".to_vec());
}

#[test]
pub fn it_should_build_pickle_tuples_from_records() {
    let record = MetricData::new(
        Some("test".to_owned()),
        "HelloCounter".to_owned(),
        2,
        MetricType::Counter(12),
    );
    let entry = Protocol::pickle_tuple(record);
    assert_eq!(entry.0, "test.HelloCounter".to_owned());
    assert_eq!((entry.1).0, "12".to_owned());
    assert_eq!((entry.1).1, "2".to_owned());
}
