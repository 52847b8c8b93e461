use std::cell::RefCell;
use std::rc::Rc;

use metrical::collector::{BufferedCollector, MetricBuffer, Transport};
use metrical::configuration::{ConfigurationOptions, FlushConfigurationOptions};
use metrical::metric::{metric_test_data, MetricData, MetricType, Namespace};
use metrical::protocol::{Compression, Protocol};

/// A transport that records every packet handed to it and reports the
/// configured outcome for each send.
struct RecordingTransport {
    packets: Rc<RefCell<Vec<Vec<u8>>>>,
    succeed: bool,
}

impl Transport for RecordingTransport {
    fn send(&mut self, packet: &[u8]) -> bool {
        self.packets.borrow_mut().push(packet.to_vec());
        self.succeed
    }
}

fn sample_record(name: &str, count: u32) -> MetricData {
    MetricData::new(None, name.to_owned(), 1, MetricType::Counter(count))
}

fn no_thresholds() -> FlushConfigurationOptions {
    FlushConfigurationOptions { flush_after_amount: None, flush_after_interval: None }
}

#[test]
pub fn it_should_flush_exactly_at_the_count_threshold() {
    let log: Rc<RefCell<Vec<Vec<u8>>>> = Rc::new(RefCell::new(Vec::new()));
    let transport = RecordingTransport { packets: log.clone(), succeed: true };
    let options = ConfigurationOptions {
        namespace: None,
        flush: FlushConfigurationOptions { flush_after_amount: Some(3), flush_after_interval: None },
    };
    let mut collector = BufferedCollector::new(transport, Protocol::StatsD, options);

    collector.send(sample_record("a", 1));
    collector.send(sample_record("b", 2));
    assert_eq!(log.borrow().len(), 0);

    collector.send(sample_record("c", 3));
    assert_eq!(log.borrow().len(), 1);
    assert_eq!(log.borrow()[0], b"a:1|c\nb:2|c\nc:3|c".to_vec());

    collector.send(sample_record("d", 4));
    assert_eq!(log.borrow().len(), 1);
}

#[test]
pub fn it_should_ignore_transport_failures_and_drop_drained_records() {
    let log: Rc<RefCell<Vec<Vec<u8>>>> = Rc::new(RefCell::new(Vec::new()));
    let transport = RecordingTransport { packets: log.clone(), succeed: false };
    let options = ConfigurationOptions { namespace: None, flush: no_thresholds() };
    let mut collector = BufferedCollector::new(transport, Protocol::StatsD, options);

    collector.send(sample_record("a", 1));
    collector.send(sample_record("b", 2));
    assert_eq!(log.borrow().len(), 0);

    collector.flush();
    assert_eq!(log.borrow().len(), 1);

    collector.flush();
    assert_eq!(log.borrow().len(), 1);
}

#[test]
pub fn it_should_send_one_packet_per_graphite_record() {
    let log: Rc<RefCell<Vec<Vec<u8>>>> = Rc::new(RefCell::new(Vec::new()));
    let transport = RecordingTransport { packets: log.clone(), succeed: true };
    let options = ConfigurationOptions { namespace: None, flush: no_thresholds() };
    let mut collector = BufferedCollector::new(
        transport,
        Protocol::Graphite(Compression::Uncompressed),
        options,
    );

    for record in metric_test_data() {
        collector.send(record);
    }
    assert_eq!(log.borrow().len(), 0);

    collector.flush();
    assert_eq!(log.borrow().len(), 4);
    assert_eq!(log.borrow()[0], b"test.HelloTimer 1005 1".to_vec());
    assert_eq!(log.borrow()[3], b"test.HelloGauge -2 4".to_vec());
}

#[test]
pub fn it_should_expose_the_configured_namespace() {
    let log: Rc<RefCell<Vec<Vec<u8>>>> = Rc::new(RefCell::new(Vec::new()));
    let transport = RecordingTransport { packets: log.clone(), succeed: true };
    let options = ConfigurationOptions {
        namespace: Some(Namespace::new("root".to_owned())),
        flush: no_thresholds(),
    };
    let collector = BufferedCollector::new(transport, Protocol::StatsD, options);

    let namespace = collector.namespace();
    assert!(namespace.is_some());
    assert_eq!(namespace.unwrap().0, "root".to_owned());
}

#[test]
pub fn it_should_buffer_in_submission_order() {
    let mut buffer = MetricBuffer::new(no_thresholds());
    buffer.submit(sample_record("first", 1));
    buffer.submit(sample_record("second", 2));

    let drained = buffer.flush();
    assert_eq!(drained.len(), 2);
    assert_eq!(drained[0].path(), "first".to_owned());
    assert_eq!(drained[1].path(), "second".to_owned());

    let empty = buffer.flush();
    assert_eq!(empty.len(), 0);
}

#[test]
pub fn it_should_never_flush_without_thresholds() {
    let mut buffer = MetricBuffer::new(no_thresholds());
    buffer.submit(sample_record("a", 1));
    buffer.submit(sample_record("b", 2));
    assert!(!buffer.flush_ready());
}

#[test]
pub fn it_should_report_readiness_at_the_count_threshold() {
    let settings = FlushConfigurationOptions {
        flush_after_amount: Some(2),
        flush_after_interval: None,
    };
    let mut buffer = MetricBuffer::new(settings);
    buffer.submit(sample_record("a", 1));
    assert!(!buffer.flush_ready());
    buffer.submit(sample_record("b", 2));
    assert!(buffer.flush_ready());
    buffer.flush();
    assert!(!buffer.flush_ready());
}

#[test]
pub fn it_should_arm_the_interval_check_only_after_a_first_flush() {
    let settings = FlushConfigurationOptions {
        flush_after_amount: None,
        flush_after_interval: Some(10),
    };
    let mut buffer = MetricBuffer::new(settings);
    buffer.submit(sample_record("a", 1));

    // No flush has happened yet, so no clock reading makes a flush due.
    assert!(!buffer.flush_ready_at(0));
    assert!(!buffer.flush_ready_at(u64::MAX));
    assert!(!buffer.flush_ready());

    buffer.flush();
    buffer.submit(sample_record("b", 2));

    // Far in the future the interval has certainly elapsed; a clock that
    // went backward counts as no elapsed time at all.
    assert!(buffer.flush_ready_at(u64::MAX));
    assert!(!buffer.flush_ready_at(0));
}
