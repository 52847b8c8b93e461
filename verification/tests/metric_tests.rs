use metrical::metric::gauge::GaugeOptions;
use metrical::metric::{
    metric_test_data, CounterBuilder, GaugeBuilder, MetricGenerator, MetricType, Namespace,
    TimerBuilder,
};
use metrical::MetricalError;

#[test]
pub fn test_increment() {
    let mut counter = CounterBuilder::new("HelloCounter".to_owned()).namespace(None).build();

    counter.increment(1);
    counter.increment(1);

    let result = counter.metric();

    assert_eq!(result.path(), "HelloCounter".to_owned());
    assert_eq!(*result.metric(), MetricType::Counter(2));
}

#[test]
pub fn it_should_work_after_many_additions() {
    let mut counter = CounterBuilder::new("HelloCounter".to_owned()).namespace(None).build();

    for i in 1..100 {
        counter.increment(i);
    }

    let result = counter.metric();
    assert_eq!(result.path(), "HelloCounter".to_owned());
    assert_eq!(*result.metric(), MetricType::Counter(4950));
}

#[test]
pub fn it_should_go_up_and_down() {
    let mut gauge = GaugeBuilder::new("HelloGauge".to_owned()).namespace(None).build();

    gauge.increment(1);

    let metric = gauge.metric();
    assert_eq!(metric.path(), "HelloGauge".to_owned());
    assert_eq!(*metric.metric(), MetricType::Gauge(GaugeOptions::Increase(1)));

    gauge.decrement(1);

    let metric = gauge.metric();
    assert_eq!(metric.path(), "HelloGauge".to_owned());
    assert_eq!(*metric.metric(), MetricType::Gauge(GaugeOptions::Increase(0)));

    gauge.decrement(1);

    let metric = gauge.metric();
    assert_eq!(metric.path(), "HelloGauge".to_owned());
    assert_eq!(*metric.metric(), MetricType::Gauge(GaugeOptions::Decrease(1)));
}

#[test]
pub fn it_should_merge_opposite_gauge_deltas() {
    assert_eq!(
        GaugeOptions::Increase(5).combine(GaugeOptions::Decrease(3)),
        GaugeOptions::Increase(2)
    );
    assert_eq!(
        GaugeOptions::Increase(2).combine(GaugeOptions::Decrease(5)),
        GaugeOptions::Decrease(3)
    );
}

#[test]
pub fn it_should_merge_deltas_into_absolute_values() {
    assert_eq!(
        GaugeOptions::Assign(10).combine(GaugeOptions::Increase(5)),
        GaugeOptions::Assign(15)
    );
    assert_eq!(
        GaugeOptions::Assign(3).combine(GaugeOptions::Decrease(10)),
        GaugeOptions::Assign(0)
    );
}

#[test]
pub fn it_should_merge_same_direction_deltas() {
    assert_eq!(
        GaugeOptions::Increase(4).combine(GaugeOptions::Increase(6)),
        GaugeOptions::Increase(10)
    );
    assert_eq!(
        GaugeOptions::Decrease(4).combine(GaugeOptions::Decrease(6)),
        GaugeOptions::Decrease(10)
    );
    assert_eq!(
        GaugeOptions::Increase(7).combine(GaugeOptions::Assign(2)),
        GaugeOptions::Assign(2)
    );
}

#[test]
pub fn it_should_render_gauge_values_with_their_sign() {
    assert_eq!(GaugeOptions::Increase(13).render(), "+13".to_owned());
    assert_eq!(GaugeOptions::Decrease(2).render(), "-2".to_owned());
    assert_eq!(GaugeOptions::Assign(13).render(), "13".to_owned());
    assert_eq!(GaugeOptions::Assign(0).render(), "0".to_owned());
}

#[test]
pub fn it_should_send_absolute_gauge_values_right_away() {
    let mut gauge = GaugeBuilder::new("HelloGauge".to_owned()).namespace(None).build();

    gauge.increment(7);
    let record = gauge.set(5);

    assert_eq!(record.path(), "HelloGauge".to_owned());
    assert_eq!(*record.metric(), MetricType::Gauge(GaugeOptions::Assign(5)));

    let after = gauge.metric();
    assert_eq!(*after.metric(), MetricType::Gauge(GaugeOptions::Increase(0)));
}

#[test]
pub fn it_should_time_under_its_own_name() {
    let timer = TimerBuilder::new("HelloTimer".to_owned()).namespace(None).build();

    let metric = timer.metric();
    assert_eq!(metric.path(), "HelloTimer".to_owned());
    assert!(matches!(*metric.metric(), MetricType::Timer(_)));
}

#[test]
pub fn it_should_join_namespaces_with_dots() {
    let root = Namespace::new("foo".to_owned());
    let nested = root.namespace("bar".to_owned());
    assert_eq!(nested.0, "foo.bar".to_owned());

    let counter = nested.counter("baz".to_owned());
    let record = counter.metric();
    assert_eq!(record.path(), "foo.bar.baz".to_owned());

    let gauge = root.gauge("qux".to_owned());
    assert_eq!(gauge.metric().path(), "foo.qux".to_owned());

    let timer = root.timer("quux".to_owned());
    assert_eq!(timer.metric().path(), "foo.quux".to_owned());
}

#[test]
pub fn it_should_expose_the_test_fixture() {
    let data = metric_test_data();
    assert_eq!(data.len(), 4);
    assert_eq!(data[0].path(), "test.HelloTimer".to_owned());
    assert_eq!(*data[0].metric(), MetricType::Timer(1005));
    assert_eq!(data[0].occurred(), 1);
    assert_eq!(data[1].path(), "test.HelloCounter".to_owned());
    assert_eq!(*data[1].metric(), MetricType::Counter(12));
    assert_eq!(data[2].path(), "test.HelloGauge".to_owned());
    assert_eq!(*data[2].metric(), MetricType::Gauge(GaugeOptions::Assign(13)));
    assert_eq!(data[3].path(), "test.HelloGauge".to_owned());
    assert_eq!(*data[3].metric(), MetricType::Gauge(GaugeOptions::Decrease(2)));
}

#[test]
pub fn it_should_describe_configuration_errors() {
    let error = MetricalError::ConfigurationInvalid("Port unspecified");
    assert_eq!(error.message(), "Configuration Error: Port unspecified".to_owned());
}

#[test]
pub fn it_should_render_decimal_numbers() {
    assert_eq!(metrical::render::decimal_string(0), "0".to_owned());
    assert_eq!(metrical::render::decimal_string(1005), "1005".to_owned());
    assert_eq!(
        metrical::render::decimal_string(340282366920938463463374607431768211455),
        "340282366920938463463374607431768211455".to_owned()
    );
}
