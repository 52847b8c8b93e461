//! The metric data model: immutable measurement records, the value union for
//! each metric kind, hierarchical namespaces, and the trait through which a
//! handle turns its current state into a record.

use vstd::prelude::*;
use vstd::string::StringExecFns;

pub mod counter;
pub mod gauge;
pub mod timer;

pub use counter::{Counter, CounterBuilder};
pub use gauge::{Gauge, GaugeBuilder};
pub use timer::{Timer, TimerBuilder};

use gauge::GaugeOptions;

verus! {

/// The value carried by one metric record: a monotonically increasing count,
/// an elapsed time in milliseconds, or a pending gauge change.
#[derive(Debug, Clone, Copy, PartialEq, Eq, Structural)]
pub enum MetricType {
    Counter(u32),
    Timer(u128),
    Gauge(GaugeOptions),
}

/// The mathematical value of a [`MetricData`] record: the same fields, with
/// the strings as character sequences.
pub struct MetricDataView {
    pub namespace: Option<Seq<char>>,
    pub name: Seq<char>,
    pub occurred: u64,
    pub metric: MetricType,
}

/// An immutable snapshot of one measurement, created at the moment a handle
/// emits. Ownership passes from the handle to the buffer to the encoder.
#[derive(Debug)]
pub struct MetricData {
    namespace: Option<String>,
    name: String,
    occurred: u64,
    metric: MetricType,
}

impl View for MetricData {
    type V = MetricDataView;

    closed spec fn view(&self) -> MetricDataView {
        MetricDataView {
            namespace: match self.namespace {
                Some(ns) => Some(ns@),
                None => None,
            },
            name: self.name@,
            occurred: self.occurred,
            metric: self.metric,
        }
    }
}

impl DeepView for MetricData {
    type V = MetricDataView;

    open spec fn deep_view(&self) -> MetricDataView {
        self.view()
    }
}

impl Clone for MetricData {
    fn clone(&self) -> (r: Self)
        ensures
            r@ == self@,
    {
        MetricData {
            namespace: self.namespace.clone(),
            name: self.name.clone(),
            occurred: self.occurred,
            metric: self.metric,
        }
    }
}

/// The dotted path of a record: `namespace.name` when a namespace is
/// present, the bare name otherwise.
pub open spec fn path_chars(m: MetricDataView) -> Seq<char> {
    match m.namespace {
        Some(ns) => ns + seq!['.'] + m.name,
        None => m.name,
    }
}

impl MetricData {
    /// Builds one measurement record from its parts.
    pub fn new(namespace: Option<String>, name: String, occurred: u64, metric: MetricType) -> (r:
        MetricData)
        ensures
            r@ == (MetricDataView {
                namespace: match namespace {
                    Some(ns) => Some(ns@),
                    None => None,
                },
                name: name@,
                occurred,
                metric,
            }),
    {
        MetricData { namespace, name, occurred, metric }
    }

    /// The dotted path this record is reported under.
    pub fn path(&self) -> (r: String)
        ensures
            r@ == path_chars(self@),
    {
        proof {
            reveal_strlit(".");
        }
        match &self.namespace {
            Some(ns) => {
                let mut s = ns.clone();
                s.append(".");
                s.append(self.name.as_str());
                proof {
                    assert(s@ =~= path_chars(self@));
                }
                s
            },
            None => self.name.clone(),
        }
    }

    /// The value of the measurement.
    pub fn metric(&self) -> (r: &MetricType)
        ensures
            *r == self@.metric,
    {
        &self.metric
    }

    /// The capture time, in seconds since the Unix epoch.
    pub fn occurred(&self) -> (r: u64)
        ensures
            r == self@.occurred,
    {
        self.occurred
    }
}

/// A fixed four-record fixture: one timer, one counter and two gauge
/// measurements under the `test` namespace, with capture times 1 through 4.
pub fn metric_test_data() -> (r: Vec<MetricData>)
    ensures
        r.deep_view().len() == 4,
        r.deep_view()[0] == (MetricDataView {
            namespace: Some("test"@),
            name: "HelloTimer"@,
            occurred: 1,
            metric: MetricType::Timer(1005),
        }),
        r.deep_view()[1] == (MetricDataView {
            namespace: Some("test"@),
            name: "HelloCounter"@,
            occurred: 2,
            metric: MetricType::Counter(12),
        }),
        r.deep_view()[2] == (MetricDataView {
            namespace: Some("test"@),
            name: "HelloGauge"@,
            occurred: 3,
            metric: MetricType::Gauge(GaugeOptions::Assign(13)),
        }),
        r.deep_view()[3] == (MetricDataView {
            namespace: Some("test"@),
            name: "HelloGauge"@,
            occurred: 4,
            metric: MetricType::Gauge(GaugeOptions::Decrease(2)),
        }),
{
    let mut records: Vec<MetricData> = Vec::new();
    records.push(
        MetricData::new(
            Some("test".to_owned()),
            "HelloTimer".to_owned(),
            1,
            MetricType::Timer(1005),
        ),
    );
    records.push(
        MetricData::new(
            Some("test".to_owned()),
            "HelloCounter".to_owned(),
            2,
            MetricType::Counter(12),
        ),
    );
    records.push(
        MetricData::new(
            Some("test".to_owned()),
            "HelloGauge".to_owned(),
            3,
            MetricType::Gauge(GaugeOptions::Assign(13)),
        ),
    );
    records.push(
        MetricData::new(
            Some("test".to_owned()),
            "HelloGauge".to_owned(),
            4,
            MetricType::Gauge(GaugeOptions::Decrease(2)),
        ),
    );
    records
}

/// A handle that can snapshot its current state as a measurement record.
/// The capture time is read from the wall clock at the moment of the call,
/// so nothing is promised of it.
pub trait MetricGenerator {
    /// The namespace the produced records are reported under.
    spec fn gen_namespace(&self) -> Option<Seq<char>>;

    /// The name the produced records are reported under.
    spec fn gen_name(&self) -> Seq<char>;

    /// Which measurement values this handle can currently produce.
    spec fn gen_value_ok(&self, metric: MetricType) -> bool;

    /// Snapshots the handle's state as one record.
    fn metric(&self) -> (r: MetricData)
        ensures
            r@.namespace == self.gen_namespace(),
            r@.name == self.gen_name(),
            self.gen_value_ok(r@.metric),
    ;
}

/// A dot-joined hierarchical prefix under which metric handles are created.
pub struct Namespace(pub String);

impl View for Namespace {
    type V = Seq<char>;

    open spec fn view(&self) -> Seq<char> {
        self.0@
    }
}

impl DeepView for Namespace {
    type V = Seq<char>;

    open spec fn deep_view(&self) -> Seq<char> {
        self.0@
    }
}

impl Clone for Namespace {
    fn clone(&self) -> (r: Self)
        ensures
            r@ == self@,
    {
        Namespace(self.0.clone())
    }
}

impl Namespace {
    /// Wraps an already-joined prefix.
    pub fn new(namespace: String) -> (r: Self)
        ensures
            r@ == namespace@,
    {
        Namespace(namespace)
    }

    /// Extends this prefix by one more dot-joined segment.
    pub fn namespace(&self, namespace: String) -> (r: Self)
        ensures
            r@ == self@ + seq!['.'] + namespace@,
    {
        proof {
            reveal_strlit(".");
        }
        let mut joined = self.0.clone();
        joined.append(".");
        joined.append(namespace.as_str());
        proof {
            assert(joined@ =~= self@ + seq!['.'] + namespace@);
        }
        Namespace(joined)
    }

    /// Creates a counter handle under this prefix.
    pub fn counter(&self, name: String) -> (r: Counter)
        ensures
            r@.name == name@,
            r@.namespace == Some(self@),
            r@.count == 0,
    {
        CounterBuilder::new(name).namespace(Some(self.0.clone())).build()
    }

    /// Creates a timer handle under this prefix; its measurement starts now.
    pub fn timer(&self, name: String) -> (r: Timer)
        ensures
            r@.name == name@,
            r@.namespace == Some(self@),
    {
        TimerBuilder::new(name).namespace(Some(self.0.clone())).build()
    }

    /// Creates a gauge handle under this prefix.
    pub fn gauge(&self, name: String) -> (r: Gauge)
        ensures
            r@.name == name@,
            r@.namespace == Some(self@),
            r@.value == GaugeOptions::Increase(0),
    {
        GaugeBuilder::new(name).namespace(Some(self.0.clone())).build()
    }
}

} // verus!
