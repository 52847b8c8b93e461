//! A timer: a metric that measures the time elapsed during a task. The
//! measurement starts when the handle is built and is read, in whole
//! milliseconds, when a snapshot is taken.

use vstd::prelude::*;

use crate::clock;
use crate::metric::{MetricData, MetricGenerator, MetricType};

verus! {

/// The mathematical value of a [`TimerBuilder`].
pub struct TimerBuilderView {
    pub name: Seq<char>,
    pub namespace: Option<Seq<char>>,
}

/// Assembles a [`Timer`] from a name and an optional namespace.
pub struct TimerBuilder {
    name: String,
    namespace: Option<String>,
}

impl View for TimerBuilder {
    type V = TimerBuilderView;

    closed spec fn view(&self) -> TimerBuilderView {
        TimerBuilderView { name: self.name@, namespace: self.namespace.deep_view() }
    }
}

impl TimerBuilder {
    /// Starts a builder for a timer with the given name and no namespace.
    pub fn new(name: String) -> (r: TimerBuilder)
        ensures
            r@.name == name@,
            r@.namespace is None,
    {
        TimerBuilder { name, namespace: None }
    }

    /// Sets or clears the namespace the timer reports under.
    pub fn namespace(&mut self, namespace: Option<String>) -> (r: &Self)
        ensures
            final(self)@.name == old(self)@.name,
            final(self)@.namespace == namespace.deep_view(),
            r@ == final(self)@,
    {
        self.namespace = namespace;
        self
    }

    /// Builds the timer; its measurement starts at the moment of this call.
    pub fn build(&self) -> (r: Timer)
        ensures
            r@.name == self@.name,
            r@.namespace == self@.namespace,
    {
        Timer {
            start: clock::instant_now(),
            stop: None,
            name: self.name.clone(),
            namespace: self.namespace.clone(),
        }
    }
}

/// The mathematical value of a [`Timer`]: its reporting identity. The two
/// monotonic timestamps are opaque and carry no specification.
pub struct TimerView {
    pub name: Seq<char>,
    pub namespace: Option<Seq<char>>,
}

/// A metric used to measure the time elapsed during a task or process,
/// such as a critical query or the handling of one request.
pub struct Timer {
    start: std::time::Instant,
    stop: Option<std::time::Instant>,
    name: String,
    namespace: Option<String>,
}

impl View for Timer {
    type V = TimerView;

    closed spec fn view(&self) -> TimerView {
        TimerView { name: self.name@, namespace: self.namespace.deep_view() }
    }
}

impl MetricGenerator for Timer {
    open spec fn gen_namespace(&self) -> Option<Seq<char>> {
        self@.namespace
    }

    open spec fn gen_name(&self) -> Seq<char> {
        self@.name
    }

    open spec fn gen_value_ok(&self, metric: MetricType) -> bool {
        metric is Timer
    }

    fn metric(&self) -> (r: MetricData) {
        let elapsed = match &self.stop {
            Some(instant) => clock::millis_since(&self.start, instant),
            None => {
                let now = clock::instant_now();
                clock::millis_since(&self.start, &now)
            },
        };
        let occurred = clock::now_epoch_seconds();
        MetricData::new(
            self.namespace.clone(),
            self.name.clone(),
            occurred,
            MetricType::Timer(elapsed),
        )
    }
}

} // verus!
