//! A counter: a metric that only ever increases between snapshots.

use vstd::prelude::*;

use crate::clock;
use crate::metric::{MetricData, MetricGenerator, MetricType};

verus! {

/// The mathematical value of a [`CounterBuilder`].
pub struct CounterBuilderView {
    pub name: Seq<char>,
    pub namespace: Option<Seq<char>>,
}

/// Assembles a [`Counter`] from a name and an optional namespace.
pub struct CounterBuilder {
    name: String,
    namespace: Option<String>,
}

impl View for CounterBuilder {
    type V = CounterBuilderView;

    closed spec fn view(&self) -> CounterBuilderView {
        CounterBuilderView { name: self.name@, namespace: self.namespace.deep_view() }
    }
}

impl CounterBuilder {
    /// Starts a builder for a counter with the given name and no namespace.
    pub fn new(name: String) -> (r: CounterBuilder)
        ensures
            r@.name == name@,
            r@.namespace is None,
    {
        CounterBuilder { name, namespace: None }
    }

    /// Sets or clears the namespace the counter reports under.
    pub fn namespace(&mut self, namespace: Option<String>) -> (r: &Self)
        ensures
            final(self)@.name == old(self)@.name,
            final(self)@.namespace == namespace.deep_view(),
            r@ == final(self)@,
    {
        self.namespace = namespace;
        self
    }

    /// Builds the counter, starting its count at zero.
    pub fn build(&self) -> (r: Counter)
        ensures
            r@.count == 0,
            r@.name == self@.name,
            r@.namespace == self@.namespace,
    {
        Counter { count: 0, name: self.name.clone(), namespace: self.namespace.clone() }
    }
}

/// The mathematical value of a [`Counter`].
pub struct CounterView {
    pub count: u32,
    pub name: Seq<char>,
    pub namespace: Option<Seq<char>>,
}

/// A metric used to count events that only accumulate, such as the number
/// of times an operation ran.
#[derive(Debug)]
pub struct Counter {
    count: u32,
    name: String,
    namespace: Option<String>,
}

impl View for Counter {
    type V = CounterView;

    closed spec fn view(&self) -> CounterView {
        CounterView { count: self.count, name: self.name@, namespace: self.namespace.deep_view() }
    }
}

impl Counter {
    /// The current running count.
    pub fn count(&self) -> (r: u32)
        ensures
            r == self@.count,
    {
        self.count
    }

    /// Adds `amount` to the running count.
    pub fn increment(&mut self, amount: u32) -> (r: &Self)
        requires
            old(self)@.count + amount <= u32::MAX,
        ensures
            final(self)@.count == old(self)@.count + amount,
            final(self)@.name == old(self)@.name,
            final(self)@.namespace == old(self)@.namespace,
            r@ == final(self)@,
    {
        self.count = self.count + amount;
        self
    }
}

impl MetricGenerator for Counter {
    open spec fn gen_namespace(&self) -> Option<Seq<char>> {
        self@.namespace
    }

    open spec fn gen_name(&self) -> Seq<char> {
        self@.name
    }

    open spec fn gen_value_ok(&self, metric: MetricType) -> bool {
        metric == MetricType::Counter(self@.count)
    }

    fn metric(&self) -> (r: MetricData) {
        let occurred = clock::now_epoch_seconds();
        MetricData::new(
            self.namespace.clone(),
            self.name.clone(),
            occurred,
            MetricType::Counter(self.count),
        )
    }
}

} // verus!
