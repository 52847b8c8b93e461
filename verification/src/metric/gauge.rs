//! A gauge: a metric that moves both up and down. Changes made before a
//! snapshot is taken are merged into a single pending delta or absolute
//! value.

use vstd::prelude::*;
use vstd::string::StringExecFns;

use crate::clock;
use crate::metric::{MetricData, MetricGenerator, MetricType};
use crate::render::{dec_chars, decimal_string};

verus! {

/// A pending, not-yet-collapsed gauge change: a delta in either direction
/// or an absolute value.
#[derive(Debug, Clone, Copy, PartialEq, Eq, Structural)]
pub enum GaugeOptions {
    Increase(u32),
    Decrease(u32),
    Assign(u32),
}

/// The merge rule for two pending gauge changes, applied when a gauge handle
/// is mutated several times before a snapshot: deltas in the same direction
/// accumulate, opposite deltas cancel, and an absolute value absorbs deltas
/// (clamped at zero) but is replaced by a later absolute value.
///
/// The rule is commutative in its effect on the collector, but merging
/// across `Assign` does not preserve associativity; that asymmetry is part of
/// the design.
pub open spec fn spec_combine(a: GaugeOptions, b: GaugeOptions) -> GaugeOptions {
    match (a, b) {
        (GaugeOptions::Increase(x), GaugeOptions::Increase(y)) => GaugeOptions::Increase(
            (x + y) as u32,
        ),
        (GaugeOptions::Increase(x), GaugeOptions::Decrease(y)) => if y > x {
            GaugeOptions::Decrease((y - x) as u32)
        } else {
            GaugeOptions::Increase((x - y) as u32)
        },
        (GaugeOptions::Increase(_), GaugeOptions::Assign(y)) => GaugeOptions::Assign(y),
        (GaugeOptions::Decrease(x), GaugeOptions::Increase(y)) => if y > x {
            GaugeOptions::Increase((y - x) as u32)
        } else {
            GaugeOptions::Decrease((x - y) as u32)
        },
        (GaugeOptions::Decrease(x), GaugeOptions::Decrease(y)) => GaugeOptions::Decrease(
            (x + y) as u32,
        ),
        (GaugeOptions::Decrease(_), GaugeOptions::Assign(y)) => GaugeOptions::Assign(y),
        (GaugeOptions::Assign(x), GaugeOptions::Increase(y)) => GaugeOptions::Assign((x + y) as u32),
        (GaugeOptions::Assign(x), GaugeOptions::Decrease(y)) => if y > x {
            GaugeOptions::Assign(0)
        } else {
            GaugeOptions::Assign((x - y) as u32)
        },
        (GaugeOptions::Assign(_), GaugeOptions::Assign(y)) => GaugeOptions::Assign(y),
    }
}

/// Whether merging `a` and `b` stays within the 32-bit value range; only
/// same-direction deltas and a delta applied on top of an absolute value
/// can overflow.
pub open spec fn combine_fits(a: GaugeOptions, b: GaugeOptions) -> bool {
    match (a, b) {
        (GaugeOptions::Increase(x), GaugeOptions::Increase(y)) => x + y <= u32::MAX,
        (GaugeOptions::Decrease(x), GaugeOptions::Decrease(y)) => x + y <= u32::MAX,
        (GaugeOptions::Assign(x), GaugeOptions::Increase(y)) => x + y <= u32::MAX,
        _ => true,
    }
}

/// The wire rendering of a pending gauge change: `+v` for an increase,
/// `-v` for a decrease, a bare `v` for an absolute value.
pub open spec fn gauge_chars(g: GaugeOptions) -> Seq<char> {
    match g {
        GaugeOptions::Increase(v) => seq!['+'] + dec_chars(v as int),
        GaugeOptions::Decrease(v) => seq!['-'] + dec_chars(v as int),
        GaugeOptions::Assign(v) => dec_chars(v as int),
    }
}

impl GaugeOptions {
    /// Merges this pending change with a later one.
    pub fn combine(self, rhs: GaugeOptions) -> (r: GaugeOptions)
        requires
            combine_fits(self, rhs),
        ensures
            r == spec_combine(self, rhs),
    {
        match (self, rhs) {
            (GaugeOptions::Increase(x), GaugeOptions::Increase(y)) => GaugeOptions::Increase(
                x + y,
            ),
            (GaugeOptions::Increase(x), GaugeOptions::Decrease(y)) => if y > x {
                GaugeOptions::Decrease(y - x)
            } else {
                GaugeOptions::Increase(x - y)
            },
            (GaugeOptions::Increase(_), GaugeOptions::Assign(y)) => GaugeOptions::Assign(y),
            (GaugeOptions::Decrease(x), GaugeOptions::Increase(y)) => if y > x {
                GaugeOptions::Increase(y - x)
            } else {
                GaugeOptions::Decrease(x - y)
            },
            (GaugeOptions::Decrease(x), GaugeOptions::Decrease(y)) => GaugeOptions::Decrease(
                x + y,
            ),
            (GaugeOptions::Decrease(_), GaugeOptions::Assign(y)) => GaugeOptions::Assign(y),
            (GaugeOptions::Assign(x), GaugeOptions::Increase(y)) => GaugeOptions::Assign(x + y),
            (GaugeOptions::Assign(x), GaugeOptions::Decrease(y)) => if y > x {
                GaugeOptions::Assign(0)
            } else {
                GaugeOptions::Assign(x - y)
            },
            (GaugeOptions::Assign(_), GaugeOptions::Assign(y)) => GaugeOptions::Assign(y),
        }
    }

    /// Renders this pending change for the wire: `+v`, `-v` or `v`.
    pub fn render(&self) -> (r: String)
        ensures
            r@ == gauge_chars(*self),
    {
        proof {
            reveal_strlit("+");
            reveal_strlit("-");
        }
        match self {
            GaugeOptions::Increase(v) => {
                let mut s = "+".to_owned();
                let digits = decimal_string(*v as u128);
                s.append(digits.as_str());
                proof {
                    assert(s@ =~= gauge_chars(*self));
                }
                s
            },
            GaugeOptions::Decrease(v) => {
                let mut s = "-".to_owned();
                let digits = decimal_string(*v as u128);
                s.append(digits.as_str());
                proof {
                    assert(s@ =~= gauge_chars(*self));
                }
                s
            },
            GaugeOptions::Assign(v) => decimal_string(*v as u128),
        }
    }
}

/// The mathematical value of a [`GaugeBuilder`].
pub struct GaugeBuilderView {
    pub name: Seq<char>,
    pub namespace: Option<Seq<char>>,
}

/// Assembles a [`Gauge`] from a name and an optional namespace.
pub struct GaugeBuilder {
    name: String,
    namespace: Option<String>,
}

impl View for GaugeBuilder {
    type V = GaugeBuilderView;

    closed spec fn view(&self) -> GaugeBuilderView {
        GaugeBuilderView { name: self.name@, namespace: self.namespace.deep_view() }
    }
}

impl GaugeBuilder {
    /// Starts a builder for a gauge with the given name and no namespace.
    pub fn new(name: String) -> (r: GaugeBuilder)
        ensures
            r@.name == name@,
            r@.namespace is None,
    {
        GaugeBuilder { name, namespace: None }
    }

    /// Sets or clears the namespace the gauge reports under.
    pub fn namespace(&mut self, namespace: Option<String>) -> (r: &Self)
        ensures
            final(self)@.name == old(self)@.name,
            final(self)@.namespace == namespace.deep_view(),
            r@ == final(self)@,
    {
        self.namespace = namespace;
        self
    }

    /// Builds the gauge; its pending change starts as an increase of zero.
    pub fn build(&self) -> (r: Gauge)
        ensures
            r@.value == GaugeOptions::Increase(0),
            r@.name == self@.name,
            r@.namespace == self@.namespace,
    {
        Gauge {
            name: self.name.clone(),
            namespace: self.namespace.clone(),
            value: GaugeOptions::Increase(0),
        }
    }
}

/// The mathematical value of a [`Gauge`].
pub struct GaugeView {
    pub name: Seq<char>,
    pub namespace: Option<Seq<char>>,
    pub value: GaugeOptions,
}

/// A metric used to measure resources that both grow and shrink, such as
/// the number of worker threads in use or the amount of memory held.
#[derive(Debug)]
pub struct Gauge {
    name: String,
    namespace: Option<String>,
    value: GaugeOptions,
}

impl View for Gauge {
    type V = GaugeView;

    closed spec fn view(&self) -> GaugeView {
        GaugeView {
            name: self.name@,
            namespace: self.namespace.deep_view(),
            value: self.value,
        }
    }
}

impl Gauge {
    /// The current pending change.
    pub fn value(&self) -> (r: GaugeOptions)
        ensures
            r == self@.value,
    {
        self.value
    }

    /// Raises the pending change by `value`.
    pub fn increment(&mut self, value: u32)
        requires
            combine_fits(old(self)@.value, GaugeOptions::Increase(value)),
        ensures
            final(self)@.value == spec_combine(old(self)@.value, GaugeOptions::Increase(value)),
            final(self)@.name == old(self)@.name,
            final(self)@.namespace == old(self)@.namespace,
    {
        self.value = self.value.combine(GaugeOptions::Increase(value));
    }

    /// Lowers the pending change by `value`.
    pub fn decrement(&mut self, value: u32)
        requires
            combine_fits(old(self)@.value, GaugeOptions::Decrease(value)),
        ensures
            final(self)@.value == spec_combine(old(self)@.value, GaugeOptions::Decrease(value)),
            final(self)@.name == old(self)@.name,
            final(self)@.namespace == old(self)@.namespace,
    {
        self.value = self.value.combine(GaugeOptions::Decrease(value));
    }

    /// Replaces the pending change with an absolute value and snapshots it
    /// right away; the returned record is ready to be sent, and the pending
    /// change starts over at an increase of zero.
    pub fn set(&mut self, value: u32) -> (out: MetricData)
        ensures
            final(self)@.value == GaugeOptions::Increase(0),
            final(self)@.name == old(self)@.name,
            final(self)@.namespace == old(self)@.namespace,
            out@.name == old(self)@.name,
            out@.namespace == old(self)@.namespace,
            out@.metric == MetricType::Gauge(GaugeOptions::Assign(value)),
    {
        self.value = GaugeOptions::Assign(value);
        let out = self.metric();
        self.value = GaugeOptions::Increase(0);
        out
    }
}

impl MetricGenerator for Gauge {
    open spec fn gen_namespace(&self) -> Option<Seq<char>> {
        self@.namespace
    }

    open spec fn gen_name(&self) -> Seq<char> {
        self@.name
    }

    open spec fn gen_value_ok(&self, metric: MetricType) -> bool {
        metric == MetricType::Gauge(self@.value)
    }

    fn metric(&self) -> (r: MetricData) {
        let occurred = clock::now_epoch_seconds();
        MetricData::new(
            self.namespace.clone(),
            self.name.clone(),
            occurred,
            MetricType::Gauge(self.value),
        )
    }
}

} // verus!
