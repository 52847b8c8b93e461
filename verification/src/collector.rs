//! The buffering-and-flush engine: an ordered buffer of records with two
//! optional flush thresholds, and the collector that routes every emitted
//! record through the buffer and, on flush, through the encoder and the
//! transport.

use vstd::prelude::*;

use crate::clock;
use crate::configuration::{ConfigurationOptions, FlushConfigurationOptions};
use crate::metric::{MetricData, MetricDataView, Namespace};
use crate::protocol::Protocol;

verus! {

/// Whether a buffer of `len` records meets the count threshold.
pub open spec fn amount_reached(settings: FlushConfigurationOptions, len: int) -> bool {
    match settings.flush_after_amount {
        Some(amount) => len >= amount,
        None => false,
    }
}

/// Whether the interval threshold is armed at all: it needs an interval to
/// be configured and a previous flush to have happened. Before the first
/// flush the interval check never fires.
pub open spec fn interval_may_fire(
    settings: FlushConfigurationOptions,
    last_flush: Option<u64>,
) -> bool {
    settings.flush_after_interval is Some && last_flush is Some
}

/// The seconds elapsed between the last flush and a clock reading; a clock
/// that went backward counts as no elapsed time at all.
pub open spec fn elapsed_seconds(last: u64, now: u64) -> u64 {
    if now >= last {
        (now - last) as u64
    } else {
        0
    }
}

/// An ordered buffer of metric records together with the flush thresholds
/// and the time of the last flush. Insertion order is preserved through
/// draining and encoding.
pub struct MetricBuffer {
    buffer: Vec<MetricData>,
    flush_settings: FlushConfigurationOptions,
    last_flush: Option<u64>,
}

impl MetricBuffer {
    /// The buffered records, in submission order.
    pub closed spec fn records(&self) -> Seq<MetricDataView> {
        self.buffer.deep_view()
    }

    /// The configured flush thresholds.
    pub closed spec fn settings(&self) -> FlushConfigurationOptions {
        self.flush_settings
    }

    /// When the last flush happened, in seconds since the Unix epoch, or
    /// `None` before the first flush.
    pub closed spec fn last_flush(&self) -> Option<u64> {
        self.last_flush
    }

    /// Whether the count threshold is met right now.
    pub open spec fn amount_ready(&self) -> bool {
        amount_reached(self.settings(), self.records().len() as int)
    }

    /// Whether the interval threshold could fire at some clock reading.
    pub open spec fn interval_armed(&self) -> bool {
        interval_may_fire(self.settings(), self.last_flush())
    }

    /// Whether a flush is due at the given clock reading: the count
    /// threshold is met, or an interval is configured, a previous flush
    /// happened, and strictly more than the interval has elapsed since.
    pub open spec fn ready_at(&self, now: u64) -> bool {
        self.amount_ready() || match (self.settings().flush_after_interval, self.last_flush()) {
            (Some(interval), Some(last)) => elapsed_seconds(last, now) > interval,
            _ => false,
        }
    }

    fn new_buffer(flush_after_amount: Option<usize>) -> (r: Vec<MetricData>)
        ensures
            r@ == Seq::<MetricData>::empty(),
    {
        match flush_after_amount {
            Some(amount) => Vec::with_capacity(amount),
            None => Vec::new(),
        }
    }

    /// An empty buffer with the given thresholds and no flush on record.
    pub fn new(flush_settings: FlushConfigurationOptions) -> (r: MetricBuffer)
        ensures
            r.records() == Seq::<MetricDataView>::empty(),
            r.settings() == flush_settings,
            r.last_flush() is None,
    {
        let r = MetricBuffer {
            buffer: MetricBuffer::new_buffer(flush_settings.flush_after_amount),
            flush_settings,
            last_flush: None,
        };
        proof {
            assert(r.records() =~= Seq::<MetricDataView>::empty());
        }
        r
    }

    /// Atomically swaps the buffered records for an empty buffer, records
    /// the current time as the last flush, and returns what had
    /// accumulated, in order. Always succeeds, even on an empty buffer.
    pub fn flush(&mut self) -> (data: Vec<MetricData>)
        ensures
            data.deep_view() == old(self).records(),
            final(self).records() == Seq::<MetricDataView>::empty(),
            final(self).settings() == old(self).settings(),
            final(self).last_flush() is Some,
    {
        let mut data: Vec<MetricData> = Vec::new();
        core::mem::swap(&mut data, &mut self.buffer);
        self.last_flush = Some(clock::now_epoch_seconds());
        proof {
            assert(self.records() =~= Seq::<MetricDataView>::empty());
        }
        data
    }

    /// Decides readiness against an explicitly supplied clock reading:
    /// true exactly when a flush is due at that reading.
    pub fn flush_ready_at(&self, now: u64) -> (r: bool)
        ensures
            r == self.ready_at(now),
    {
        let amount_ready = match self.flush_settings.flush_after_amount {
            Some(amount) => self.buffer.len() >= amount,
            None => false,
        };
        let interval_ready = match (self.flush_settings.flush_after_interval, self.last_flush) {
            (Some(interval), Some(last)) => {
                let elapsed: u64 = if now >= last {
                    now - last
                } else {
                    0
                };
                elapsed > interval
            },
            _ => false,
        };
        amount_ready || interval_ready
    }

    /// Reads the wall clock and decides whether a flush is due. The count
    /// threshold decides independently of the clock; the interval
    /// threshold never fires before a first flush has happened, and
    /// otherwise depends on the reading.
    pub fn flush_ready(&self) -> (r: bool)
        ensures
            self.amount_ready() ==> r,
            !self.amount_ready() && !self.interval_armed() ==> !r,
            r ==> self.amount_ready() || self.interval_armed(),
    {
        let now = clock::now_epoch_seconds();
        self.flush_ready_at(now)
    }

    /// Appends one record; nothing else changes.
    pub fn submit(&mut self, data: MetricData)
        ensures
            final(self).records() == old(self).records().push(data@),
            final(self).settings() == old(self).settings(),
            final(self).last_flush() == old(self).last_flush(),
    {
        let ghost pre = self.buffer.deep_view();
        self.buffer.push(data);
        proof {
            assert(self.records() =~= pre.push(data@));
        }
    }
}

/// The capability interface consumed by metric handles: route a record to
/// the process-wide collector, force a flush, or read the root namespace.
pub trait Collector {
    /// Routes one emitted record into the collector's buffer.
    fn send(&mut self, data: MetricData);

    /// Forces any buffered records to be encoded and handed to the
    /// transport.
    fn flush(&mut self);

    /// The configured root namespace, used to prefix metric names.
    fn namespace(&self) -> Option<Namespace>;
}

/// One-shot, best-effort delivery of a raw byte packet. The result says
/// whether the send succeeded; the collector observes and discards
/// failures, and never retries.
pub trait Transport {
    /// Sends one packet; true on success.
    fn send(&mut self, packet: &[u8]) -> bool;
}

/// The composition root: a metric buffer, a protocol encoder and a
/// transport. Every emitted record passes through the buffer; on flush the
/// drained records are encoded into packets and each packet is handed to
/// the transport once, with per-packet failures discarded.
pub struct BufferedCollector<T: Transport> {
    protocol: Protocol,
    namespace: Option<Namespace>,
    transport: T,
    buffer: MetricBuffer,
}

impl<T: Transport> BufferedCollector<T> {
    /// The buffered records, in submission order.
    pub closed spec fn records(&self) -> Seq<MetricDataView> {
        self.buffer.records()
    }

    /// The configured flush thresholds.
    pub closed spec fn settings(&self) -> FlushConfigurationOptions {
        self.buffer.settings()
    }

    /// When the last flush happened, or `None` before the first.
    pub closed spec fn last_flush(&self) -> Option<u64> {
        self.buffer.last_flush()
    }

    /// The wire protocol packets are encoded in.
    pub closed spec fn protocol(&self) -> Protocol {
        self.protocol
    }

    /// The configured root namespace.
    pub closed spec fn spec_namespace(&self) -> Option<Seq<char>> {
        self.namespace.deep_view()
    }

    /// A collector over the given transport, protocol and options, with an
    /// empty buffer and no flush on record.
    pub fn new(transport: T, protocol: Protocol, options: ConfigurationOptions) -> (r:
        BufferedCollector<T>)
        ensures
            r.records() == Seq::<MetricDataView>::empty(),
            r.settings() == options.flush,
            r.last_flush() is None,
            r.protocol() == protocol,
            r.spec_namespace() == options.namespace.deep_view(),
    {
        let flush_settings = options.flush;
        BufferedCollector {
            protocol,
            namespace: options.namespace,
            transport,
            buffer: MetricBuffer::new(flush_settings),
        }
    }

    /// Submits the record and immediately flushes when a threshold fires,
    /// synchronously on the caller's execution context.
    ///
    /// With a count threshold of `k`, appending the record that reaches
    /// `k` always flushes, leaving the buffer empty; below `k`, and with
    /// the interval check unarmed — no interval configured, or no previous
    /// flush — the buffer is exactly the old records plus this one, so an
    /// automatic flush happens at `k` and never earlier.
    pub fn send(&mut self, metric: MetricData)
        ensures
            final(self).protocol() == old(self).protocol(),
            final(self).spec_namespace() == old(self).spec_namespace(),
            final(self).settings() == old(self).settings(),
            final(self).records() == old(self).records().push(metric@) && final(self).last_flush()
                == old(self).last_flush() || final(self).records()
                == Seq::<MetricDataView>::empty() && final(self).last_flush() is Some,
            amount_reached(old(self).settings(), old(self).records().len() as int + 1)
                ==> final(self).records() == Seq::<MetricDataView>::empty()
                && final(self).last_flush() is Some,
            !amount_reached(old(self).settings(), old(self).records().len() as int + 1)
                && !interval_may_fire(old(self).settings(), old(self).last_flush())
                ==> final(self).records() == old(self).records().push(metric@)
                && final(self).last_flush() == old(self).last_flush(),
            (match old(self).settings().flush_after_amount {
                Some(k) => old(self).records().len() as int + 1 < k && !interval_may_fire(
                    old(self).settings(),
                    old(self).last_flush(),
                ) ==> final(self).records() == old(self).records().push(metric@)
                    && final(self).records().len() == old(self).records().len() + 1
                    && final(self).last_flush() == old(self).last_flush(),
                None => true,
            }),
    {
        self.buffer.submit(metric);
        if self.buffer.flush_ready() {
            self.flush();
        }
    }

    /// Drains the buffer, encodes the drained records into packets, and
    /// hands each packet to the transport once. A failed send is observed
    /// and discarded: flushing always succeeds from the caller's point of
    /// view, and the drained records are never re-queued.
    pub fn flush(&mut self)
        ensures
            final(self).records() == Seq::<MetricDataView>::empty(),
            final(self).last_flush() is Some,
            final(self).protocol() == old(self).protocol(),
            final(self).spec_namespace() == old(self).spec_namespace(),
            final(self).settings() == old(self).settings(),
    {
        let data = self.buffer.flush();
        let packets = self.protocol.serialize(data);
        let mut i: usize = 0;
        while i < packets.len()
            invariant
                i <= packets.len(),
                self.records() == Seq::<MetricDataView>::empty(),
                self.last_flush() is Some,
                self.protocol() == old(self).protocol(),
                self.spec_namespace() == old(self).spec_namespace(),
                self.settings() == old(self).settings(),
            decreases packets.len() - i,
        {
            let _delivered = self.transport.send(packets[i].as_slice());
            i += 1;
        }
    }

    /// The configured root namespace.
    pub fn namespace(&self) -> (r: Option<Namespace>)
        ensures
            r.deep_view() == self.spec_namespace(),
    {
        let r = self.namespace.clone();
        proof {
            match (&self.namespace, &r) {
                (Some(ns), Some(cloned_ns)) => {
                    assert(cloned_ns@ == ns@);
                },
                _ => {},
            }
        }
        r
    }
}

} // verus!
