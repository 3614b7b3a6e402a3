//! Encoding of metrics and events into the line-oriented datagram format of
//! DogStatsD, with every rendering function proved against a model of the
//! wire text.
//!
//! A [`Client`] holds the namespace and has one method for each kind of
//! metric. A method returns the bytes of one datagram; putting them on a
//! socket is left to the caller.

use vstd::prelude::*;
use vstd::string::*;
use crate::metrics::{
    elapsed_millis, line, CountMetric, Event, GaugeMetric, HistogramMetric, Metric, SetMetric,
    TimeMetric, Timestamp, TimingMetric,
};
use crate::wire::{
    datagram, decr_body, event_body, gauge_body, histogram_body, incr_body, set_body,
    string_views, tag_views, timing_body, with_namespace,
};

pub mod decimal;
pub mod laws;
pub mod metrics;
pub mod wire;

verus! {

/// The settings of a client.
#[derive(Debug, PartialEq)]
pub struct Options {
    /// The address of the UDP socket to bind to for sending.
    pub from_addr: String,
    /// The address of the UDP socket that metrics and events are sent to.
    pub to_addr: String,
    /// A namespace to put in front of every metric, joined with a dot.
    pub namespace: Option<String>,
}

impl Options {
    /// The settings of a collector on this host, without a namespace.
    pub fn default() -> (options: Self)
        ensures
            options.from_addr@ == "127.0.0.1:8126"@,
            options.to_addr@ == "127.0.0.1:8125"@,
            options.namespace is None,
    {
        Options {
            from_addr: String::from_str("127.0.0.1:8126"),
            to_addr: String::from_str("127.0.0.1:8125"),
            namespace: None,
        }
    }

    /// Settings with a value for each field; an empty `ns` stands for no
    /// namespace.
    pub fn new(from_addr: &str, to_addr: &str, ns: &str) -> (options: Self)
        ensures
            options.from_addr@ == from_addr@,
            options.to_addr@ == to_addr@,
            ns@.len() == 0 ==> options.namespace is None,
            ns@.len() != 0 ==> options.namespace is Some && options.namespace->0@ == ns@,
    {
        Options {
            from_addr: String::from_str(from_addr),
            to_addr: String::from_str(to_addr),
            namespace: if ns.is_empty() {
                None
            } else {
                Some(String::from_str(ns))
            },
        }
    }
}

/// The namespace under which a client renders, and the rendering of each
/// kind of metric into the bytes of its datagram.
#[derive(Debug)]
pub struct Client {
    pub namespace: Option<String>,
}

impl Client {
    /// The text of the namespace, if there is one.
    pub open spec fn namespace_view(&self) -> Option<Seq<char>> {
        match self.namespace {
            Some(ns) => Some(ns@),
            None => None,
        }
    }

    /// A client that renders under the namespace of `options`.
    pub fn new(options: Options) -> (client: Self)
        ensures
            client.namespace == options.namespace,
    {
        Client { namespace: options.namespace }
    }

    /// The datagram of `metric` with `tags`, under the client's namespace.
    pub fn payload<M: Metric>(&self, metric: &M, tags: &[String]) -> (bytes: Vec<u8>)
        ensures
            bytes@ == datagram(line(metric, self.namespace_view()), string_views(tags@)),
    {
        let mut refs: Vec<&str> = Vec::new();
        let mut i: usize = 0;
        while i < tags.len()
            invariant
                i <= tags.len(),
                refs@.len() == i,
                forall|j: int| 0 <= j < i ==> (#[trigger] refs@[j])@ == tags@[j]@,
            decreases tags.len() - i,
        {
            refs.push(tags[i].as_str());
            i = i + 1;
        }
        assert(tag_views(refs@) =~= string_views(tags@));
        let rendered = match &self.namespace {
            Some(ns) => metric.render_full(Some(ns.as_str()), refs.as_slice()),
            None => metric.render_full(None, refs.as_slice()),
        };
        rendered.as_str().as_bytes_vec()
    }

    /// A counter raised by one.
    pub fn incr(&self, stat: &str, tags: Vec<String>) -> (bytes: Vec<u8>)
        ensures
            bytes@ == datagram(
                with_namespace(self.namespace_view(), incr_body(stat@, 1)),
                string_views(tags@),
            ),
    {
        self.incr_by(stat, 1, tags)
    }

    /// A counter raised by `amt`.
    pub fn incr_by(&self, stat: &str, amt: usize, tags: Vec<String>) -> (bytes: Vec<u8>)
        ensures
            bytes@ == datagram(
                with_namespace(self.namespace_view(), incr_body(stat@, amt as nat)),
                string_views(tags@),
            ),
    {
        self.payload(&CountMetric::Incr(String::from_str(stat), amt), tags.as_slice())
    }

    /// A counter lowered by one.
    pub fn decr(&self, stat: &str, tags: Vec<String>) -> (bytes: Vec<u8>)
        ensures
            bytes@ == datagram(
                with_namespace(self.namespace_view(), decr_body(stat@, 1)),
                string_views(tags@),
            ),
    {
        self.decr_by(stat, 1, tags)
    }

    /// A counter lowered by `amt`.
    pub fn decr_by(&self, stat: &str, amt: usize, tags: Vec<String>) -> (bytes: Vec<u8>)
        ensures
            bytes@ == datagram(
                with_namespace(self.namespace_view(), decr_body(stat@, amt as nat)),
                string_views(tags@),
            ),
    {
        self.payload(&CountMetric::Decr(String::from_str(stat), amt), tags.as_slice())
    }

    /// The time from `start_time` to `end_time`, in milliseconds.
    pub fn time(
        &self,
        stat: &str,
        tags: Vec<String>,
        start_time: Timestamp,
        end_time: Timestamp,
    ) -> (bytes: Vec<u8>)
        ensures
            bytes@ == datagram(
                with_namespace(
                    self.namespace_view(),
                    timing_body(stat@, elapsed_millis(start_time, end_time)),
                ),
                string_views(tags@),
            ),
    {
        self.payload(
            &TimeMetric::new(String::from_str(stat), start_time, end_time),
            tags.as_slice(),
        )
    }

    /// A duration of `ms` milliseconds.
    pub fn timing(&self, stat: &str, ms: i64, tags: Vec<String>) -> (bytes: Vec<u8>)
        ensures
            bytes@ == datagram(
                with_namespace(self.namespace_view(), timing_body(stat@, ms as int)),
                string_views(tags@),
            ),
    {
        self.payload(&TimingMetric::new(String::from_str(stat), ms), tags.as_slice())
    }

    /// A gauge at `val`.
    pub fn gauge(&self, stat: &str, val: &str, tags: Vec<String>) -> (bytes: Vec<u8>)
        ensures
            bytes@ == datagram(
                with_namespace(self.namespace_view(), gauge_body(stat@, val@)),
                string_views(tags@),
            ),
    {
        self.payload(
            &GaugeMetric::new(String::from_str(stat), String::from_str(val)),
            tags.as_slice(),
        )
    }

    /// A sample `val` of a histogram.
    pub fn histogram(&self, stat: &str, val: &str, tags: Vec<String>) -> (bytes: Vec<u8>)
        ensures
            bytes@ == datagram(
                with_namespace(self.namespace_view(), histogram_body(stat@, val@)),
                string_views(tags@),
            ),
    {
        self.payload(
            &HistogramMetric::new(String::from_str(stat), String::from_str(val)),
            tags.as_slice(),
        )
    }

    /// A member `val` of a set.
    pub fn set(&self, stat: &str, val: &str, tags: Vec<String>) -> (bytes: Vec<u8>)
        ensures
            bytes@ == datagram(
                with_namespace(self.namespace_view(), set_body(stat@, val@)),
                string_views(tags@),
            ),
    {
        self.payload(
            &SetMetric::new(String::from_str(stat), String::from_str(val)),
            tags.as_slice(),
        )
    }

    /// An event; the namespace does not apply to it.
    pub fn event(&self, title: &str, text: &str, tags: Vec<String>) -> (bytes: Vec<u8>)
        ensures
            bytes@ == datagram(event_body(title@, text@), string_views(tags@)),
    {
        self.payload(
            &Event::new(String::from_str(title), String::from_str(text)),
            tags.as_slice(),
        )
    }
}

} // verus!
