//! The metric kinds and the event, each with its wire text.

use vstd::prelude::*;
use vstd::string::*;
use crate::decimal::{push_decimal, push_signed_decimal};
use crate::wire::{
    append_tags, decr_body, event_body, gauge_body, histogram_body, incr_body, line_text,
    namespace_view, prefix_namespace, set_body, tag_views, timing_body, with_tags,
};

verus! {

/// Something that is sent as one datagram.
pub trait Metric {
    /// The bare text: no namespace, no tags.
    spec fn body(&self) -> Seq<char>;

    /// Whether a namespace is put in front of the body.
    spec fn takes_namespace(&self) -> bool;

    /// Renders the bare text.
    fn render(&self) -> (s: String)
        ensures
            s@ == self.body(),
    ;

    /// Renders the text under a namespace, without tags.
    fn render_ns(&self, namespace: Option<&str>) -> (s: String)
        ensures
            s@ == line_text(self.takes_namespace(), namespace_view(namespace), self.body()),
    ;

    /// Renders the text under a namespace, with tags.
    fn render_full(&self, namespace: Option<&str>, tags: &[&str]) -> (s: String)
        ensures
            s@ == with_tags(
                line_text(self.takes_namespace(), namespace_view(namespace), self.body()),
                tag_views(tags@),
            ),
    {
        let metric = self.render_ns(namespace);
        append_tags(metric, tags)
    }
}

/// The text of a metric under a namespace, without tags.
pub open spec fn line<M: Metric + ?Sized>(metric: &M, namespace: Option<Seq<char>>) -> Seq<char> {
    line_text(metric.takes_namespace(), namespace, metric.body())
}

/// A step of a counter, up or down, by an amount.
pub enum CountMetric {
    Incr(String, usize),
    Decr(String, usize),
}

impl Metric for CountMetric {
    open spec fn body(&self) -> Seq<char> {
        match self {
            CountMetric::Incr(stat, count) => incr_body(stat@, *count as nat),
            CountMetric::Decr(stat, count) => decr_body(stat@, *count as nat),
        }
    }

    open spec fn takes_namespace(&self) -> bool {
        true
    }

    // my_count:42|c
    // my_count:-42|c
    fn render(&self) -> (s: String) {
        match self {
            CountMetric::Incr(stat, count) => {
                let mut s = stat.clone();
                s.append(":");
                push_decimal(&mut s, *count as u128);
                s.append("|c");
                s
            },
            CountMetric::Decr(stat, count) => {
                let mut s = stat.clone();
                if *count == 0 {
                    s.append(":0|c");
                } else {
                    s.append(":-");
                    push_decimal(&mut s, *count as u128);
                    s.append("|c");
                }
                s
            },
        }
    }

    fn render_ns(&self, namespace: Option<&str>) -> (s: String) {
        prefix_namespace(namespace, self.render())
    }
}

/// A point in time: whole seconds since the Unix epoch, and the nanoseconds
/// that lie beyond them.
#[derive(Clone, Copy, Debug, PartialEq, Eq)]
pub struct Timestamp {
    pub secs: i64,
    pub nanos: u32,
}

impl Timestamp {
    /// The point `nanos` nanoseconds after the second `secs`.
    pub fn new(secs: i64, nanos: u32) -> (t: Self)
        ensures
            t.secs == secs,
            t.nanos == nanos,
    {
        Timestamp { secs, nanos }
    }

    /// The nanoseconds from the Unix epoch to this point.
    pub open spec fn nanos_since_epoch(&self) -> int {
        self.secs * 1_000_000_000 + self.nanos
    }
}

/// `nanos` in whole milliseconds, the fraction cut off towards zero.
pub open spec fn whole_millis(nanos: int) -> int {
    if nanos >= 0 {
        nanos / 1_000_000
    } else {
        -((-nanos) / 1_000_000)
    }
}

/// The whole milliseconds from `start` to `end`; negative where `end` lies
/// before `start`.
pub open spec fn elapsed_millis(start: Timestamp, end: Timestamp) -> int {
    whole_millis(end.nanos_since_epoch() - start.nanos_since_epoch())
}

/// Computes the whole milliseconds from `start` to `end`.
pub fn millis_between(start: Timestamp, end: Timestamp) -> (ms: i128)
    ensures
        ms == elapsed_millis(start, end),
{
    let secs: i128 = end.secs as i128 - start.secs as i128;
    let nanos: i128 = secs * 1_000_000_000 + (end.nanos as i128 - start.nanos as i128);
    if nanos >= 0 {
        ((nanos as u128) / 1_000_000) as i128
    } else {
        -((((-nanos) as u128) / 1_000_000) as i128)
    }
}

/// The time that passed between two points, reported in milliseconds.
pub struct TimeMetric {
    pub start_time: Timestamp,
    pub end_time: Timestamp,
    pub stat: String,
}

impl TimeMetric {
    /// The time from `start_time` to `end_time`, reported as `stat`.
    pub fn new(stat: String, start_time: Timestamp, end_time: Timestamp) -> (m: Self)
        ensures
            m.stat == stat,
            m.start_time == start_time,
            m.end_time == end_time,
    {
        TimeMetric { start_time, end_time, stat }
    }
}

impl Metric for TimeMetric {
    open spec fn body(&self) -> Seq<char> {
        timing_body(self.stat@, elapsed_millis(self.start_time, self.end_time))
    }

    open spec fn takes_namespace(&self) -> bool {
        true
    }

    // my_stat:500|ms
    fn render(&self) -> (s: String) {
        let dur = millis_between(self.start_time, self.end_time);
        let mut s = self.stat.clone();
        s.append(":");
        push_signed_decimal(&mut s, dur);
        s.append("|ms");
        s
    }

    fn render_ns(&self, namespace: Option<&str>) -> (s: String) {
        prefix_namespace(namespace, self.render())
    }
}

/// A duration given in milliseconds; it may be negative.
pub struct TimingMetric {
    pub ms: i64,
    pub stat: String,
}

impl TimingMetric {
    /// A duration of `ms` milliseconds, reported as `stat`.
    pub fn new(stat: String, ms: i64) -> (m: Self)
        ensures
            m.stat == stat,
            m.ms == ms,
    {
        TimingMetric { ms, stat }
    }
}

impl Metric for TimingMetric {
    open spec fn body(&self) -> Seq<char> {
        timing_body(self.stat@, self.ms as int)
    }

    open spec fn takes_namespace(&self) -> bool {
        true
    }

    // my_stat:500|ms
    fn render(&self) -> (s: String) {
        let mut s = self.stat.clone();
        s.append(":");
        push_signed_decimal(&mut s, self.ms as i128);
        s.append("|ms");
        s
    }

    fn render_ns(&self, namespace: Option<&str>) -> (s: String) {
        prefix_namespace(namespace, self.render())
    }
}

/// A value reported as it is.
pub struct GaugeMetric {
    pub stat: String,
    pub val: String,
}

impl GaugeMetric {
    /// The gauge `stat` at `val`.
    pub fn new(stat: String, val: String) -> (m: Self)
        ensures
            m.stat == stat,
            m.val == val,
    {
        GaugeMetric { stat, val }
    }
}

impl Metric for GaugeMetric {
    open spec fn body(&self) -> Seq<char> {
        gauge_body(self.stat@, self.val@)
    }

    open spec fn takes_namespace(&self) -> bool {
        true
    }

    // my_gauge:1000|g
    fn render(&self) -> (s: String) {
        let mut s = self.stat.clone();
        s.append(":");
        s.append(self.val.as_str());
        s.append("|g");
        s
    }

    fn render_ns(&self, namespace: Option<&str>) -> (s: String) {
        prefix_namespace(namespace, self.render())
    }
}

/// A sample of a histogram.
pub struct HistogramMetric {
    pub stat: String,
    pub val: String,
}

impl HistogramMetric {
    /// The sample `val` of the histogram `stat`.
    pub fn new(stat: String, val: String) -> (m: Self)
        ensures
            m.stat == stat,
            m.val == val,
    {
        HistogramMetric { stat, val }
    }
}

impl Metric for HistogramMetric {
    open spec fn body(&self) -> Seq<char> {
        histogram_body(self.stat@, self.val@)
    }

    open spec fn takes_namespace(&self) -> bool {
        true
    }

    // my_histogram:1000|h
    fn render(&self) -> (s: String) {
        let mut s = self.stat.clone();
        s.append(":");
        s.append(self.val.as_str());
        s.append("|h");
        s
    }

    fn render_ns(&self, namespace: Option<&str>) -> (s: String) {
        prefix_namespace(namespace, self.render())
    }
}

/// A member of a set.
pub struct SetMetric {
    pub stat: String,
    pub val: String,
}

impl SetMetric {
    /// The member `val` of the set `stat`.
    pub fn new(stat: String, val: String) -> (m: Self)
        ensures
            m.stat == stat,
            m.val == val,
    {
        SetMetric { stat, val }
    }
}

impl Metric for SetMetric {
    open spec fn body(&self) -> Seq<char> {
        set_body(self.stat@, self.val@)
    }

    open spec fn takes_namespace(&self) -> bool {
        true
    }

    // my_set:45|s
    fn render(&self) -> (s: String) {
        let mut s = self.stat.clone();
        s.append(":");
        s.append(self.val.as_str());
        s.append("|s");
        s
    }

    fn render_ns(&self, namespace: Option<&str>) -> (s: String) {
        prefix_namespace(namespace, self.render())
    }
}

/// An event: a title and a text. It is sent under no namespace.
pub struct Event {
    pub title: String,
    pub text: String,
}

impl Event {
    /// The event with this title and this text.
    pub fn new(title: String, text: String) -> (e: Self)
        ensures
            e.title == title,
            e.text == text,
    {
        Event { title, text }
    }
}

impl Metric for Event {
    open spec fn body(&self) -> Seq<char> {
        event_body(self.title@, self.text@)
    }

    open spec fn takes_namespace(&self) -> bool {
        false
    }

    fn render(&self) -> (s: String) {
        let title_len = self.title.as_str().as_bytes().len();
        let text_len = self.text.as_str().as_bytes().len();
        let mut s = String::from_str("_e{");
        push_decimal(&mut s, title_len as u128);
        s.append(",");
        push_decimal(&mut s, text_len as u128);
        s.append("}:");
        s.append(self.title.as_str());
        s.append("|");
        s.append(self.text.as_str());
        s
    }

    // The header counts the bytes of the title and of the text, so nothing
    // may stand in front of it.
    fn render_ns(&self, namespace: Option<&str>) -> (s: String) {
        self.render()
    }
}

} // verus!
