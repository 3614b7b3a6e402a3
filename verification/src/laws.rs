//! What holds of the wire text whatever the metric, the namespace and the
//! tags are.

use vstd::prelude::*;
use crate::decimal::decimal;
use crate::metrics::{
    elapsed_millis, line, CountMetric, Event, GaugeMetric, HistogramMetric, Metric, SetMetric,
    TimeMetric, Timestamp, TimingMetric,
};
use crate::wire::{byte_len, join_tags, with_tags};

verus! {

/// A counter raised by `n` reads `stat:n|c`, for every `n`.
pub proof fn incr_text(metric: CountMetric)
    requires
        metric is Incr,
    ensures
        metric.body() == metric->Incr_0@ + ":"@ + decimal(metric->Incr_1 as nat) + "|c"@,
{
}

/// A counter lowered by nothing reads `stat:0|c`, without a sign; lowered by
/// `n` above zero it reads `stat:-n|c`.
pub proof fn decr_text(metric: CountMetric)
    requires
        metric is Decr,
    ensures
        metric->Decr_1 == 0 ==> metric.body() == metric->Decr_0@ + ":0|c"@,
        metric->Decr_1 > 0 ==> metric.body() == metric->Decr_0@ + ":-"@ + decimal(
            metric->Decr_1 as nat,
        ) + "|c"@,
{
}

/// A gauge, a histogram sample and a set member read `stat:value|g`,
/// `stat:value|h` and `stat:value|s`, with the value as it was given.
pub proof fn value_texts(gauge: GaugeMetric, histogram: HistogramMetric, set: SetMetric)
    ensures
        gauge.body() == gauge.stat@ + ":"@ + gauge.val@ + "|g"@,
        histogram.body() == histogram.stat@ + ":"@ + histogram.val@ + "|h"@,
        set.body() == set.stat@ + ":"@ + set.val@ + "|s"@,
{
}

/// An event reads `_e{T,B}:title|text`, where `T` and `B` are the numbers of
/// bytes that the title and the text take in UTF-8.
pub proof fn event_text(event: Event)
    ensures
        event.body() == "_e{"@ + decimal(byte_len(event.title@)) + ","@ + decimal(
            byte_len(event.text@),
        ) + "}:"@ + event.title@ + "|"@ + event.text@,
{
}

/// Without a namespace, the line of a metric is its body.
pub proof fn line_without_namespace<M: Metric>(metric: M)
    ensures
        line(&metric, None) == metric.body(),
{
}

/// Under a namespace, the line of a metric that takes one is the namespace,
/// a dot, and the body.
pub proof fn line_under_namespace<M: Metric>(metric: M, namespace: Seq<char>)
    requires
        metric.takes_namespace(),
    ensures
        line(&metric, Some(namespace)) == namespace + "."@ + metric.body(),
{
}

/// Every kind of metric takes the namespace.
pub proof fn metrics_take_namespace(
    count: CountMetric,
    time: TimeMetric,
    timing: TimingMetric,
    gauge: GaugeMetric,
    histogram: HistogramMetric,
    set: SetMetric,
)
    ensures
        count.takes_namespace(),
        time.takes_namespace(),
        timing.takes_namespace(),
        gauge.takes_namespace(),
        histogram.takes_namespace(),
        set.takes_namespace(),
{
}

/// The line of an event is its body, whether there is a namespace or not.
pub proof fn event_ignores_namespace(event: Event, namespace: Option<Seq<char>>)
    ensures
        line(&event, namespace) == event.body(),
{
}

/// Without tags, nothing is added to a line.
pub proof fn no_tags_add_nothing(line: Seq<char>)
    ensures
        with_tags(line, Seq::empty()) == line,
{
}

/// With tags, the line is followed by `|#` and the joined tags.
pub proof fn tags_follow_line(line: Seq<char>, tags: Seq<Seq<char>>)
    requires
        tags.len() > 0,
    ensures
        with_tags(line, tags) == line + "|#"@ + join_tags(tags),
{
}

/// A single tag is joined to itself.
pub proof fn join_of_one_tag(tag: Seq<char>)
    ensures
        join_tags(seq![tag]) == tag,
{
}

/// Joining keeps the order of the tags: the tags of `front` come first,
/// then a comma, then those of `back`.
pub proof fn join_keeps_order(front: Seq<Seq<char>>, back: Seq<Seq<char>>)
    requires
        front.len() > 0,
        back.len() > 0,
    ensures
        join_tags(front + back) == join_tags(front) + ","@ + join_tags(back),
    decreases back.len(),
{
    let all = front + back;
    assert(all.last() == back.last());
    if back.len() == 1 {
        assert(all.drop_last() =~= front);
    } else {
        assert(all.drop_last() =~= front + back.drop_last());
        join_keeps_order(front, back.drop_last());
        assert(join_tags(all) =~= join_tags(front) + ","@ + (join_tags(back.drop_last()) + ","@
            + back.last()));
    }
}

/// From a point in time to one that is not earlier, and wherever the two
/// lie a whole number of milliseconds apart, the elapsed milliseconds are
/// the nanoseconds between the two divided by a million and rounded down.
pub proof fn elapsed_millis_is_floor(start: Timestamp, end: Timestamp)
    requires
        end.nanos_since_epoch() >= start.nanos_since_epoch() || (end.nanos_since_epoch()
            - start.nanos_since_epoch()) % 1_000_000 == 0,
    ensures
        elapsed_millis(start, end) == (end.nanos_since_epoch() - start.nanos_since_epoch())
            / 1_000_000,
{
}

/// The elapsed milliseconds are the nanoseconds between the two points with
/// the fraction of a millisecond cut off, whichever of the two comes first.
pub proof fn elapsed_millis_cuts_towards_zero(start: Timestamp, end: Timestamp)
    ensures
        ({
            let nanos = end.nanos_since_epoch() - start.nanos_since_epoch();
            let ms = elapsed_millis(start, end);
            &&& nanos >= 0 ==> ms * 1_000_000 <= nanos < (ms + 1) * 1_000_000
            &&& nanos < 0 ==> (ms - 1) * 1_000_000 < nanos <= ms * 1_000_000
        }),
{
}

/// Swapping the two points changes the sign of the elapsed milliseconds and
/// nothing else.
pub proof fn elapsed_millis_backwards(start: Timestamp, end: Timestamp)
    ensures
        elapsed_millis(end, start) == -elapsed_millis(start, end),
{
}

/// A measured time is rendered as the timing of the elapsed milliseconds.
pub proof fn time_renders_as_timing(time: TimeMetric, timing: TimingMetric)
    requires
        time.stat@ == timing.stat@,
        elapsed_millis(time.start_time, time.end_time) == timing.ms,
    ensures
        time.body() == timing.body(),
{
}

/// Between a point in time and itself no time passes: the text is
/// `stat:0|ms`.
pub proof fn no_time_renders_zero(time: TimeMetric)
    requires
        time.start_time.nanos_since_epoch() == time.end_time.nanos_since_epoch(),
    ensures
        time.body() == time.stat@ + ":0|ms"@,
{
    reveal_strlit(":");
    reveal_strlit("|ms");
    reveal_strlit(":0|ms");
    assert(decimal(0) =~= seq!['0']);
    assert(time.body() =~= time.stat@ + ":0|ms"@);
}

} // verus!
