use dogstatsd::metrics::{GaugeMetric, Timestamp};
use dogstatsd::{Client, Options};

fn text(bytes: Vec<u8>) -> String {
    String::from_utf8(bytes).unwrap()
}

fn tags(tags: &[&str]) -> Vec<String> {
    tags.iter().map(|t| t.to_string()).collect()
}

#[test]
fn test_options_default() {
    let options = Options::default();
    let expected_options = Options {
        from_addr: "127.0.0.1:8126".into(),
        to_addr: "127.0.0.1:8125".into(),
        namespace: None,
    };

    assert_eq!(expected_options, options)
}

#[test]
fn test_socket() {
    let client = Client::new(Options::default());
    assert_eq!(None, client.namespace);
}

#[test]
fn test_send() {
    let options = Options::new("127.0.0.1:9001", "127.0.0.1:9002", "");
    let client = Client::new(options);
    let bytes = client.payload(
        &GaugeMetric::new("gauge".into(), "1234".into()),
        &tags(&["tag1", "tag2"]),
    );
    assert_eq!("gauge:1234|g|#tag1,tag2", text(bytes));
}

#[test]
fn options_keep_what_they_are_given() {
    let options = Options::new("127.0.0.1:9000", "10.1.2.3:8125", "analytics");
    assert_eq!("127.0.0.1:9000", options.from_addr);
    assert_eq!("10.1.2.3:8125", options.to_addr);
    assert_eq!(Some("analytics".to_string()), options.namespace);
}

#[test]
fn empty_namespace_is_no_namespace() {
    let options = Options::new("127.0.0.1:9000", "127.0.0.1:9001", "");
    assert_eq!(None, options.namespace);
    let client = Client::new(options);
    assert_eq!(None, client.namespace);
    assert_eq!("c:1|c", text(client.incr("c", vec![])));
}

#[test]
fn client_takes_the_namespace_of_its_options() {
    let client = Client::new(Options::new("a", "b", "web"));
    assert_eq!(Some("web".to_string()), client.namespace);
}

#[test]
fn gauge_under_a_namespace_with_tags() {
    let client = Client::new(Options::new("127.0.0.1:8126", "127.0.0.1:8125", "analytics"));
    let bytes = client.gauge("my_gauge", "12345", tags(&["tag:1", "tag:2"]));
    assert_eq!(b"analytics.my_gauge:12345|g|#tag:1,tag:2".to_vec(), bytes);
}

#[test]
fn decr_by_zero_has_no_sign() {
    let client = Client::new(Options::default());
    assert_eq!("counter:0|c", text(client.decr_by("counter", 0, vec![])));
}

#[test]
fn event_has_no_namespace() {
    let client = Client::new(Options::default());
    assert_eq!("_e{5,4}:Title|Body", text(client.event("Title", "Body", vec![])));

    let client = Client::new(Options::new("a", "b", "analytics"));
    assert_eq!("_e{5,4}:Title|Body", text(client.event("Title", "Body", vec![])));
    assert_eq!(
        "_e{5,4}:Title|Body|#tag:event",
        text(client.event("Title", "Body", tags(&["tag:event"])))
    );
}

#[test]
fn counters_step_by_one_or_by_an_amount() {
    let client = Client::new(Options::new("a", "b", "ns"));
    assert_eq!("ns.counter:1|c", text(client.incr("counter", vec![])));
    assert_eq!("ns.counter:-1|c", text(client.decr("counter", vec![])));
    assert_eq!(
        "ns.counter:42|c|#tag:counter",
        text(client.incr_by("counter", 42, tags(&["tag:counter"])))
    );
    assert_eq!(
        "ns.counter:-42|c|#tag:counter",
        text(client.decr_by("counter", 42, tags(&["tag:counter"])))
    );
    assert_eq!("ns.counter:0|c", text(client.incr_by("counter", 0, vec![])));
}

#[test]
fn every_kind_has_its_datagram() {
    let client = Client::new(Options::new("a", "b", "ns"));
    assert_eq!("ns.timing:350|ms|#tag:timing", text(client.timing("timing", 350, tags(&["tag:timing"]))));
    assert_eq!("ns.timing:-350|ms", text(client.timing("timing", -350, vec![])));
    assert_eq!("ns.gauge:12345|g|#tag:gauge", text(client.gauge("gauge", "12345", tags(&["tag:gauge"]))));
    assert_eq!(
        "ns.histogram:67890|h|#tag:histogram",
        text(client.histogram("histogram", "67890", tags(&["tag:histogram"])))
    );
    assert_eq!("ns.set:13579|s|#tag:set", text(client.set("set", "13579", tags(&["tag:set"]))));
}

#[test]
fn time_reports_the_elapsed_milliseconds() {
    let client = Client::new(Options::new("a", "b", "ns"));
    let start = Timestamp::new(100, 0);
    let end = Timestamp::new(100, 200_999_999);
    assert_eq!(
        "ns.timer:200|ms|#tag:time",
        text(client.time("timer", tags(&["tag:time"]), start, end))
    );
    assert_eq!("ns.timer:-200|ms", text(client.time("timer", vec![], end, start)));
    assert_eq!("ns.timer:0|ms", text(client.time("timer", vec![], end, end)));
}

#[test]
fn datagram_is_the_text_in_utf8() {
    let client = Client::new(Options::new("a", "b", "名前"));
    let bytes = client.gauge("température", "21", tags(&["lieu:été"]));
    assert_eq!("名前.température:21|g|#lieu:été".as_bytes().to_vec(), bytes);
    let bytes = client.event("héllo", "日本語", vec![]);
    assert_eq!("_e{6,9}:héllo|日本語".as_bytes().to_vec(), bytes);
}

#[test]
fn same_call_gives_the_same_datagram() {
    let client = Client::new(Options::new("a", "b", "ns"));
    let first = client.set("users", "u-1", tags(&["a", "b"]));
    let second = client.set("users", "u-1", tags(&["a", "b"]));
    assert_eq!(first, second);
}
