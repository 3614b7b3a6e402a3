//! The datagram text: how a metric body, a namespace and tags are put
//! together.

use vstd::prelude::*;
use vstd::string::*;
use vstd::utf8::encode_utf8;
use crate::decimal::{decimal, signed_decimal};

verus! {

/// The number of bytes that `text` takes in UTF-8.
pub open spec fn byte_len(text: Seq<char>) -> nat {
    encode_utf8(text).len()
}

/// A counter raised by `amount`: `stat:amount|c`.
pub open spec fn incr_body(stat: Seq<char>, amount: nat) -> Seq<char> {
    stat + ":"@ + decimal(amount) + "|c"@
}

/// A counter lowered by `amount`: `stat:-amount|c`, and `stat:0|c`, without
/// a sign, where `amount` is zero.
pub open spec fn decr_body(stat: Seq<char>, amount: nat) -> Seq<char> {
    if amount == 0 {
        stat + ":0|c"@
    } else {
        stat + ":-"@ + decimal(amount) + "|c"@
    }
}

/// A gauge: `stat:value|g`.
pub open spec fn gauge_body(stat: Seq<char>, value: Seq<char>) -> Seq<char> {
    stat + ":"@ + value + "|g"@
}

/// A histogram sample: `stat:value|h`.
pub open spec fn histogram_body(stat: Seq<char>, value: Seq<char>) -> Seq<char> {
    stat + ":"@ + value + "|h"@
}

/// A set member: `stat:value|s`.
pub open spec fn set_body(stat: Seq<char>, value: Seq<char>) -> Seq<char> {
    stat + ":"@ + value + "|s"@
}

/// A duration of `ms` milliseconds: `stat:ms|ms`.
pub open spec fn timing_body(stat: Seq<char>, ms: int) -> Seq<char> {
    stat + ":"@ + signed_decimal(ms) + "|ms"@
}

/// An event: `_e{T,B}:title|text`, where `T` and `B` are the numbers of
/// bytes, not of characters, of the title and of the text.
pub open spec fn event_body(title: Seq<char>, text: Seq<char>) -> Seq<char> {
    "_e{"@ + decimal(byte_len(title)) + ","@ + decimal(byte_len(text)) + "}:"@ + title + "|"@
        + text
}

/// `body` behind the namespace and a dot, or `body` alone where there is no
/// namespace.
pub open spec fn with_namespace(namespace: Option<Seq<char>>, body: Seq<char>) -> Seq<char> {
    match namespace {
        Some(ns) => ns + "."@ + body,
        None => body,
    }
}

/// The text under a namespace, without tags: the body behind the namespace
/// where the kind of metric takes one, else the body alone.
pub open spec fn line_text(
    takes_namespace: bool,
    namespace: Option<Seq<char>>,
    body: Seq<char>,
) -> Seq<char> {
    if takes_namespace {
        with_namespace(namespace, body)
    } else {
        body
    }
}

/// The tags in their given order, with a comma between neighbours.
pub open spec fn join_tags(tags: Seq<Seq<char>>) -> Seq<char>
    decreases tags.len(),
{
    if tags.len() == 0 {
        Seq::empty()
    } else if tags.len() == 1 {
        tags[0]
    } else {
        join_tags(tags.drop_last()) + ","@ + tags.last()
    }
}

/// `line` followed by `|#` and the joined tags, or `line` alone where there
/// is no tag.
pub open spec fn with_tags(line: Seq<char>, tags: Seq<Seq<char>>) -> Seq<char> {
    if tags.len() == 0 {
        line
    } else {
        line + "|#"@ + join_tags(tags)
    }
}

/// The text of each tag of a slice.
pub open spec fn tag_views(tags: Seq<&str>) -> Seq<Seq<char>> {
    tags.map_values(|t: &str| t@)
}

/// The text of each tag of a list of owned tags.
pub open spec fn string_views(tags: Seq<String>) -> Seq<Seq<char>> {
    tags.map_values(|t: String| t@)
}

/// The bytes of one datagram: the line with its tags, in UTF-8.
pub open spec fn datagram(line: Seq<char>, tags: Seq<Seq<char>>) -> Seq<u8> {
    encode_utf8(with_tags(line, tags))
}

/// The text of a namespace argument.
pub open spec fn namespace_view(namespace: Option<&str>) -> Option<Seq<char>> {
    match namespace {
        Some(ns) => Some(ns@),
        None => None,
    }
}

/// Puts the namespace and a dot in front of a rendered body.
pub fn prefix_namespace(namespace: Option<&str>, body: String) -> (line: String)
    ensures
        line@ == with_namespace(namespace_view(namespace), body@),
{
    match namespace {
        Some(ns) => {
            let mut line = String::from_str(ns);
            line.append(".");
            line.append(body.as_str());
            assert(line@ == ns@ + "."@ + body@);
            line
        },
        None => body,
    }
}

/// Appends `|#` and the comma-separated tags to a rendered line; a line
/// without tags is returned as it is.
pub fn append_tags(line: String, tags: &[&str]) -> (tagged: String)
    ensures
        tagged@ == with_tags(line@, tag_views(tags@)),
{
    let mut out = line;
    if tags.len() == 0 {
        return out;
    }
    let ghost views = tag_views(tags@);
    out.append("|#");
    out.append(tags[0]);
    assert(views.take(1) =~= seq![tags@[0]@]);
    let mut i: usize = 1;
    while i < tags.len()
        invariant
            1 <= i <= tags.len(),
            views == tag_views(tags@),
            out@ == line@ + "|#"@ + join_tags(views.take(i as int)),
        decreases tags.len() - i,
    {
        out.append(",");
        out.append(tags[i]);
        proof {
            let next = views.take(i + 1);
            assert(next.drop_last() =~= views.take(i as int));
            assert(next.last() == tags@[i as int]@);
            assert(out@ =~= line@ + "|#"@ + join_tags(next));
        }
        i = i + 1;
    }
    assert(views.take(i as int) =~= views);
    out
}

} // verus!
