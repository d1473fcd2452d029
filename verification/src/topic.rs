//! Bus topic handling: parsing the audience out of an event topic, and
//! building the topics the gateway publishes and subscribes on.
//!
//! An event topic has the shape `.../audiences/{AUDIENCE}/events`, read as a
//! path: segments are separated by `/`, and the topic is normalized the way
//! path components are — empty segments (repeated or trailing separators)
//! and `.` segments are dropped. Of the segments that survive, the final one
//! must be the literal `events`, the one before it is the audience name, and
//! the one before that must be the literal `audiences`. The audience must be
//! a plain segment: `..` is refused.

use vstd::prelude::*;

use crate::error::{ErrorKind, GatewayError};
use crate::identity::{account_text, agent_text, AccountId, AgentId};

verus! {

/// Start of the segment that ends just before position `end`: the smallest
/// index `i` such that `s` has no `/` between `i` and `end`.
pub open spec fn seg_start(s: Seq<char>, end: int) -> int
    recommends
        0 <= end <= s.len(),
    decreases end,
{
    if end <= 0 {
        0
    } else if s[end - 1] == '/' {
        end
    } else {
        seg_start(s, end - 1)
    }
}

/// End of the last segment at or before the boundary `end` that survives
/// path normalization, scanning backwards: empty segments (a `/` right
/// before the boundary) and `.` segments are skipped; `None` if every
/// segment up to the start of the text is dropped.
pub open spec fn last_kept_end(t: Seq<char>, end: int) -> Option<int>
    recommends
        end <= t.len(),
    decreases end + 1,
{
    if end <= 0 {
        None
    } else if t[end - 1] == '/' {
        last_kept_end(t, end - 1)
    } else if t[end - 1] == '.' && (end == 1 || t[end - 2] == '/') {
        last_kept_end(t, end - 2)
    } else {
        Some(end)
    }
}

/// The audience named by an event topic, if the topic has the required
/// shape `.../audiences/{AUDIENCE}/events`; `None` otherwise. The topic is
/// read as a path: of the segments that survive normalization (empty and
/// `.` segments dropped), the last must be `events`, the third-to-last must
/// be `audiences`, and the one between them — which may not be the
/// parent-directory segment `..` — is the audience.
pub open spec fn audience_of(t: Seq<char>) -> Option<Seq<char>> {
    let n = t.len() as int;
    match last_kept_end(t, n) {
        Option::None => None,
        Option::Some(events_end) => {
            let events_start = seg_start(t, events_end);
            if t.subrange(events_start, events_end) != "events"@ || events_start == 0 {
                None
            } else {
                match last_kept_end(t, events_start - 1) {
                    Option::None => None,
                    Option::Some(aud_end) => {
                        let aud_start = seg_start(t, aud_end);
                        if t.subrange(aud_start, aud_end) == ".."@ || aud_start == 0 {
                            None
                        } else {
                            match last_kept_end(t, aud_start - 1) {
                                Option::None => None,
                                Option::Some(third_end) => {
                                    let third_start = seg_start(t, third_end);
                                    if t.subrange(third_start, third_end) == "audiences"@ {
                                        Some(t.subrange(aud_start, aud_end))
                                    } else {
                                        None
                                    }
                                },
                            }
                        }
                    },
                }
            }
        },
    }
}

/// A stretch free of separators that begins right after a separator (or at
/// the start of the text) is one segment: its start is the segment start of
/// every position inside it.
pub proof fn lemma_seg_start_after_slash(s: Seq<char>, j: int, end: int)
    requires
        0 <= j <= end <= s.len(),
        j == 0 || s[j - 1] == '/',
        forall|k: int| j <= k < end ==> s[k] != '/',
    ensures
        seg_start(s, end) == j,
    decreases end - j,
{
    if end > j {
        lemma_seg_start_after_slash(s, j, end - 1);
    }
}

/// End of the last segment of `topic` at or before the boundary `end` that
/// survives path normalization.
fn find_last_kept_end(topic: &str, end: usize) -> (r: Option<usize>)
    requires
        end <= topic@.len(),
    ensures
        match r {
            Some(e) => last_kept_end(topic@, end as int) == Some(e as int) && 0 < e <= end,
            None => last_kept_end(topic@, end as int) is None,
        },
{
    let mut i: usize = end;
    loop
        invariant
            i <= end <= topic@.len(),
            last_kept_end(topic@, end as int) == last_kept_end(topic@, i as int),
        decreases i,
    {
        if i == 0 {
            return None;
        }
        let c = topic.get_char(i - 1);
        if c == '/' {
            i = i - 1;
        } else if c == '.' && (i == 1 || topic.get_char(i - 2) == '/') {
            if i == 1 {
                proof {
                    assert(last_kept_end(topic@, -1) is None);
                }
                return None;
            }
            i = i - 2;
        } else {
            return Some(i);
        }
    }
}

/// Start of the segment of `topic` that ends just before position `end`.
fn find_seg_start(topic: &str, end: usize) -> (i: usize)
    requires
        end <= topic@.len(),
    ensures
        i as int == seg_start(topic@, end as int),
        i <= end,
{
    let mut i: usize = end;
    while i > 0 && topic.get_char(i - 1) != '/'
        invariant
            i <= end <= topic@.len(),
            seg_start(topic@, end as int) == seg_start(topic@, i as int),
        decreases i,
    {
        i = i - 1;
    }
    i
}

/// The text of a parse failure: the expected pattern and the offending
/// topic.
pub open spec fn pattern_detail(topic: Seq<char>) -> Seq<char> {
    "topic does not match the pattern 'audiences/AUDIENCE/events': "@ + topic
}

/// A parse failure naming the expected pattern and the offending topic.
fn pattern_error(topic: &str) -> (r: GatewayError)
    ensures
        r.kind == ErrorKind::Parse,
        r.detail@ == pattern_detail(topic@),
{
    let mut detail = String::from_str(
        "topic does not match the pattern 'audiences/AUDIENCE/events': ",
    );
    detail.append(topic);
    GatewayError::new(ErrorKind::Parse, detail)
}

/// Parses the audience out of an event topic. Succeeds exactly on topics
/// whose normalized segments end with `audiences`, a plain audience name,
/// and `events`, and returns the audience segment as it stands in the
/// topic; any other topic is rejected with a parse failure.
pub fn extract_audience(topic: &str) -> (r: Result<String, GatewayError>)
    ensures
        match r {
            Ok(aud) => audience_of(topic@) == Some(aud@),
            Err(e) => {
                &&& audience_of(topic@) is None
                &&& e.kind == ErrorKind::Parse
                &&& e.detail@ == pattern_detail(topic@)
            },
        },
{
    let n = topic.unicode_len();
    let events_end = match find_last_kept_end(topic, n) {
        Some(e) => e,
        None => {
            return Err(pattern_error(topic));
        },
    };
    let events_start = find_seg_start(topic, events_end);
    let events_segment = String::from_str(topic.substring_char(events_start, events_end));
    if !(events_segment == String::from_str("events")) || events_start == 0 {
        return Err(pattern_error(topic));
    }
    let aud_end = match find_last_kept_end(topic, events_start - 1) {
        Some(e) => e,
        None => {
            return Err(pattern_error(topic));
        },
    };
    let aud_start = find_seg_start(topic, aud_end);
    let audience = String::from_str(topic.substring_char(aud_start, aud_end));
    if audience == String::from_str("..") || aud_start == 0 {
        return Err(pattern_error(topic));
    }
    let third_end = match find_last_kept_end(topic, aud_start - 1) {
        Some(e) => e,
        None => {
            return Err(pattern_error(topic));
        },
    };
    let third_start = find_seg_start(topic, third_end);
    let third_segment = String::from_str(topic.substring_char(third_start, third_end));
    if third_segment == String::from_str("audiences") {
        Ok(audience)
    } else {
        Err(pattern_error(topic))
    }
}

/// The relative event topic for an audience: `audiences/{AUDIENCE}/events`.
pub open spec fn events_topic_text(aud: Seq<char>) -> Seq<char> {
    "audiences/"@ + aud + "/events"@
}

/// Builds the relative event topic the gateway subscribes on for an
/// audience.
pub fn events_topic(audience: &str) -> (r: String)
    ensures
        r@ == events_topic_text(audience@),
{
    let mut out = String::from_str("audiences/");
    out.append(audience);
    out.append("/events");
    out
}

/// Parsing inverts building: a topic built for a plain audience — one that
/// is not empty, not `.` or `..`, and free of separators — under any prefix
/// that is empty or ends at a segment boundary, names exactly that
/// audience.
pub proof fn lemma_events_topic_round_trip(prefix: Seq<char>, aud: Seq<char>)
    requires
        !aud.contains('/'),
        aud.len() > 0,
        aud != "."@,
        aud != ".."@,
        prefix.len() == 0 || prefix.last() == '/',
    ensures
        audience_of(prefix + events_topic_text(aud)) == Some(aud),
{
    reveal_strlit("audiences/");
    reveal_strlit("/events");
    reveal_strlit("events");
    reveal_strlit("audiences");
    reveal_strlit(".");
    reveal_strlit("..");
    let t = prefix + events_topic_text(aud);
    let p = prefix.len() as int;
    let a = aud.len() as int;
    let n = t.len() as int;
    // Segment boundaries: `audiences` spans [p, p + 9), the audience spans
    // [p + 10, p + 10 + a), and `events` spans [p + 11 + a, n).
    assert(n == p + 17 + a);
    assert(t[n - 1] == "/events"@[6]);
    assert(last_kept_end(t, n) == Some(n));
    assert forall|k: int| p + 11 + a <= k < n implies t[k] != '/' by {
        assert(t[k] == "/events"@[k - (p + 10 + a)]);
    }
    assert(t[p + 10 + a] == "/events"@[0]);
    lemma_seg_start_after_slash(t, p + 11 + a, n);
    assert(t.subrange(p + 11 + a, n) =~= "events"@);
    assert forall|k: int| p + 10 <= k < p + 10 + a implies t[k] != '/' by {
        assert(t[k] == aud[k - (p + 10)]);
        assert(!aud.contains('/'));
    }
    // The audience's last character: not a separator, and if it is a dot it
    // is preceded by another audience character, never by a boundary — the
    // audience being neither `.` nor containing `/`.
    assert(t[p + 9 + a] == aud[a - 1]);
    if aud[a - 1] == '.' {
        if a == 1 {
            assert(aud =~= "."@);
        }
        assert(a >= 2);
        assert(t[p + 8 + a] == aud[a - 2]);
    }
    assert(last_kept_end(t, p + 10 + a) == Some(p + 10 + a));
    assert(t[p + 9] == "audiences/"@[9]);
    lemma_seg_start_after_slash(t, p + 10, p + 10 + a);
    assert(t.subrange(p + 10, p + 10 + a) =~= aud);
    assert(t[p + 8] == "audiences/"@[8]);
    assert(last_kept_end(t, p + 9) == Some(p + 9));
    assert forall|k: int| p <= k < p + 9 implies t[k] != '/' by {
        assert(t[k] == "audiences/"@[k - p]);
    }
    if p != 0 {
        assert(t[p - 1] == prefix.last());
    }
    lemma_seg_start_after_slash(t, p, p + 9);
    assert(t.subrange(p, p + 9) =~= "audiences"@);
}

/// The unicast response topic an agent receives its responses on:
/// `agents/{AGENT}/api/v1/in/{DESTINATION}`.
pub open spec fn response_topic_text(me: &AgentId, destination: &AccountId) -> Seq<char> {
    "agents/"@ + agent_text(me) + "/api/v1/in/"@ + account_text(destination)
}

/// Builds the response topic for a request sent by `me` to `destination`.
pub fn response_topic(me: &AgentId, destination: &AccountId) -> (r: String)
    ensures
        r@ == response_topic_text(me, destination),
{
    let mut out = String::from_str("agents/");
    out.append(me.to_text().as_str());
    out.append("/api/v1/in/");
    out.append(destination.to_text().as_str());
    out
}

} // verus!
