use crate::model::{before, MessageData, Timestamp};
use vstd::prelude::*;
use vstd::string::*;

verus! {

broadcast use vstd::seq_lib::group_to_multiset_ensures;

/// The text that chrono's `Display` gives for the UTC instant `secs`, `nanos`,
/// or `None` where chrono cannot represent that instant.
pub uninterp spec fn utc_text_of(secs: int, nanos: int) -> Option<Seq<char>>;

/// Relies on chrono's `DateTime::<Utc>::from_timestamp` (which returns `None`
/// outside chrono's range) and on the `Display` of `DateTime<Utc>`: the text
/// depends on the two numbers alone.
#[verifier::external_body]
fn utc_text(t: &Timestamp) -> (r: Option<String>)
    ensures
        match r {
            Some(s) => utc_text_of(t.secs as int, t.nanos as int) == Some(s@),
            None => utc_text_of(t.secs as int, t.nanos as int) is None,
        },
{
    match chrono::DateTime::<chrono::Utc>::from_timestamp(t.secs, t.nanos) {
        Some(d) => Some(d.to_string()),
        None => None,
    }
}

/// The channel store's key of a message: channel, instant and sender id,
/// separated by colons.
pub open spec fn key_spec(channel: Seq<char>, stamp: Seq<char>, sender_id: Seq<char>) -> Seq<
    char,
> {
    channel + ":"@ + stamp + ":"@ + sender_id
}

/// The key prefix shared by every message of `channel`.
pub open spec fn prefix_spec(channel: Seq<char>) -> Seq<char> {
    channel + ":"@
}

/// The key under which the message at `stamp` (already in text) by `sender_id` is stored.
pub fn compose_key(channel: &str, stamp: &str, sender_id: &str) -> (r: String)
    ensures
        r@ == key_spec(channel@, stamp@, sender_id@),
{
    String::from_str(channel).concat(":").concat(stamp).concat(":").concat(sender_id)
}

/// The key under which the message sent at `t` by `sender_id` into `channel` is
/// stored; `None` where the instant has no text.
pub fn message_key(channel: &str, t: &Timestamp, sender_id: &str) -> (r: Option<String>)
    ensures
        match utc_text_of(t.secs as int, t.nanos as int) {
            Some(stamp) => r is Some && r->0@ == key_spec(channel@, stamp, sender_id@),
            None => r is None,
        },
{
    match utc_text(t) {
        Some(stamp) => Some(compose_key(channel, stamp.as_str(), sender_id)),
        None => None,
    }
}

/// The prefix to scan for when replaying `channel`.
pub fn history_prefix(channel: &str) -> (r: String)
    ensures
        r@ == prefix_spec(channel@),
{
    String::from_str(channel).concat(":")
}

/// A serialized message as it goes on the wire: `JSON:`, the record, a newline.
pub fn frame_chat(json: &str) -> (r: String)
    ensures
        r@ == "JSON:"@ + json@ + "\n"@,
{
    String::from_str("JSON:").concat(json).concat("\n")
}

/// No message of `s` comes before one that precedes it.
pub open spec fn sorted_by_time(s: Seq<MessageData>) -> bool {
    forall|i: int, j: int|
        0 <= i < j < s.len() ==> !before(#[trigger] s[j].timestamp, #[trigger] s[i].timestamp)
}

/// `output` holds the messages of `input`, each as often, in timestamp order.
pub open spec fn is_replay_order(input: Seq<MessageData>, output: Seq<MessageData>) -> bool {
    &&& sorted_by_time(output)
    &&& output.to_multiset() == input.to_multiset()
}

/// The messages of a channel in the order in which they are replayed: by
/// timestamp, and those with equal timestamps in the order given (stable).
pub fn replay_order(messages: Vec<MessageData>) -> (r: Vec<MessageData>)
    ensures
        is_replay_order(messages@, r@),
{
    let ghost all = messages@;
    let mut rest = messages;
    let mut out: Vec<MessageData> = Vec::new();
    while rest.len() > 0
        invariant
            sorted_by_time(out@),
            out@.to_multiset().add(rest@.to_multiset()) == all.to_multiset(),
        decreases rest.len(),
    {
        let ghost before_rest = rest@;
        let m = rest.remove(0);
        assert(before_rest.to_multiset() == rest@.to_multiset().insert(m)) by {
            assert(before_rest.remove(0) == rest@);
        }
        let mut pos: usize = 0;
        while pos < out.len() && !m.timestamp.is_before(&out[pos].timestamp)
            invariant
                pos <= out.len(),
                forall|k: int| 0 <= k < pos ==> !before(m.timestamp, #[trigger] out@[k].timestamp),
            decreases out.len() - pos,
        {
            pos = pos + 1;
        }
        let ghost prev = out@;
        out.insert(pos, m);
        assert(out@ == prev.insert(pos as int, m));
        assert(sorted_by_time(out@)) by {
            assert forall|i: int, j: int| 0 <= i < j < out@.len() implies !before(
                #[trigger] out@[j].timestamp,
                #[trigger] out@[i].timestamp,
            ) by {
                if j < pos {
                } else if j == pos {
                } else if i < pos {
                    assert(out@[j] == prev[j - 1]);
                    assert(!before(prev[j - 1].timestamp, prev[i].timestamp));
                } else if i == pos {
                    assert(out@[j] == prev[j - 1]);
                    assert(before(m.timestamp, prev[pos as int].timestamp));
                    assert(!before(prev[j - 1].timestamp, prev[pos as int].timestamp));
                } else {
                    assert(!before(prev[j - 1].timestamp, prev[i - 1].timestamp));
                }
            }
        }
        assert(out@.to_multiset().add(rest@.to_multiset()) =~= all.to_multiset());
    }
    assert(rest@.to_multiset() =~= vstd::multiset::Multiset::empty());
    assert(out@.to_multiset() =~= all.to_multiset());
    out
}

/// Two messages of a channel whose timestamps differ are replayed earlier one
/// first, whichever order they were stored in.
pub proof fn lemma_replay_two_in_time_order(
    m1: MessageData,
    m2: MessageData,
    input: Seq<MessageData>,
    output: Seq<MessageData>,
)
    requires
        before(m1.timestamp, m2.timestamp),
        input == seq![m1, m2] || input == seq![m2, m1],
        is_replay_order(input, output),
    ensures
        output == seq![m1, m2],
{
    assert(input.contains(m1) && input.contains(m2)) by {
        if input == seq![m1, m2] {
            assert(input[0] == m1 && input[1] == m2);
        } else {
            assert(input[1] == m1 && input[0] == m2);
        }
    }
    assert(input.to_multiset().count(m1) > 0);
    assert(input.to_multiset().count(m2) > 0);
    assert(output.contains(m1));
    assert(output.contains(m2));
    assert(input.len() == 2);
    assert(input.to_multiset().len() == 2);
    assert(output.to_multiset().len() == output.len());
    assert(output.len() == 2);
    let a = choose|k: int| 0 <= k < output.len() && output[k] == m1;
    let b = choose|k: int| 0 <= k < output.len() && output[k] == m2;
    assert(m1 != m2);
    if a == 1 {
        assert(b == 0);
        assert(!before(output[1].timestamp, output[0].timestamp));
    }
    assert(a == 0 && b == 1);
    assert(output =~= seq![m1, m2]);
}

/// A channel with no stored message replays nothing.
pub proof fn lemma_replay_of_empty_history(output: Seq<MessageData>)
    requires
        is_replay_order(Seq::empty(), output),
    ensures
        output.len() == 0,
{
    assert(output.to_multiset().len() == 0);
}

} // verus!
