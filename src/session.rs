use crate::history::{key_spec, message_key, prefix_spec, utc_text_of};
use crate::model::{MessageData, Timestamp, UserAccount};
use crate::text::{space_index, space_index_spec, trim, trim_spec};
use vstd::prelude::*;
use vstd::string::*;

verus! {

/// The default channel: every session starts there and cannot leave it.
pub open spec fn general_spec() -> Seq<char> {
    "general"@
}

/// The reply to `/leave` from the default channel.
pub open spec fn stay_in_general_spec() -> Seq<char> {
    "Cannot leave the general channel. Use /join to select new channel."@
}

/// A line is a command when its first character is `/`.
pub open spec fn is_command(line: Seq<char>) -> bool {
    line.len() > 0 && line[0] == '/'
}

/// The command word: the trimmed line up to its first space.
pub open spec fn command_of(line: Seq<char>) -> Seq<char> {
    let t = trim_spec(line);
    t.subrange(0, space_index_spec(t))
}

/// What follows the first space of the trimmed line, if it has one.
pub open spec fn argument_of(line: Seq<char>) -> Option<Seq<char>> {
    let t = trim_spec(line);
    let k = space_index_spec(t);
    if k < t.len() {
        Some(t.subrange(k + 1, t.len() as int))
    } else {
        None
    }
}

/// The channel a session is in after `line`, having been in `channel`.
pub open spec fn next_channel(channel: Seq<char>, line: Seq<char>) -> Seq<char> {
    if !is_command(line) {
        channel
    } else if command_of(line) == "/join"@ {
        match argument_of(line) {
            Some(name) => name,
            None => channel,
        }
    } else if command_of(line) == "/leave"@ {
        general_spec()
    } else {
        channel
    }
}

/// The reply to the command `line`, sent from `channel`.
pub open spec fn command_reply(channel: Seq<char>, line: Seq<char>) -> Seq<char> {
    if command_of(line) == "/join"@ {
        match argument_of(line) {
            Some(name) => "Joined channel: "@ + name + "\n"@,
            None => "Usage: /join <channel>\n"@,
        }
    } else if command_of(line) == "/leave"@ {
        if channel == general_spec() {
            stay_in_general_spec()
        } else {
            "You have left "@ + channel + ". Joining general channel.."@
        }
    } else {
        "Unknown command: "@ + command_of(line)
    }
}

/// What the connection does after one line of input.
pub enum SessionAction {
    /// Send this text back.
    Reply { text: String },
    /// Store `message` under `key` in the channel store, then echo it framed.
    Chat { key: String, message: MessageData },
    /// End the session: the instant has no text to key the message with.
    Stop,
}

/// One authenticated connection: who it is, and the channel it is in.
pub struct Session {
    pub account: UserAccount,
    pub current_channel: String,
}

/// Relies on chrono's `Utc::now`, read as whole seconds and nanoseconds past
/// them; nothing is known of the instant.
#[verifier::external_body]
fn current_time() -> (r: Timestamp) {
    let now = chrono::Utc::now();
    Timestamp { secs: now.timestamp(), nanos: now.timestamp_subsec_nanos() }
}

impl Session {
    /// A session that has just authenticated as `account`, in the default channel.
    pub fn new(account: UserAccount) -> (r: Session)
        ensures
            r.account == account,
            r.current_channel@ == general_spec(),
    {
        Session { account, current_channel: String::from_str("general") }
    }

    /// The notice sent when the session enters its channel.
    pub fn join_notice(&self) -> (r: String)
        ensures
            r@ == "Joining channel: "@ + self.current_channel@ + "...\n"@,
    {
        String::from_str("Joining channel: ").concat(self.current_channel.as_str()).concat(
            "...\n",
        )
    }

    /// Interprets one line read from the connection at instant `now`: a
    /// command moves the channel and is answered; any other line becomes a
    /// message of the current channel, keyed for storage.
    pub fn handle_line(&mut self, line: &str, now: Timestamp) -> (r: SessionAction)
        ensures
            final(self).account == old(self).account,
            final(self).current_channel@ == next_channel(old(self).current_channel@, line@),
            is_command(line@) ==> (match r {
                SessionAction::Reply { text } => text@ == command_reply(
                    old(self).current_channel@,
                    line@,
                ),
                _ => false,
            }),
            !is_command(line@) ==> (match utc_text_of(now.secs as int, now.nanos as int) {
                Some(stamp) => match r {
                    SessionAction::Chat { key, message } => {
                        &&& key@ == key_spec(
                            old(self).current_channel@,
                            stamp,
                            old(self).account.uuid@,
                        )
                        &&& message.timestamp == now
                        &&& message.username@ == old(self).account.username@
                        &&& message.message@ == vstd::utf8::encode_utf8(line@)
                    },
                    _ => false,
                },
                None => r is Stop,
            }),
    {
        let n = line.unicode_len();
        if n > 0 && line.get_char(0) == '/' {
            let t = trim(line);
            let ts = t.as_str();
            let k = space_index(ts);
            let tn = ts.unicode_len();
            let command = ts.substring_char(0, k).to_string();
            if command == String::from_str("/join") {
                if k < tn {
                    let name = ts.substring_char(k + 1, tn);
                    self.current_channel = name.to_string();
                    SessionAction::Reply {
                        text: String::from_str("Joined channel: ").concat(name).concat("\n"),
                    }
                } else {
                    SessionAction::Reply { text: String::from_str("Usage: /join <channel>\n") }
                }
            } else if command == String::from_str("/leave") {
                if self.current_channel == String::from_str("general") {
                    SessionAction::Reply {
                        text: String::from_str(
                            "Cannot leave the general channel. Use /join to select new channel.",
                        ),
                    }
                } else {
                    let text = String::from_str("You have left ").concat(
                        self.current_channel.as_str(),
                    ).concat(". Joining general channel..");
                    self.current_channel = String::from_str("general");
                    SessionAction::Reply { text }
                }
            } else {
                SessionAction::Reply {
                    text: String::from_str("Unknown command: ").concat(command.as_str()),
                }
            }
        } else {
            match message_key(self.current_channel.as_str(), &now, self.account.uuid.as_str()) {
                Some(key) => SessionAction::Chat {
                    key,
                    message: MessageData {
                        timestamp: now,
                        username: self.account.username.clone(),
                        message: line.as_bytes_vec(),
                    },
                },
                None => SessionAction::Stop,
            }
        }
    }

    /// Interprets one line read from the connection now.
    pub fn handle_input(&mut self, line: &str) -> (r: SessionAction)
        ensures
            final(self).account == old(self).account,
            final(self).current_channel@ == next_channel(old(self).current_channel@, line@),
            is_command(line@) ==> (match r {
                SessionAction::Reply { text } => text@ == command_reply(
                    old(self).current_channel@,
                    line@,
                ),
                _ => false,
            }),
            !is_command(line@) ==> (match r {
                SessionAction::Chat { key, message } => {
                    &&& key@.len() > old(self).current_channel@.len()
                    &&& key@.subrange(0, old(self).current_channel@.len() + 1 as int) == prefix_spec(
                        old(self).current_channel@,
                    )
                    &&& message.username@ == old(self).account.username@
                    &&& message.message@ == vstd::utf8::encode_utf8(line@)
                },
                SessionAction::Stop => true,
                _ => false,
            }),
    {
        let now = current_time();
        let ghost channel = self.current_channel@;
        let r = self.handle_line(line, now);
        proof {
            if let Some(stamp) = utc_text_of(now.secs as int, now.nanos as int) {
                lemma_chat_key_has_channel_prefix(channel, stamp, self.account.uuid@);
            }
        }
        r
    }
}

/// Every message sent in a channel is stored under a key that starts with the
/// channel's replay prefix, so that a replay of that channel finds it.
pub proof fn lemma_chat_key_has_channel_prefix(
    channel: Seq<char>,
    stamp: Seq<char>,
    sender_id: Seq<char>,
)
    ensures
        key_spec(channel, stamp, sender_id).len() > channel.len(),
        key_spec(channel, stamp, sender_id).subrange(0, channel.len() + 1 as int) == prefix_spec(channel),
{
    reveal_strlit(":");
    assert(key_spec(channel, stamp, sender_id).subrange(0, channel.len() + 1 as int) =~= prefix_spec(
        channel,
    ));
}

} // verus!
