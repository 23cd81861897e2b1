//! Message batches: from what the service delivers to what a chat shows.

use vstd::prelude::*;
use crate::app::MessageInfo;

verus! {

/// The name shown for a sender or a chat whose name the service did not give.
pub const UNKNOWN_NAME: &'static str = "Unknown";

/// A message as the service delivers it.
#[derive(Debug, Clone)]
pub struct RawMessage {
    /// The identifier that the service gave the message.
    pub id: i32,
    pub text: String,
    /// The sender's display name, where the service resolved one.
    pub sender: Option<String>,
    /// When the message was sent, in seconds since the epoch.
    pub timestamp: i64,
    /// The same instant, formatted for display.
    pub date: String,
}

/// The name to show: the given one, or the sentinel where none was given.
pub open spec fn display_name(name: Option<String>) -> Seq<char> {
    match name {
        Some(given) => given@,
        None => UNKNOWN_NAME@,
    }
}

/// Whether `info` is the record that shows `raw`.
pub open spec fn shows(info: MessageInfo, raw: RawMessage) -> bool {
    &&& info.id == raw.id
    &&& info.text@ == raw.text@
    &&& info.sender@ == display_name(raw.sender)
    &&& info.date@ == raw.date@
}

/// How many items of a delivery of `len` items are kept under `limit`.
pub open spec fn kept(len: int, limit: int) -> int {
    if len <= limit {
        len
    } else {
        limit
    }
}

/// Whether `batch` shows the first `limit` messages of `raw`, in the
/// opposite order: its first record shows the last message that was kept.
pub open spec fn is_history_of(batch: Seq<MessageInfo>, raw: Seq<RawMessage>, limit: int) -> bool {
    &&& batch.len() == kept(raw.len() as int, limit)
    &&& forall|i: int|
        0 <= i < batch.len() ==> shows(#[trigger] batch[i], raw[batch.len() - 1 - i])
}

/// Whether no message of `raw` is older than one that follows it.
pub open spec fn newest_first(raw: Seq<RawMessage>) -> bool {
    forall|i: int, j: int| 0 <= i <= j < raw.len() ==> raw[i].timestamp >= raw[j].timestamp
}

/// The given name, or the sentinel.
pub fn name_or_unknown(name: &Option<String>) -> (shown: String)
    ensures
        shown@ == display_name(*name),
{
    match name {
        Some(given) => given.clone(),
        None => UNKNOWN_NAME.to_string(),
    }
}

/// The record that shows one message.
pub fn record_of(raw: &RawMessage) -> (info: MessageInfo)
    ensures
        shows(info, *raw),
{
    MessageInfo {
        id: raw.id,
        text: raw.text.clone(),
        sender: name_or_unknown(&raw.sender),
        date: raw.date.clone(),
    }
}

/// Turns a delivery, newest message first, into the batch that a chat
/// shows, oldest message first. At most `limit` messages are kept: those
/// that were delivered first.
pub fn chronological(raw: &Vec<RawMessage>, limit: usize) -> (batch: Vec<MessageInfo>)
    ensures
        is_history_of(batch@, raw@, limit as int),
{
    let n: usize = if raw.len() <= limit { raw.len() } else { limit };
    let mut batch: Vec<MessageInfo> = Vec::new();
    let mut i: usize = n;
    while i > 0
        invariant
            i <= n <= raw@.len(),
            batch@.len() == n - i,
            forall|k: int| 0 <= k < batch@.len() ==> shows(#[trigger] batch@[k], raw@[n - 1 - k]),
        decreases i,
    {
        i = i - 1;
        batch.push(record_of(&raw[i]));
    }
    batch
}

/// A batch made from a delivery that came newest first is in chronological
/// order: of two records, the one that stands first shows the message that
/// is not the later one.
pub proof fn lemma_batch_is_oldest_first(
    batch: Seq<MessageInfo>,
    raw: Seq<RawMessage>,
    limit: int,
    i: int,
    j: int,
)
    requires
        newest_first(raw),
        is_history_of(batch, raw, limit),
        0 <= i <= j < batch.len(),
    ensures
        shows(batch[i], raw[batch.len() - 1 - i]),
        shows(batch[j], raw[batch.len() - 1 - j]),
        raw[batch.len() - 1 - i].timestamp <= raw[batch.len() - 1 - j].timestamp,
{
}

} // verus!
