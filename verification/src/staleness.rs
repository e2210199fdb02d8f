use vstd::prelude::*;

verus! {

/// What a staleness check needs next: nothing, because the reference message
/// is still the newest known one, or the author of the newest message, which
/// must be fetched from the channel.
#[derive(Clone, Copy, Debug, PartialEq, Eq, Structural)]
pub enum StalenessStep {
    NotStale,
    FetchAuthor { message_id: u64 },
}

/// Staleness once every input is at hand: the attempt is stale iff a message
/// newer than the reference exists and a human, not the bot, posted it.
pub open spec fn stale_spec(
    interaction_message: u64,
    last_message: u64,
    last_author: u64,
    bot_id: u64,
) -> bool {
    interaction_message != last_message && last_author != bot_id
}

/// Decide whether the message an attempt reacts to may be stale. When the
/// reference message is the newest known message the answer is `NotStale`,
/// with no fetch requested; otherwise the newest message's author must be
/// fetched and judged by `is_stale_for_author`.
pub fn is_last_message_stale(interaction_message: u64, last_message: u64) -> (r: StalenessStep)
    ensures
        interaction_message == last_message ==> r is NotStale,
        interaction_message != last_message ==> r == (StalenessStep::FetchAuthor {
            message_id: last_message,
        }),
{
    if interaction_message != last_message {
        StalenessStep::FetchAuthor { message_id: last_message }
    } else {
        StalenessStep::NotStale
    }
}

/// Judge the fetched author of the newest message: the attempt is stale iff
/// that author is not the bot itself.
pub fn is_stale_for_author(author_id: u64, bot_id: u64) -> (r: bool)
    ensures
        r == (author_id != bot_id),
{
    author_id != bot_id
}

/// Law: the two steps together compute `stale_spec`, and the author is only
/// ever needed when the reference is no longer the newest message.
pub proof fn lemma_staleness_protocol(
    interaction_message: u64,
    last_message: u64,
    last_author: u64,
    bot_id: u64,
)
    ensures
        interaction_message == last_message ==> !stale_spec(
            interaction_message,
            last_message,
            last_author,
            bot_id,
        ),
        interaction_message != last_message ==> stale_spec(
            interaction_message,
            last_message,
            last_author,
            bot_id,
        ) == (last_author != bot_id),
{
}

} // verus!
