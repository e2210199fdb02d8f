use vstd::prelude::*;
use vstd::string::StringExecFns;
use crate::config::{Config, ConfigView};
use crate::utils::{starts_at, starts_with_at};

verus! {

/// The logical status of a thread, inferred from its observed name and
/// message count at a decision point, never stored.
#[derive(Clone, Copy, Debug, PartialEq, Eq, Structural)]
pub enum ThreadStatus {
    /// Name carries the inactivity marker: the thread was closed and is
    /// never reprocessed, whatever its message count.
    Closed,
    /// Name carries the activation marker: the thread is excluded from
    /// autonomous replies altogether.
    Excluded,
    /// Message count has reached the threshold: the thread must be closed.
    Overflowing,
    /// Open for replies.
    Active,
}

/// The status a name and count imply. A closed thread stays closed whatever
/// its count; exclusion comes next; then the count decides.
pub open spec fn status_spec(name: Seq<char>, message_count: u32, cfg: ConfigView) -> ThreadStatus {
    if starts_with_at(name, cfg.inactivate_prefix, 0) {
        ThreadStatus::Closed
    } else if starts_with_at(name, cfg.activate_prefix, 0) {
        ThreadStatus::Excluded
    } else if message_count >= cfg.max_thread_messages {
        ThreadStatus::Overflowing
    } else {
        ThreadStatus::Active
    }
}

/// Compute a thread's status from its observed name and message count.
pub fn thread_status(name: &str, message_count: u32, config: &Config) -> (r: ThreadStatus)
    ensures
        r == status_spec(name@, message_count, config@),
{
    if starts_at(name, config.inactivate_prefix.as_str(), 0) {
        ThreadStatus::Closed
    } else if starts_at(name, config.activate_prefix.as_str(), 0) {
        ThreadStatus::Excluded
    } else if message_count >= config.max_thread_messages {
        ThreadStatus::Overflowing
    } else {
        ThreadStatus::Active
    }
}

/// The notice posted when a thread is closed for excessive length.
pub open spec fn close_notice_spec() -> Seq<char> {
    "This thread has been closed due to too long message"@
}

/// What closing a thread amounts to: the rename to perform and the notice to
/// post afterwards.
#[derive(Debug)]
pub struct ClosePlan {
    pub new_name: String,
    pub notice: String,
}

/// Plan the close transition of a thread: prepend the inactivity marker to
/// its current name and announce the closure. The caller performs the rename
/// and posts the notice; callers must check the status first, renaming an
/// already-closed thread is a caller error.
pub fn close_thread(current_name: &str, config: &Config) -> (r: ClosePlan)
    ensures
        r.new_name@ == config@.inactivate_prefix + current_name@,
        r.notice@ == close_notice_spec(),
{
    let new_name = String::from_str(config.inactivate_prefix.as_str()).concat(current_name);
    let notice = String::from_str("This thread has been closed due to too long message");
    ClosePlan { new_name, notice }
}

/// Law: a thread renamed by `close_thread` is `Closed` at every later
/// decision point, whatever its message count, so a closed thread is never
/// processed again.
pub proof fn lemma_close_makes_closed(name: Seq<char>, message_count: u32, cfg: ConfigView)
    ensures
        status_spec(cfg.inactivate_prefix + name, message_count, cfg) == ThreadStatus::Closed,
{
    assert((cfg.inactivate_prefix + name).subrange(0, cfg.inactivate_prefix.len() as int)
        =~= cfg.inactivate_prefix);
}

} // verus!
