use vstd::prelude::*;

verus! {

/// Mathematical model of the fixed configuration: every string field as a
/// sequence of characters.
pub struct ConfigView {
    pub bot_name: Seq<char>,
    pub instructions: Seq<char>,
    pub activate_prefix: Seq<char>,
    pub inactivate_prefix: Seq<char>,
    pub max_thread_messages: u32,
    pub seconds_delay_receiving_msg: u64,
    pub max_chars_per_reply_msg: usize,
    pub bot_id: u64,
}

impl ConfigView {
    /// Well-formed settings: replies are split into non-empty chunks, and the
    /// two thread-name markers are non-empty (an empty marker would match
    /// every name).
    pub open spec fn wf(&self) -> bool {
        &&& self.max_chars_per_reply_msg >= 1
        &&& self.activate_prefix.len() >= 1
        &&& self.inactivate_prefix.len() >= 1
    }
}

/// The settings the orchestrator consumes but does not own: thresholds,
/// delays, the bot's identity and the thread-name markers. Built once at
/// process start and passed read-only into every component that needs it.
pub struct Config {
    /// Display name the bot speaks under.
    pub bot_name: String,
    /// Base system instruction text handed to the completion engine.
    pub instructions: String,
    /// Thread-name marker of threads excluded from autonomous replies.
    pub activate_prefix: String,
    /// Thread-name marker prepended when a thread is closed.
    pub inactivate_prefix: String,
    /// Message-count threshold at which a thread is closed.
    pub max_thread_messages: u32,
    /// Debounce delay in seconds before reacting to a message.
    pub seconds_delay_receiving_msg: u64,
    /// Largest number of characters a single reply message may carry.
    pub max_chars_per_reply_msg: usize,
    /// User id the bot posts under.
    pub bot_id: u64,
}

impl View for Config {
    type V = ConfigView;

    open spec fn view(&self) -> ConfigView {
        ConfigView {
            bot_name: self.bot_name@,
            instructions: self.instructions@,
            activate_prefix: self.activate_prefix@,
            inactivate_prefix: self.inactivate_prefix@,
            max_thread_messages: self.max_thread_messages,
            seconds_delay_receiving_msg: self.seconds_delay_receiving_msg,
            max_chars_per_reply_msg: self.max_chars_per_reply_msg,
            bot_id: self.bot_id,
        }
    }
}

impl Config {
    pub open spec fn wf(&self) -> bool {
        self@.wf()
    }
}

} // verus!
