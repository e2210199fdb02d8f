use vstd::prelude::*;
use vstd::string::StringExecFns;
use crate::config::{Config, ConfigView};
use crate::lifecycle::{close_notice_spec, close_thread, status_spec, thread_status, ThreadStatus};
use crate::models::{
    completion_prompt, prompt_spec, CompletionData, CompletionDataView, CompletionResult,
    Conversation, RawMessage, ThreadSnapshot,
};
use crate::staleness::{is_last_message_stale, is_stale_for_author, StalenessStep};
use crate::utils::{
    chunks_of, history_to_turns, split_into_shorter_messages, trim_assistant_prefix, trim_spec,
    turns_of,
};

verus! {

/// The notice posted when a completion succeeds but carries no text.
pub open spec fn empty_reply_notice() -> Seq<char> {
    "**Invalid response** - empty response"@
}

/// The reason text of an outcome, or nothing.
pub open spec fn text_or_empty(reason: Option<Seq<char>>) -> Seq<char> {
    match reason {
        Some(t) => t,
        None => Seq::empty(),
    }
}

/// The notice posted for a rejected completion request.
pub open spec fn invalid_request_notice(reason: Option<Seq<char>>) -> Seq<char> {
    "**Invalid request** - "@ + text_or_empty(reason)
}

/// The notice posted for any other failed outcome.
pub open spec fn error_notice(reason: Option<Seq<char>>) -> Seq<char> {
    "**Error** - "@ + text_or_empty(reason)
}

/// What the caller must perform next on the orchestrator's behalf. The
/// sending, fetching, renaming and waiting themselves are the channel's
/// business; the orchestrator only decides.
#[derive(Debug)]
pub enum Action {
    /// Nothing more: the attempt is over, with nothing to send.
    Finish,
    /// Rename the thread to `new_name`, then post `notice` in it.
    CloseThread { new_name: String, notice: String },
    /// Suspend for the debounce delay, then report `Waited`.
    Wait { seconds: u64 },
    /// Fetch the message and report its author id.
    FetchMessageAuthor { message_id: u64 },
    /// Fetch the thread's message history, newest first.
    FetchHistory,
    /// Run the completion engine on `prompt` and report its outcome.
    RequestCompletion { prompt: String },
    /// Post one notice message in the thread.
    SendNotice { notice: String },
    /// Post each chunk as a message of its own, in order.
    SendChunks { chunks: Vec<String> },
}

/// What the caller reports back after performing an action.
#[derive(Debug)]
pub enum Event {
    /// Begin the attempt.
    Started,
    /// The debounce delay has elapsed.
    Waited,
    /// The requested message was fetched; its author posted it.
    FetchedAuthor { author_id: u64 },
    /// The thread's history, newest first.
    HistoryFetched { messages: Vec<RawMessage> },
    /// The completion engine's outcome.
    Completed { data: CompletionData },
}

/// Where an orchestration attempt stands between two actions.
#[derive(Clone, Copy, Debug, PartialEq, Eq, Structural)]
pub enum Phase {
    /// Created, nothing done yet.
    Ready,
    /// Debouncing.
    Waiting,
    /// Awaiting the newest message's author for the pre-completion check.
    CheckingBefore,
    /// Awaiting the message history.
    GatheringHistory,
    /// Awaiting the completion outcome.
    AwaitingCompletion,
    /// Awaiting the newest message's author for the post-completion check.
    CheckingAfter,
    /// Over.
    Done,
}

/// The event each phase is waiting for.
pub open spec fn expects(phase: Phase, event: Event) -> bool {
    match phase {
        Phase::Ready => event is Started,
        Phase::Waiting => event is Waited,
        Phase::CheckingBefore => event is FetchedAuthor,
        Phase::GatheringHistory => event is HistoryFetched,
        Phase::AwaitingCompletion => event is Completed,
        Phase::CheckingAfter => event is FetchedAuthor,
        Phase::Done => false,
    }
}

/// The dispatch step: which single action a completion outcome produces.
/// A successful but empty reply earns a visible notice rather than silence;
/// a non-empty reply is split into platform-sized chunks; an over-long
/// conversation closes the thread; every failure outcome earns a notice
/// carrying its reason.
pub open spec fn dispatch_matches(
    thread_name: Seq<char>,
    data: CompletionDataView,
    cfg: ConfigView,
    action: Action,
) -> bool {
    match data.status {
        CompletionResult::Success => match data.reply_text {
            Some(t) => if t.len() == 0 {
                action matches Action::SendNotice { notice } && notice@ == empty_reply_notice()
            } else {
                action matches Action::SendChunks { chunks } && chunks@.map_values(|c: String| c@)
                    == chunks_of(t, cfg.max_chars_per_reply_msg as nat)
            },
            None => action matches Action::SendNotice { notice } && notice@
                == empty_reply_notice(),
        },
        CompletionResult::TooLong => action matches Action::CloseThread { new_name, notice }
            && new_name@ == cfg.inactivate_prefix + thread_name && notice@ == close_notice_spec(),
        CompletionResult::InvalidRequest => action matches Action::SendNotice { notice }
            && notice@ == invalid_request_notice(data.status_text),
        _ => action matches Action::SendNotice { notice } && notice@ == error_notice(
            data.status_text,
        ),
    }
}

/// Route one completion outcome to the single action it produces, exactly as
/// `dispatch_matches` states.
pub fn process_response(thread_name: &str, response_data: CompletionData, config: &Config) -> (action:
    Action)
    requires
        config.wf(),
    ensures
        dispatch_matches(thread_name@, response_data@, config@, action),
{
    match response_data.status {
        CompletionResult::Success => {
            match response_data.reply_text {
                Some(text) => {
                    if text.as_str().is_empty() {
                        Action::SendNotice {
                            notice: String::from_str("**Invalid response** - empty response"),
                        }
                    } else {
                        let chunks = split_into_shorter_messages(
                            text.as_str(),
                            config.max_chars_per_reply_msg,
                        );
                        Action::SendChunks { chunks }
                    }
                },
                None => Action::SendNotice {
                    notice: String::from_str("**Invalid response** - empty response"),
                },
            }
        },
        CompletionResult::TooLong => {
            let plan = close_thread(thread_name, config);
            Action::CloseThread { new_name: plan.new_name, notice: plan.notice }
        },
        CompletionResult::InvalidRequest => {
            let mut notice = String::from_str("**Invalid request** - ");
            match response_data.status_text {
                Some(reason) => notice.append(reason.as_str()),
                None => (),
            }
            proof {
                assert(notice@ =~= invalid_request_notice(response_data@.status_text));
            }
            Action::SendNotice { notice }
        },
        _ => {
            let mut notice = String::from_str("**Error** - ");
            match response_data.status_text {
                Some(reason) => notice.append(reason.as_str()),
                None => (),
            }
            proof {
                assert(notice@ =~= error_notice(response_data@.status_text));
            }
            Action::SendNotice { notice }
        },
    }
}

/// Wrap the completion engine's raw reply as a successful outcome, with any
/// leaked role prefix stripped from the text.
pub fn completion_data_from_reply(raw_reply: &str, config: &Config) -> (r: CompletionData)
    ensures
        r.status == CompletionResult::Success,
        r@.reply_text == Some(trim_spec(raw_reply@, config@.bot_name)),
        r@.status_text is None,
{
    CompletionData {
        status: CompletionResult::Success,
        reply_text: Some(trim_assistant_prefix(raw_reply, config.bot_name.as_str())),
        status_text: None,
    }
}

/// One orchestration attempt over one inbound message: a state machine from
/// events to actions. The caller performs each returned action, reports the
/// matching event, and stops once the action is `Finish`, `CloseThread`,
/// `SendNotice` or `SendChunks`. All decisions stand here; the caller only
/// moves data.
pub struct Orchestrator {
    /// The fixed settings.
    pub config: Config,
    /// The thread snapshot taken when the inbound message arrived.
    pub thread: ThreadSnapshot,
    /// The id of the inbound message the attempt reacts to.
    pub reference_message_id: u64,
    /// The display name of the user who posted it.
    pub initiating_user: String,
    /// Where the attempt stands.
    pub phase: Phase,
    /// The completion outcome held across the post-completion check.
    pub pending: Option<CompletionData>,
}

impl Orchestrator {
    /// The attempt's invariant: well-formed settings, and an outcome in hand
    /// exactly while the post-completion check is pending.
    pub open spec fn wf(&self) -> bool {
        &&& self.config.wf()
        &&& (self.phase is CheckingAfter ==> self.pending is Some)
    }

    /// Begin an attempt for one inbound message.
    pub fn new(
        config: Config,
        thread: ThreadSnapshot,
        reference_message_id: u64,
        initiating_user: String,
    ) -> (r: Orchestrator)
        requires
            config.wf(),
        ensures
            r.wf(),
            r.phase is Ready,
            r.pending is None,
            r.config == config,
            r.thread == thread,
            r.reference_message_id == reference_message_id,
            r.initiating_user == initiating_user,
    {
        Orchestrator {
            config,
            thread,
            reference_message_id,
            initiating_user,
            phase: Phase::Ready,
            pending: None,
        }
    }

    /// Advance the attempt by one event and decide the next action.
    ///
    /// The contract walks the control flow of one attempt: first the status
    /// check, which closes an overflowing thread without any completion and
    /// skips closed or excluded threads; then the debounce; then the
    /// pre-completion staleness check, which never fetches when the reference
    /// message is still the newest; then history, prompt and completion; then
    /// the post-completion staleness check over the same reference; and last
    /// the dispatch. A stale attempt finishes without sending anything. An
    /// event out of order ends the attempt.
    pub fn step(&mut self, event: Event) -> (action: Action)
        requires
            old(self).wf(),
        ensures
            final(self).wf(),
            final(self).config == old(self).config,
            final(self).thread == old(self).thread,
            final(self).reference_message_id == old(self).reference_message_id,
            final(self).initiating_user == old(self).initiating_user,
            !expects(old(self).phase, event) ==> final(self).phase is Done && action is Finish,
            old(self).phase is Ready && event is Started ==> ({
                let st = status_spec(
                    old(self).thread.name@,
                    old(self).thread.message_count,
                    old(self).config@,
                );
                &&& ((st is Closed || st is Excluded) ==> final(self).phase is Done
                    && action is Finish)
                &&& (st is Overflowing ==> final(self).phase is Done
                    && (action matches Action::CloseThread { new_name, notice }
                    && new_name@ == old(self).config@.inactivate_prefix + old(self).thread.name@
                    && notice@ == close_notice_spec()))
                &&& (st is Active ==> final(self).phase is Waiting
                    && (action matches Action::Wait { seconds }
                    && seconds == old(self).config.seconds_delay_receiving_msg))
            }),
            old(self).phase is Waiting && event is Waited ==> ({
                if old(self).reference_message_id == old(self).thread.last_message_id {
                    final(self).phase is GatheringHistory && action is FetchHistory
                } else {
                    final(self).phase is CheckingBefore && action == (Action::FetchMessageAuthor {
                        message_id: old(self).thread.last_message_id,
                    })
                }
            }),
            event matches Event::FetchedAuthor { author_id } ==> (old(
                self,
            ).phase is CheckingBefore ==> ({
                if author_id != old(self).config.bot_id {
                    final(self).phase is Done && action is Finish
                } else {
                    final(self).phase is GatheringHistory && action is FetchHistory
                }
            })),
            event matches Event::HistoryFetched { messages } ==> (old(
                self,
            ).phase is GatheringHistory ==> final(self).phase is AwaitingCompletion
                && (action matches Action::RequestCompletion { prompt } && prompt@ == prompt_spec(
                turns_of(messages@.map_values(|m: RawMessage| m@)),
                old(self).config@,
            ))),
            event matches Event::Completed { data } ==> (old(
                self,
            ).phase is AwaitingCompletion ==> ({
                if old(self).reference_message_id == old(self).thread.last_message_id {
                    final(self).phase is Done && dispatch_matches(
                        old(self).thread.name@,
                        data@,
                        old(self).config@,
                        action,
                    )
                } else {
                    final(self).phase is CheckingAfter && final(self).pending == Some(data)
                        && action == (Action::FetchMessageAuthor {
                        message_id: old(self).thread.last_message_id,
                    })
                }
            })),
            event matches Event::FetchedAuthor { author_id } ==> (old(
                self,
            ).phase is CheckingAfter ==> ({
                if author_id != old(self).config.bot_id {
                    final(self).phase is Done && action is Finish
                } else {
                    final(self).phase is Done && (old(self).pending matches Some(d)
                        && dispatch_matches(
                        old(self).thread.name@,
                        d@,
                        old(self).config@,
                        action,
                    ))
                }
            })),
    {
        match (self.phase, event) {
            (Phase::Ready, Event::Started) => {
                let status = thread_status(
                    self.thread.name.as_str(),
                    self.thread.message_count,
                    &self.config,
                );
                match status {
                    ThreadStatus::Closed | ThreadStatus::Excluded => {
                        self.phase = Phase::Done;
                        Action::Finish
                    },
                    ThreadStatus::Overflowing => {
                        self.phase = Phase::Done;
                        let plan = close_thread(self.thread.name.as_str(), &self.config);
                        Action::CloseThread { new_name: plan.new_name, notice: plan.notice }
                    },
                    ThreadStatus::Active => {
                        self.phase = Phase::Waiting;
                        Action::Wait { seconds: self.config.seconds_delay_receiving_msg }
                    },
                }
            },
            (Phase::Waiting, Event::Waited) => {
                match is_last_message_stale(
                    self.reference_message_id,
                    self.thread.last_message_id,
                ) {
                    StalenessStep::NotStale => {
                        self.phase = Phase::GatheringHistory;
                        Action::FetchHistory
                    },
                    StalenessStep::FetchAuthor { message_id } => {
                        self.phase = Phase::CheckingBefore;
                        Action::FetchMessageAuthor { message_id }
                    },
                }
            },
            (Phase::CheckingBefore, Event::FetchedAuthor { author_id }) => {
                if is_stale_for_author(author_id, self.config.bot_id) {
                    self.phase = Phase::Done;
                    Action::Finish
                } else {
                    self.phase = Phase::GatheringHistory;
                    Action::FetchHistory
                }
            },
            (Phase::GatheringHistory, Event::HistoryFetched { messages }) => {
                let turns = history_to_turns(&messages);
                let conversation = Conversation {
                    messages: turns,
                    user: self.initiating_user.clone(),
                };
                let prompt = completion_prompt(&conversation, &self.config);
                self.phase = Phase::AwaitingCompletion;
                Action::RequestCompletion { prompt }
            },
            (Phase::AwaitingCompletion, Event::Completed { data }) => {
                if self.reference_message_id == self.thread.last_message_id {
                    self.phase = Phase::Done;
                    process_response(self.thread.name.as_str(), data, &self.config)
                } else {
                    self.phase = Phase::CheckingAfter;
                    self.pending = Some(data);
                    Action::FetchMessageAuthor { message_id: self.thread.last_message_id }
                }
            },
            (Phase::CheckingAfter, Event::FetchedAuthor { author_id }) => {
                let pending = self.pending.take();
                if is_stale_for_author(author_id, self.config.bot_id) {
                    self.phase = Phase::Done;
                    Action::Finish
                } else {
                    self.phase = Phase::Done;
                    match pending {
                        Some(data) => process_response(
                            self.thread.name.as_str(),
                            data,
                            &self.config,
                        ),
                        None => Action::Finish,
                    }
                }
            },
            _ => {
                self.phase = Phase::Done;
                Action::Finish
            },
        }
    }
}

} // verus!
