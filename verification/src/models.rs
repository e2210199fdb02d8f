use vstd::prelude::*;
use crate::config::{Config, ConfigView};
use crate::utils::{bot_instructions, bot_instructions_spec};

verus! {

/// Shared user data carried by the command framework; the orchestration core
/// keeps no cross-attempt state, so nothing lives here.
pub struct Data {}

/// Tagged outcome of one completion attempt, consumed exactly once by the
/// dispatch step.
#[derive(Clone, Copy, Debug, PartialEq, Eq, Structural)]
pub enum CompletionResult {
    Success,
    ModerationBlocked,
    ModerationFlagged,
    TooLong,
    InvalidRequest,
    OtherError,
}

/// Model of a completion outcome: the tag plus the optional reply and status
/// texts as character sequences.
pub struct CompletionDataView {
    pub status: CompletionResult,
    pub reply_text: Option<Seq<char>>,
    pub status_text: Option<Seq<char>>,
}

/// One completion outcome together with the texts that accompany it.
#[derive(Debug)]
pub struct CompletionData {
    pub status: CompletionResult,
    pub reply_text: Option<String>,
    pub status_text: Option<String>,
}

impl View for CompletionData {
    type V = CompletionDataView;

    open spec fn view(&self) -> CompletionDataView {
        CompletionDataView {
            status: self.status,
            reply_text: match self.reply_text {
                Some(t) => Some(t@),
                None => None,
            },
            status_text: match self.status_text {
                Some(t) => Some(t@),
                None => None,
            },
        }
    }
}

/// Model of a turn: speaker and utterance as character sequences.
pub struct SimpleMessageView {
    pub user: Seq<char>,
    pub text: Seq<char>,
}

/// One speaker-attributed utterance of a conversation.
#[derive(Debug)]
pub struct SimpleMessage {
    pub user: String,
    pub text: String,
}

impl View for SimpleMessage {
    type V = SimpleMessageView;

    open spec fn view(&self) -> SimpleMessageView {
        SimpleMessageView { user: self.user@, text: self.text@ }
    }
}

/// Model of a conversation: its turns in chronological order and the user who
/// initiated it.
pub struct ConversationView {
    pub messages: Seq<SimpleMessageView>,
    pub user: Seq<char>,
}

/// An ordered conversation built fresh from the current message history for
/// each orchestration attempt.
#[derive(Debug)]
pub struct Conversation {
    pub messages: Vec<SimpleMessage>,
    pub user: String,
}

impl View for Conversation {
    type V = ConversationView;

    open spec fn view(&self) -> ConversationView {
        ConversationView {
            messages: self.messages@.map_values(|m: SimpleMessage| m@),
            user: self.user@,
        }
    }
}

/// Model of one named field of an embed.
pub struct EmbedFieldView {
    pub name: Seq<char>,
    pub value: Seq<char>,
}

/// One named field of an embed carried by a raw message.
#[derive(Debug)]
pub struct EmbedField {
    pub name: String,
    pub value: String,
}

impl View for EmbedField {
    type V = EmbedFieldView;

    open spec fn view(&self) -> EmbedFieldView {
        EmbedFieldView { name: self.name@, value: self.value@ }
    }
}

/// Model of an embed: its fields in order.
pub struct RawEmbedView {
    pub fields: Seq<EmbedFieldView>,
}

/// One embed of a raw message; only its fields matter to the core.
#[derive(Debug)]
pub struct RawEmbed {
    pub fields: Vec<EmbedField>,
}

impl View for RawEmbed {
    type V = RawEmbedView;

    open spec fn view(&self) -> RawEmbedView {
        RawEmbedView { fields: self.fields@.map_values(|f: EmbedField| f@) }
    }
}

/// Model of a raw message fetched from the channel.
pub struct RawMessageView {
    pub embeds: Seq<RawEmbedView>,
    pub content: Seq<char>,
    pub author_name: Seq<char>,
}

/// What the core reads of a message fetched from the channel: its embeds,
/// its plain content and its author's display name.
#[derive(Debug)]
pub struct RawMessage {
    pub embeds: Vec<RawEmbed>,
    pub content: String,
    pub author_name: String,
}

impl View for RawMessage {
    type V = RawMessageView;

    open spec fn view(&self) -> RawMessageView {
        RawMessageView {
            embeds: self.embeds@.map_values(|e: RawEmbed| e@),
            content: self.content@,
            author_name: self.author_name@,
        }
    }
}

/// A snapshot view of a thread at a point in time; never assumed to stay
/// valid, it is re-read whenever a staleness check needs it.
#[derive(Debug)]
pub struct ThreadSnapshot {
    pub id: u64,
    pub name: String,
    pub message_count: u32,
    pub owner_id: u64,
    pub last_message_id: u64,
}

/// How one turn is laid out on its line: `"<speaker>: <text>"`.
pub open spec fn rendered_line(user: Seq<char>, text: Seq<char>) -> Seq<char> {
    user + ": "@ + text
}

/// The stored turns, each on a line of its own, every line preceded by a
/// newline; insertion order is kept.
pub open spec fn rendered_turns(turns: Seq<SimpleMessageView>) -> Seq<char>
    decreases turns.len(),
{
    if turns.len() == 0 {
        Seq::empty()
    } else {
        rendered_turns(turns.drop_last()) + "\n"@ + rendered_line(
            turns.last().user,
            turns.last().text,
        )
    }
}

/// The synthetic leading line that carries the system instruction, spoken by
/// the bot.
pub open spec fn system_line(cfg: ConfigView) -> Seq<char> {
    rendered_line(cfg.bot_name, bot_instructions_spec(cfg))
}

/// A whole conversation as one prompt body: the system line, then every
/// stored turn in order.
pub open spec fn conversation_rendered(turns: Seq<SimpleMessageView>, cfg: ConfigView) -> Seq<
    char,
> {
    system_line(cfg) + rendered_turns(turns)
}

/// The full prompt handed to the completion engine: the rendered conversation
/// followed by the trailing `"<botName>:"` cue on a line of its own.
pub open spec fn prompt_spec(turns: Seq<SimpleMessageView>, cfg: ConfigView) -> Seq<char> {
    conversation_rendered(turns, cfg) + "\n"@ + cfg.bot_name + ":"@
}

impl SimpleMessage {
    /// Format this turn as its `"<speaker>: <text>"` line.
    pub fn render(&self) -> (r: String)
        ensures
            r@ == rendered_line(self.user@, self.text@),
    {
        let mut r = self.user.clone();
        r.append(": ");
        r.append(self.text.as_str());
        r
    }
}

impl Conversation {
    /// Render the conversation into one prompt body: the synthetic system
    /// line first, then each stored turn on its own line, in order. Pure:
    /// the result is a function of the turns and the configuration alone,
    /// and an empty conversation still renders the system line.
    pub fn render(&self, config: &Config) -> (r: String)
        ensures
            r@ == conversation_rendered(self@.messages, config@),
    {
        let bot_message = SimpleMessage {
            user: config.bot_name.clone(),
            text: bot_instructions(config),
        };
        let mut rendered = bot_message.render();
        let ghost turns = self@.messages;
        let mut idx: usize = 0;
        while idx < self.messages.len()
            invariant
                idx <= self.messages.len(),
                turns == self@.messages,
                turns.len() == self.messages.len(),
                rendered@ == system_line(config@) + rendered_turns(turns.take(idx as int)),
            decreases self.messages.len() - idx,
        {
            rendered.append("\n");
            let line = self.messages[idx].render();
            rendered.append(line.as_str());
            proof {
                assert(turns.take(idx + 1).drop_last() =~= turns.take(idx as int));
                assert(turns.take(idx + 1).last() == turns[idx as int]);
                assert(turns[idx as int] == self.messages@[idx as int]@);
                assert(rendered@ =~= system_line(config@) + rendered_turns(
                    turns.take(idx + 1),
                ));
            }
            idx = idx + 1;
        }
        proof {
            assert(turns.take(turns.len() as int) =~= turns);
        }
        rendered
    }
}

/// The prompt for one completion call over the given conversation.
pub fn completion_prompt(conversation: &Conversation, config: &Config) -> (r: String)
    ensures
        r@ == prompt_spec(conversation@.messages, config@),
{
    let mut r = conversation.render(config);
    r.append("\n");
    r.append(config.bot_name.as_str());
    r.append(":");
    proof {
        assert(r@ =~= prompt_spec(conversation@.messages, config@));
    }
    r
}

/// Law: for every turn sequence, the rendered prompt begins with the
/// system-instruction line and ends with the `"<botName>:"` cue.
pub proof fn lemma_prompt_brackets(turns: Seq<SimpleMessageView>, cfg: ConfigView)
    ensures
        prompt_spec(turns, cfg).len() >= system_line(cfg).len(),
        prompt_spec(turns, cfg).subrange(0, system_line(cfg).len() as int) == system_line(cfg),
        prompt_spec(turns, cfg).len() >= cfg.bot_name.len() + 1,
        prompt_spec(turns, cfg).subrange(
            prompt_spec(turns, cfg).len() - (cfg.bot_name.len() + 1),
            prompt_spec(turns, cfg).len() as int,
        ) == cfg.bot_name + ":"@,
{
    reveal_strlit(":");
    let p = prompt_spec(turns, cfg);
    assert(p.subrange(0, system_line(cfg).len() as int) =~= system_line(cfg));
    assert(p.subrange(p.len() - (cfg.bot_name.len() + 1), p.len() as int) =~= cfg.bot_name
        + ":"@);
}

/// Law: appending a turn appends exactly one line at the end and leaves the
/// rendering of the earlier turns unchanged, so rendering preserves turn
/// order.
pub proof fn lemma_render_order(turns: Seq<SimpleMessageView>, t: SimpleMessageView, cfg: ConfigView)
    ensures
        conversation_rendered(turns.push(t), cfg) == conversation_rendered(turns, cfg) + "\n"@
            + rendered_line(t.user, t.text),
{
    assert(turns.push(t).drop_last() =~= turns);
    assert(turns.push(t).last() == t);
    assert(conversation_rendered(turns.push(t), cfg) =~= conversation_rendered(turns, cfg)
        + "\n"@ + rendered_line(t.user, t.text));
}

} // verus!
