use vstd::prelude::*;
use vstd::string::{StrSliceExecFns, StringExecFns};
use crate::config::{Config, ConfigView};
use crate::models::{RawMessage, RawMessageView, SimpleMessage, SimpleMessageView};

verus! {

/// The full system instruction handed to the completion engine: the bot's
/// name, the configured base instructions, and the reminder not to echo a
/// role prefix.
pub open spec fn bot_instructions_spec(cfg: ConfigView) -> Seq<char> {
    "You are a bot named "@ + cfg.bot_name + ". "@ + cfg.instructions
        + " Remember, do not start your response with 'Assistant:' or '"@ + cfg.bot_name + ":'"@
}

/// Build the system instruction text for the configured bot.
pub fn bot_instructions(config: &Config) -> (r: String)
    ensures
        r@ == bot_instructions_spec(config@),
{
    let mut r = String::new();
    r.append("You are a bot named ");
    r.append(config.bot_name.as_str());
    r.append(". ");
    r.append(config.instructions.as_str());
    r.append(" Remember, do not start your response with 'Assistant:' or '");
    r.append(config.bot_name.as_str());
    r.append(":'");
    proof {
        assert(r@ =~= bot_instructions_spec(config@));
    }
    r
}

/// The pattern `pat` occurs in `s` at position `i`.
pub open spec fn starts_with_at(s: Seq<char>, pat: Seq<char>, i: int) -> bool {
    &&& 0 <= i
    &&& i + pat.len() <= s.len()
    &&& s.subrange(i, i + pat.len()) == pat
}

/// Whether the characters of `s` beginning at position `i` are exactly `pat`.
pub fn starts_at(s: &str, pat: &str, i: usize) -> (r: bool)
    requires
        i <= s@.len(),
    ensures
        r == starts_with_at(s@, pat@, i as int),
{
    let n = s.unicode_len();
    let m = pat.unicode_len();
    if m > n - i {
        return false;
    }
    let mut k: usize = 0;
    while k < m
        invariant
            k <= m,
            i + m <= n,
            n == s@.len(),
            m == pat@.len(),
            forall|q: int| 0 <= q < k ==> s@[i + q] == pat@[q],
        decreases m - k,
    {
        if s.get_char(i + k) != pat.get_char(k) {
            return false;
        }
        k = k + 1;
    }
    proof {
        assert(s@.subrange(i as int, i + pat@.len()) =~= pat@);
    }
    true
}

/// The reply text cut into pieces of at most `max` characters, in order: full
/// pieces of exactly `max` characters, then whatever remains.
pub open spec fn chunks_of(s: Seq<char>, max: nat) -> Seq<Seq<char>>
    decreases s.len(),
{
    if max == 0 {
        Seq::empty()
    } else if s.len() == 0 {
        Seq::empty()
    } else if s.len() <= max {
        seq![s]
    } else {
        seq![s.take(max as int)] + chunks_of(s.skip(max as int), max)
    }
}

/// Split an oversized reply on fixed character-count boundaries into
/// platform-sized messages. The chunks keep the original characters in
/// order, each chunk holds at most `max_chars` characters, and the empty
/// reply yields no chunks at all.
pub fn split_into_shorter_messages(message: &str, max_chars: usize) -> (r: Vec<String>)
    requires
        max_chars >= 1,
    ensures
        r@.map_values(|c: String| c@) == chunks_of(message@, max_chars as nat),
        message@.len() == 0 ==> r@.len() == 0,
{
    let n = message.unicode_len();
    let mut r: Vec<String> = Vec::new();
    let mut i: usize = 0;
    proof {
        assert(message@.skip(0) =~= message@);
    }
    while i < n
        invariant
            i <= n,
            n == message@.len(),
            max_chars >= 1,
            chunks_of(message@, max_chars as nat) == r@.map_values(|c: String| c@) + chunks_of(
                message@.skip(i as int),
                max_chars as nat,
            ),
        decreases n - i,
    {
        let end: usize = if n - i < max_chars {
            n
        } else {
            i + max_chars
        };
        let piece = message.substring_char(i, end).to_owned();
        let ghost prev = r@.map_values(|c: String| c@);
        r.push(piece);
        proof {
            let rest = message@.skip(i as int);
            assert(r@.map_values(|c: String| c@) =~= prev.push(piece@));
            if n - i <= max_chars {
                assert(piece@ =~= rest);
                assert(chunks_of(rest, max_chars as nat) =~= seq![rest]);
                assert(prev.push(piece@) =~= prev + chunks_of(rest, max_chars as nat));
                assert(message@.skip(end as int) =~= Seq::<char>::empty());
            } else {
                assert(piece@ =~= rest.take(max_chars as int));
                assert(rest.skip(max_chars as int) =~= message@.skip(end as int));
                assert(prev.push(piece@) + chunks_of(message@.skip(end as int), max_chars as nat)
                    =~= prev + chunks_of(rest, max_chars as nat));
            }
        }
        i = end;
    }
    proof {
        assert(chunks_of(message@, max_chars as nat) =~= r@.map_values(|c: String| c@));
    }
    r
}

/// Law: concatenating the chunks of `s` restores `s` exactly.
pub proof fn lemma_chunks_concat(s: Seq<char>, max: nat)
    requires
        max >= 1,
    ensures
        chunks_of(s, max).flatten() == s,
    decreases s.len(),
{
    if s.len() == 0 {
        assert(chunks_of(s, max).flatten() =~= s);
    } else if s.len() <= max {
        seq![s].lemma_flatten_one_element();
        assert(seq![s].first() =~= s);
    } else {
        lemma_chunks_concat(s.skip(max as int), max);
        let cs = chunks_of(s, max);
        let rest = chunks_of(s.skip(max as int), max);
        assert(cs.first() =~= s.take(max as int));
        assert(cs.drop_first() =~= rest);
        assert(cs.flatten() == cs.first() + cs.drop_first().flatten());
        assert(s.take(max as int) + s.skip(max as int) =~= s);
    }
}

/// A character of the Unicode `White_Space` set, as `str::trim` removes it.
pub open spec fn is_ws(c: char) -> bool {
    ||| c == '\t'
    ||| c == '\n'
    ||| c == '\u{B}'
    ||| c == '\u{C}'
    ||| c == '\r'
    ||| c == ' '
    ||| c == '\u{85}'
    ||| c == '\u{A0}'
    ||| c == '\u{1680}'
    ||| c == '\u{2000}'
    ||| c == '\u{2001}'
    ||| c == '\u{2002}'
    ||| c == '\u{2003}'
    ||| c == '\u{2004}'
    ||| c == '\u{2005}'
    ||| c == '\u{2006}'
    ||| c == '\u{2007}'
    ||| c == '\u{2008}'
    ||| c == '\u{2009}'
    ||| c == '\u{200A}'
    ||| c == '\u{2028}'
    ||| c == '\u{2029}'
    ||| c == '\u{202F}'
    ||| c == '\u{205F}'
    ||| c == '\u{3000}'
}

/// Whether `c` is a whitespace character in the sense of `is_ws`.
pub fn is_whitespace_char(c: char) -> (r: bool)
    ensures
        r == is_ws(c),
{
    match c {
        '\t' | '\n' | '\u{B}' | '\u{C}' | '\r' | ' ' | '\u{85}' | '\u{A0}' | '\u{1680}'
            | '\u{2000}' | '\u{2001}' | '\u{2002}' | '\u{2003}' | '\u{2004}' | '\u{2005}'
            | '\u{2006}' | '\u{2007}' | '\u{2008}' | '\u{2009}' | '\u{200A}' | '\u{2028}'
            | '\u{2029}' | '\u{202F}' | '\u{205F}' | '\u{3000}' => true,
        _ => false,
    }
}

/// Every character of `s` is whitespace.
pub open spec fn all_ws(s: Seq<char>) -> bool {
    forall|k: int| 0 <= k < s.len() ==> is_ws(s[k])
}

/// `s` with leading and trailing whitespace removed.
pub open spec fn trimmed(s: Seq<char>) -> Seq<char> {
    if all_ws(s) {
        Seq::empty()
    } else {
        let a = choose|a: int|
            0 <= a < s.len() && !is_ws(s[a]) && (forall|k: int| 0 <= k < a ==> is_ws(s[k]));
        let b = choose|b: int|
            0 <= b < s.len() && !is_ws(s[b]) && (forall|k: int| b < k < s.len() ==> is_ws(s[k]));
        s.subrange(a, b + 1)
    }
}

/// Remove leading and trailing whitespace.
fn trim_chars(s: &str) -> (r: String)
    ensures
        r@ == trimmed(s@),
{
    let n = s.unicode_len();
    let mut a: usize = 0;
    while a < n && is_whitespace_char(s.get_char(a))
        invariant
            a <= n,
            n == s@.len(),
            forall|k: int| 0 <= k < a ==> is_ws(s@[k]),
        decreases n - a,
    {
        a = a + 1;
    }
    if a == n {
        proof {
            assert(all_ws(s@));
        }
        return String::new();
    }
    let mut b: usize = n - 1;
    while b > a && is_whitespace_char(s.get_char(b))
        invariant
            a <= b < n,
            n == s@.len(),
            !is_ws(s@[a as int]),
            forall|k: int| b < k < n ==> is_ws(s@[k]),
        decreases b,
    {
        b = b - 1;
    }
    let r = s.substring_char(a, b + 1).to_owned();
    proof {
        let sv = s@;
        assert(!all_ws(sv));
        assert(0 <= a < sv.len() && !is_ws(sv[a as int]) && (forall|k: int|
            0 <= k < a ==> is_ws(sv[k])));
        assert(0 <= b < sv.len() && !is_ws(sv[b as int]) && (forall|k: int|
            b < k < sv.len() ==> is_ws(sv[k])));
        let ca = choose|x: int|
            0 <= x < sv.len() && !is_ws(sv[x]) && (forall|k: int| 0 <= k < x ==> is_ws(sv[k]));
        let cb = choose|x: int|
            0 <= x < sv.len() && !is_ws(sv[x]) && (forall|k: int| x < k < sv.len() ==> is_ws(
                sv[k],
            ));
        if ca < a {
            assert(is_ws(sv[ca]));
        }
        if ca > a {
            assert(is_ws(sv[a as int]));
        }
        if cb < b {
            assert(is_ws(sv[b as int]));
        }
        if cb > b {
            assert(is_ws(sv[cb]));
        }
        assert(r@ == trimmed(sv));
    }
    r
}

/// `s` begins with one of the two role-prefix literals: the fixed word
/// `"Assistant"` or the bot's display name.
pub open spec fn leading_role_prefix(s: Seq<char>, bot: Seq<char>) -> bool {
    starts_with_at(s, "Assistant"@, 0) || starts_with_at(s, bot, 0)
}

/// The length of the leading literal, preferring `"Assistant"`.
pub open spec fn leading_matched_len(s: Seq<char>, bot: Seq<char>) -> int {
    if starts_with_at(s, "Assistant"@, 0) {
        "Assistant"@.len() as int
    } else {
        bot.len() as int
    }
}

/// Positions `0..=j` of `s` hold the leaked role-prefix artifact that gets
/// removed: a role-prefix literal at the very start of the reply, everything
/// up to the first following ':' and that ':' itself.
pub open spec fn role_span(s: Seq<char>, bot: Seq<char>, j: int) -> bool {
    &&& leading_role_prefix(s, bot)
    &&& leading_matched_len(s, bot) <= j < s.len()
    &&& s[j] == ':'
    &&& forall|m: int| leading_matched_len(s, bot) <= m < j ==> s[m] != ':'
}

/// A role-prefix artifact begins `s`.
pub open spec fn has_role_span(s: Seq<char>, bot: Seq<char>) -> bool {
    exists|j: int| role_span(s, bot, j)
}

/// `s` with its leading role-prefix artifact removed, if it begins with one.
pub open spec fn strip_role_artifact(s: Seq<char>, bot: Seq<char>) -> Seq<char> {
    if has_role_span(s, bot) {
        let j = choose|j: int| role_span(s, bot, j);
        s.subrange(j + 1, s.len() as int)
    } else {
        s
    }
}

/// What trimming a completion reply means: remove the leaked role prefix
/// from the start of the reply, then surrounding whitespace.
pub open spec fn trim_spec(s: Seq<char>, bot: Seq<char>) -> Seq<char> {
    trimmed(strip_role_artifact(s, bot))
}

/// At most one position ends the artifact.
proof fn lemma_role_span_unique(s: Seq<char>, bot: Seq<char>, j1: int, j2: int)
    requires
        role_span(s, bot, j1),
        role_span(s, bot, j2),
    ensures
        j1 == j2,
{
    if j1 < j2 {
        assert(s[j1] != ':');
    }
    if j2 < j1 {
        assert(s[j2] != ':');
    }
}

/// The first ':' at or after `start`, if any.
fn find_colon_from(s: &str, start: usize) -> (r: Option<usize>)
    requires
        start <= s@.len(),
    ensures
        match r {
            Some(j) => start <= j < s@.len() && s@[j as int] == ':' && (forall|m: int|
                start <= m < j ==> s@[m] != ':'),
            None => forall|m: int| start <= m < s@.len() ==> s@[m] != ':',
        },
{
    let n = s.unicode_len();
    let mut j: usize = start;
    while j < n
        invariant
            start <= j <= n,
            n == s@.len(),
            forall|m: int| start <= m < j ==> s@[m] != ':',
        decreases n - j,
    {
        if s.get_char(j) == ':' {
            return Some(j);
        }
        j = j + 1;
    }
    None
}

/// Strip a leaked role-prefix artifact from the start of a completion reply
/// and trim the surrounding whitespace: a reply that begins with
/// `"Assistant"` or with the bot's name loses that literal and everything up
/// to and including the first ':' that follows it; any other reply only
/// loses its surrounding whitespace.
pub fn trim_assistant_prefix(response: &str, bot_name: &str) -> (r: String)
    ensures
        r@ == trim_spec(response@, bot_name@),
{
    let sv = response;
    let is_assistant = starts_at(sv, "Assistant", 0);
    if is_assistant || starts_at(sv, bot_name, 0) {
        proof {
            reveal_strlit("Assistant");
        }
        let lit_len: usize = if is_assistant {
            9
        } else {
            bot_name.unicode_len()
        };
        let n = sv.unicode_len();
        proof {
            assert(leading_matched_len(sv@, bot_name@) == lit_len as int);
            assert(lit_len <= n);
        }
        match find_colon_from(sv, lit_len) {
            Some(j) => {
                let stripped = sv.substring_char(j + 1, n);
                proof {
                    assert(role_span(sv@, bot_name@, j as int));
                    let cj = choose|y: int| role_span(sv@, bot_name@, y);
                    lemma_role_span_unique(sv@, bot_name@, cj, j as int);
                    assert(stripped@ == strip_role_artifact(sv@, bot_name@));
                }
                trim_chars(stripped)
            },
            None => {
                proof {
                    if has_role_span(sv@, bot_name@) {
                        let cj = choose|y: int| role_span(sv@, bot_name@, y);
                        assert(role_span(sv@, bot_name@, cj));
                        assert(sv@[cj] == ':');
                        assert(false);
                    }
                }
                trim_chars(sv)
            },
        }
    } else {
        proof {
            if has_role_span(sv@, bot_name@) {
                let cj = choose|y: int| role_span(sv@, bot_name@, y);
                assert(role_span(sv@, bot_name@, cj));
                assert(leading_role_prefix(sv@, bot_name@));
                assert(false);
            }
        }
        trim_chars(sv)
    }
}

/// Law: every chunk but the last holds exactly `max` characters, so only the
/// final chunk may reflect the remainder.
pub proof fn lemma_chunks_full(s: Seq<char>, max: nat, k: int)
    requires
        max >= 1,
        0 <= k < chunks_of(s, max).len() - 1,
    ensures
        chunks_of(s, max)[k].len() == max,
    decreases s.len(),
{
    if s.len() == 0 {
    } else if s.len() <= max {
    } else {
        if k > 0 {
            lemma_chunks_full(s.skip(max as int), max, k - 1);
        }
    }
}

/// The turn a raw message contributes, if any: the first field of the first
/// embed takes precedence as speaker and text, a non-empty plain content
/// falls back to the author's name and content, and a message with neither
/// is dropped.
pub open spec fn turn_of(m: RawMessageView) -> Option<SimpleMessageView> {
    if m.embeds.len() > 0 && m.embeds[0].fields.len() > 0 {
        Some(
            SimpleMessageView {
                user: m.embeds[0].fields[0].name,
                text: m.embeds[0].fields[0].value,
            },
        )
    } else if m.content.len() > 0 {
        Some(SimpleMessageView { user: m.author_name, text: m.content })
    } else {
        None
    }
}

/// Convert one raw channel message into a turn, if it carries one.
pub fn discord_message_to_simple_message(message: &RawMessage) -> (r: Option<SimpleMessage>)
    ensures
        r is Some <==> turn_of(message@) is Some,
        r matches Some(t) ==> turn_of(message@) == Some(t@),
{
    if message.embeds.len() > 0 {
        let embed = &message.embeds[0];
        if embed.fields.len() > 0 {
            let field = &embed.fields[0];
            return Some(SimpleMessage { user: field.name.clone(), text: field.value.clone() });
        }
    }
    if !message.content.as_str().is_empty() {
        return Some(
            SimpleMessage { user: message.author_name.clone(), text: message.content.clone() },
        );
    }
    None
}

/// The turns a newest-first message history yields, in chronological order:
/// each message's turn, if it has one, with the order reversed.
pub open spec fn turns_of(history: Seq<RawMessageView>) -> Seq<SimpleMessageView>
    decreases history.len(),
{
    if history.len() == 0 {
        Seq::empty()
    } else {
        turns_of(history.drop_first()) + match turn_of(history.first()) {
            Some(t) => seq![t],
            None => Seq::empty(),
        }
    }
}

/// Turn a newest-first message history into the chronological turn list of a
/// conversation.
pub fn history_to_turns(history: &Vec<RawMessage>) -> (r: Vec<SimpleMessage>)
    ensures
        r@.map_values(|m: SimpleMessage| m@) == turns_of(history@.map_values(|m: RawMessage| m@)),
{
    let ghost hv = history@.map_values(|m: RawMessage| m@);
    let mut r: Vec<SimpleMessage> = Vec::new();
    let mut i: usize = history.len();
    proof {
        assert(hv.skip(i as int) =~= Seq::<RawMessageView>::empty());
    }
    while i > 0
        invariant
            i <= history.len(),
            hv == history@.map_values(|m: RawMessage| m@),
            hv.len() == history.len(),
            r@.map_values(|m: SimpleMessage| m@) == turns_of(hv.skip(i as int)),
        decreases i,
    {
        i = i - 1;
        let ghost prev = r@.map_values(|m: SimpleMessage| m@);
        match discord_message_to_simple_message(&history[i]) {
            Some(t) => {
                r.push(t);
            },
            None => {},
        }
        proof {
            assert(hv.skip(i as int).first() == hv[i as int]);
            assert(hv.skip(i as int).drop_first() =~= hv.skip(i + 1));
            assert(hv[i as int] == history@[i as int]@);
            assert(r@.map_values(|m: SimpleMessage| m@) =~= turns_of(hv.skip(i as int)));
        }
    }
    proof {
        assert(hv.skip(0) =~= hv);
    }
    r
}

/// Law: every chunk holds at most `max` characters.
pub proof fn lemma_chunks_bounded(s: Seq<char>, max: nat, k: int)
    requires
        max >= 1,
        0 <= k < chunks_of(s, max).len(),
    ensures
        chunks_of(s, max)[k].len() <= max,
    decreases s.len(),
{
    if s.len() == 0 {
    } else if s.len() <= max {
    } else {
        if k > 0 {
            lemma_chunks_bounded(s.skip(max as int), max, k - 1);
        }
    }
}

} // verus!
