use vstd::prelude::*;
use vstd::string::{StrSliceExecFns, StringExecFns};

verus! {

/// The prompt the greeting command hands to the completion engine.
pub open spec fn greeting_prompt_spec(user_name: Seq<char>) -> Seq<char> {
    "You are a robot assistant for making personalized greetings. Make a personalized greeting for "@
        + user_name
}

/// Build the greeting prompt for the named user.
pub fn greeting_prompt(user_name: &str) -> (r: String)
    ensures
        r@ == greeting_prompt_spec(user_name@),
{
    let mut r = String::from_str(
        "You are a robot assistant for making personalized greetings. Make a personalized greeting for ",
    );
    r.append(user_name);
    r
}

/// Where the first sentence of a prompt ends: just before its first '.', or
/// at the end when it has none.
pub open spec fn sentence_end(s: Seq<char>) -> int {
    if s.contains('.') {
        choose|i: int| 0 <= i < s.len() && s[i] == '.' && (forall|k: int| 0 <= k < i ==> s[k] != '.')
    } else {
        s.len() as int
    }
}

/// The name a fresh chat thread gets: the prompt's first sentence, cut to 20
/// characters with an ellipsis when it runs longer.
pub open spec fn thread_name_spec(s: Seq<char>) -> Seq<char> {
    let head = s.take(sentence_end(s));
    if head.len() > 20 {
        head.take(20) + "..."@
    } else {
        head
    }
}

/// Derive the name of a fresh chat thread from the user's prompt.
pub fn chat_thread_name(user_prompt: &str) -> (r: String)
    ensures
        r@ == thread_name_spec(user_prompt@),
{
    let n = user_prompt.unicode_len();
    let mut i: usize = 0;
    while i < n && user_prompt.get_char(i) != '.'
        invariant
            i <= n,
            n == user_prompt@.len(),
            forall|k: int| 0 <= k < i ==> user_prompt@[k] != '.',
        decreases n - i,
    {
        i = i + 1;
    }
    proof {
        let sv = user_prompt@;
        if i < n {
            assert(sv[i as int] == '.');
            assert(sv.contains('.'));
            let ci = choose|x: int|
                0 <= x < sv.len() && sv[x] == '.' && (forall|k: int| 0 <= k < x ==> sv[k] != '.');
            if ci < i {
                assert(sv[ci] != '.');
            }
            if ci > i {
                assert(sv[i as int] != '.');
            }
            assert(sentence_end(sv) == i as int);
        } else {
            if sv.contains('.') {
                let w = choose|x: int| 0 <= x < sv.len() && sv[x] == '.';
                assert(sv[w] != '.');
            }
            assert(sentence_end(sv) == n as int);
        }
    }
    if i > 20 {
        let head = user_prompt.substring_char(0, 20);
        let r = String::from_str(head).concat("...");
        proof {
            assert(user_prompt@.take(i as int).take(20) =~= user_prompt@.take(20));
            assert(r@ =~= thread_name_spec(user_prompt@));
        }
        r
    } else {
        let r = user_prompt.substring_char(0, i).to_owned();
        proof {
            assert(r@ =~= thread_name_spec(user_prompt@));
        }
        r
    }
}

} // verus!
