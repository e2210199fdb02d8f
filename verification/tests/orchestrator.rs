use threadchat::config::Config;
use threadchat::models::{
    CompletionData, CompletionResult, EmbedField, RawEmbed, RawMessage, ThreadSnapshot,
};
use threadchat::orchestrator::{completion_data_from_reply, process_response, Action, Event, Orchestrator};
use threadchat::utils::{discord_message_to_simple_message, history_to_turns};

fn test_config() -> Config {
    Config {
        bot_name: String::from("Botty"),
        instructions: String::from("Be helpful."),
        activate_prefix: String::from("activate-"),
        inactivate_prefix: String::from("inactive-"),
        max_thread_messages: 10,
        seconds_delay_receiving_msg: 3,
        max_chars_per_reply_msg: 1500,
        bot_id: 7,
    }
}

fn snapshot(message_count: u32, last_message_id: u64) -> ThreadSnapshot {
    ThreadSnapshot {
        id: 1,
        name: String::from("chat"),
        message_count,
        owner_id: 7,
        last_message_id,
    }
}

fn plain(author: &str, text: &str) -> RawMessage {
    RawMessage {
        embeds: Vec::new(),
        content: String::from(text),
        author_name: String::from(author),
    }
}

#[test]
fn embed_field_message_becomes_turn() {
    let m = RawMessage {
        embeds: vec![RawEmbed {
            fields: vec![EmbedField {
                name: String::from("alice"),
                value: String::from("via embed"),
            }],
        }],
        content: String::from("ignored"),
        author_name: String::from("someone"),
    };
    let t = discord_message_to_simple_message(&m).unwrap();
    assert_eq!(t.user, "alice");
    assert_eq!(t.text, "via embed");
}

#[test]
fn embed_without_fields_falls_back_to_content() {
    let m = RawMessage {
        embeds: vec![RawEmbed { fields: Vec::new() }],
        content: String::from("plain text"),
        author_name: String::from("bob"),
    };
    let t = discord_message_to_simple_message(&m).unwrap();
    assert_eq!(t.user, "bob");
    assert_eq!(t.text, "plain text");
}

#[test]
fn message_with_neither_embed_nor_content_is_dropped() {
    let m = plain("bob", "");
    assert!(discord_message_to_simple_message(&m).is_none());
}

#[test]
fn history_is_reversed_and_filtered() {
    let history = vec![plain("bob", "second"), plain("bob", ""), plain("alice", "first")];
    let turns = history_to_turns(&history);
    assert_eq!(turns.len(), 2);
    assert_eq!(turns[0].user, "alice");
    assert_eq!(turns[0].text, "first");
    assert_eq!(turns[1].user, "bob");
    assert_eq!(turns[1].text, "second");
}

#[test]
fn dispatch_empty_reply_sends_invalid_response_notice() {
    let cfg = test_config();
    let data = completion_data_from_reply("", &cfg);
    assert_eq!(data.status, CompletionResult::Success);
    match process_response("chat", data, &cfg) {
        Action::SendNotice { notice } => {
            assert_eq!(notice, "**Invalid response** - empty response")
        },
        other => panic!("expected a notice, got {:?}", other),
    }
}

#[test]
fn dispatch_missing_reply_sends_invalid_response_notice() {
    let cfg = test_config();
    let data = CompletionData {
        status: CompletionResult::Success,
        reply_text: None,
        status_text: None,
    };
    match process_response("chat", data, &cfg) {
        Action::SendNotice { notice } => {
            assert_eq!(notice, "**Invalid response** - empty response")
        },
        other => panic!("expected a notice, got {:?}", other),
    }
}

#[test]
fn dispatch_reply_is_chunked_in_order() {
    let mut cfg = test_config();
    cfg.max_chars_per_reply_msg = 2;
    let data = CompletionData {
        status: CompletionResult::Success,
        reply_text: Some(String::from("hello")),
        status_text: None,
    };
    match process_response("chat", data, &cfg) {
        Action::SendChunks { chunks } => assert_eq!(chunks, vec!["he", "ll", "o"]),
        other => panic!("expected chunks, got {:?}", other),
    }
}

#[test]
fn dispatch_too_long_closes_the_thread() {
    let cfg = test_config();
    let data = CompletionData {
        status: CompletionResult::TooLong,
        reply_text: None,
        status_text: None,
    };
    match process_response("chat", data, &cfg) {
        Action::CloseThread { new_name, notice } => {
            assert_eq!(new_name, "inactive-chat");
            assert_eq!(notice, "This thread has been closed due to too long message");
        },
        other => panic!("expected a close, got {:?}", other),
    }
}

#[test]
fn dispatch_invalid_request_embeds_the_reason() {
    let cfg = test_config();
    let data = CompletionData {
        status: CompletionResult::InvalidRequest,
        reply_text: None,
        status_text: Some(String::from("bad prompt")),
    };
    match process_response("chat", data, &cfg) {
        Action::SendNotice { notice } => assert_eq!(notice, "**Invalid request** - bad prompt"),
        other => panic!("expected a notice, got {:?}", other),
    }
}

#[test]
fn dispatch_invalid_request_without_reason() {
    let cfg = test_config();
    let data = CompletionData {
        status: CompletionResult::InvalidRequest,
        reply_text: None,
        status_text: None,
    };
    match process_response("chat", data, &cfg) {
        Action::SendNotice { notice } => assert_eq!(notice, "**Invalid request** - "),
        other => panic!("expected a notice, got {:?}", other),
    }
}

#[test]
fn dispatch_other_error_embeds_the_reason() {
    let cfg = test_config();
    let data = CompletionData {
        status: CompletionResult::OtherError,
        reply_text: None,
        status_text: Some(String::from("engine down")),
    };
    match process_response("chat", data, &cfg) {
        Action::SendNotice { notice } => assert_eq!(notice, "**Error** - engine down"),
        other => panic!("expected a notice, got {:?}", other),
    }
}

#[test]
fn dispatch_moderation_outcomes_send_error_notice() {
    let cfg = test_config();
    for status in [CompletionResult::ModerationBlocked, CompletionResult::ModerationFlagged] {
        let data = CompletionData { status, reply_text: None, status_text: None };
        match process_response("chat", data, &cfg) {
            Action::SendNotice { notice } => assert_eq!(notice, "**Error** - "),
            other => panic!("expected a notice, got {:?}", other),
        }
    }
}

#[test]
fn scenario_reply_is_stripped_and_sent_as_one_chunk() {
    // History holds one human turn; the engine echoes a role prefix.
    let mut orch = Orchestrator::new(test_config(), snapshot(3, 42), 42, String::from("alice"));
    let mut author_fetches = 0;
    let a1 = orch.step(Event::Started);
    assert!(matches!(a1, Action::Wait { seconds: 3 }));
    let a2 = orch.step(Event::Waited);
    if matches!(a2, Action::FetchMessageAuthor { .. }) {
        author_fetches += 1;
    }
    assert!(matches!(a2, Action::FetchHistory));
    let a3 = orch.step(Event::HistoryFetched { messages: vec![plain("alice", "Hi there.")] });
    let prompt = match a3 {
        Action::RequestCompletion { prompt } => prompt,
        other => panic!("expected a completion request, got {:?}", other),
    };
    assert!(prompt.ends_with("\nalice: Hi there.\nBotty:"));
    let data = completion_data_from_reply("Assistant: Hello Alice!", &test_config());
    let a4 = orch.step(Event::Completed { data });
    match a4 {
        Action::SendChunks { chunks } => assert_eq!(chunks, vec!["Hello Alice!"]),
        other => panic!("expected chunks, got {:?}", other),
    }
    // The reference message was the newest all along: no author was fetched.
    assert_eq!(author_fetches, 0);
}

#[test]
fn scenario_empty_completion_sends_exactly_one_notice() {
    let mut orch = Orchestrator::new(test_config(), snapshot(3, 42), 42, String::from("alice"));
    orch.step(Event::Started);
    orch.step(Event::Waited);
    orch.step(Event::HistoryFetched { messages: vec![plain("alice", "Hi there.")] });
    let data = completion_data_from_reply("", &test_config());
    let a = orch.step(Event::Completed { data });
    match a {
        Action::SendNotice { notice } => {
            assert_eq!(notice, "**Invalid response** - empty response")
        },
        other => panic!("expected a notice, got {:?}", other),
    }
    // The attempt is over: nothing further is sent.
    assert!(matches!(orch.step(Event::Waited), Action::Finish));
}

#[test]
fn scenario_new_human_message_discards_the_reply() {
    // A newer message (43) exists; the bot posted it before the debounce, a
    // human overwrites it while the completion runs.
    let mut orch = Orchestrator::new(test_config(), snapshot(3, 43), 42, String::from("alice"));
    let a1 = orch.step(Event::Started);
    assert!(matches!(a1, Action::Wait { .. }));
    let a2 = orch.step(Event::Waited);
    assert!(matches!(a2, Action::FetchMessageAuthor { message_id: 43 }));
    let a3 = orch.step(Event::FetchedAuthor { author_id: 7 });
    assert!(matches!(a3, Action::FetchHistory));
    let a4 = orch.step(Event::HistoryFetched { messages: vec![plain("alice", "Hi there.")] });
    assert!(matches!(a4, Action::RequestCompletion { .. }));
    let data = completion_data_from_reply("Hello!", &test_config());
    let a5 = orch.step(Event::Completed { data });
    assert!(matches!(a5, Action::FetchMessageAuthor { message_id: 43 }));
    let a6 = orch.step(Event::FetchedAuthor { author_id: 8 });
    assert!(matches!(a6, Action::Finish));
}

#[test]
fn scenario_threshold_closes_without_completion() {
    let mut orch = Orchestrator::new(test_config(), snapshot(10, 42), 42, String::from("alice"));
    let a1 = orch.step(Event::Started);
    match a1 {
        Action::CloseThread { new_name, notice } => {
            assert_eq!(new_name, "inactive-chat");
            assert_eq!(notice, "This thread has been closed due to too long message");
        },
        other => panic!("expected a close, got {:?}", other),
    }
    // No completion is ever requested afterwards.
    assert!(matches!(orch.step(Event::Waited), Action::Finish));
}

#[test]
fn scenario_one_below_threshold_proceeds() {
    let mut orch = Orchestrator::new(test_config(), snapshot(9, 42), 42, String::from("alice"));
    assert!(matches!(orch.step(Event::Started), Action::Wait { .. }));
}

#[test]
fn closed_and_excluded_threads_are_skipped() {
    for name in ["inactive-chat", "activate-chat"] {
        let thread = ThreadSnapshot {
            id: 1,
            name: String::from(name),
            message_count: 0,
            owner_id: 7,
            last_message_id: 42,
        };
        let mut orch = Orchestrator::new(test_config(), thread, 42, String::from("alice"));
        assert!(matches!(orch.step(Event::Started), Action::Finish));
    }
}

#[test]
fn out_of_order_event_finishes_the_attempt() {
    let mut orch = Orchestrator::new(test_config(), snapshot(3, 42), 42, String::from("alice"));
    assert!(matches!(orch.step(Event::Waited), Action::Finish));
}
