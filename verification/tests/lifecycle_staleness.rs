use threadchat::config::Config;
use threadchat::lifecycle::{close_thread, thread_status, ThreadStatus};
use threadchat::staleness::{is_last_message_stale, is_stale_for_author, StalenessStep};

fn test_config() -> Config {
    Config {
        bot_name: String::from("Botty"),
        instructions: String::from("Be helpful."),
        activate_prefix: String::from("activate-"),
        inactivate_prefix: String::from("inactive-"),
        max_thread_messages: 10,
        seconds_delay_receiving_msg: 3,
        max_chars_per_reply_msg: 1500,
        bot_id: 7,
    }
}

#[test]
fn thread_below_threshold_is_active() {
    let cfg = test_config();
    assert_eq!(thread_status("chat", 9, &cfg), ThreadStatus::Active);
    assert_eq!(thread_status("chat", 0, &cfg), ThreadStatus::Active);
}

#[test]
fn thread_at_threshold_is_overflowing() {
    let cfg = test_config();
    assert_eq!(thread_status("chat", 10, &cfg), ThreadStatus::Overflowing);
    assert_eq!(thread_status("chat", 11, &cfg), ThreadStatus::Overflowing);
}

#[test]
fn marked_thread_is_excluded() {
    let cfg = test_config();
    assert_eq!(thread_status("activate-chat", 0, &cfg), ThreadStatus::Excluded);
}

#[test]
fn closed_thread_stays_closed_whatever_the_count() {
    let cfg = test_config();
    assert_eq!(thread_status("inactive-chat", 0, &cfg), ThreadStatus::Closed);
    assert_eq!(thread_status("inactive-chat", 999, &cfg), ThreadStatus::Closed);
}

#[test]
fn close_plan_prepends_marker_and_announces() {
    let cfg = test_config();
    let plan = close_thread("chat", &cfg);
    assert_eq!(plan.new_name, "inactive-chat");
    assert_eq!(plan.notice, "This thread has been closed due to too long message");
    assert_eq!(thread_status(&plan.new_name, 0, &cfg), ThreadStatus::Closed);
}

#[test]
fn reference_equal_to_last_is_not_stale_without_fetch() {
    assert_eq!(is_last_message_stale(42, 42), StalenessStep::NotStale);
}

#[test]
fn reference_behind_last_asks_for_the_author() {
    assert_eq!(is_last_message_stale(42, 43), StalenessStep::FetchAuthor { message_id: 43 });
}

#[test]
fn bot_author_is_not_stale_human_author_is() {
    assert!(!is_stale_for_author(7, 7));
    assert!(is_stale_for_author(8, 7));
}
