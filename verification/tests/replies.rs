use oxidize::card::{footer_text, push_field, push_optional_field, Field};
use oxidize::clear::{cleared_text, failure_text, fetch_limit, MAX_BULK};
use oxidize::ping::{pong_text, response_time};

#[test]
fn cleared_reply_counts_the_messages() {
    assert_eq!(cleared_text(50), "Successfully deleted the last 50 messages.");
    assert_eq!(cleared_text(0), "Successfully deleted the last 0 messages.");
    assert_eq!(cleared_text(1), "Successfully deleted the last 1 messages.");
    assert_eq!(
        cleared_text(u64::MAX),
        "Successfully deleted the last 18446744073709551615 messages."
    );
}

#[test]
fn failed_clear_names_the_error() {
    assert_eq!(failure_text("Missing Permissions"), "There was an error: Missing Permissions");
    assert_eq!(failure_text(""), "There was an error: ");
}

#[test]
fn response_time_is_the_difference() {
    assert_eq!(response_time(750, 500), Some(250));
    assert_eq!(response_time(500, 500), Some(0));
    assert_eq!(response_time(999, 0), Some(999));
    assert_eq!(response_time(u32::MAX, 0), Some(u32::MAX));
}

#[test]
fn response_time_of_a_later_command_is_none() {
    assert_eq!(response_time(100, 900), None);
    assert_eq!(response_time(0, 1), None);
}

#[test]
fn pong_reply_tells_the_milliseconds() {
    assert_eq!(pong_text(250), "Pong! Response time: `250ms`");
    assert_eq!(pong_text(0), "Pong! Response time: `0ms`");
    assert_eq!(pong_text(u32::MAX), "Pong! Response time: `4294967295ms`");
}

#[test]
fn footer_names_bot_and_service() {
    assert_eq!(footer_text("Oxidize", "Steam"), "Oxidize | Steam");
    assert_eq!(footer_text("", "Movie"), " | Movie");
}

#[test]
fn fields_are_appended_in_order() {
    let mut fields = Vec::new();
    push_field(&mut fields, "A", "1".to_string(), true);
    push_optional_field(&mut fields, "B", None, false);
    push_optional_field(&mut fields, "C", Some("3".to_string()), false);
    assert_eq!(
        fields,
        vec![
            Field::new("A".to_string(), "1".to_string(), true),
            Field::new("C".to_string(), "3".to_string(), false),
        ]
    );
}

#[test]
fn fetch_limit_is_capped_at_the_bulk_maximum() {
    assert_eq!(MAX_BULK, 100);
    assert_eq!(fetch_limit(0), 0);
    assert_eq!(fetch_limit(50), 50);
    assert_eq!(fetch_limit(100), 100);
    assert_eq!(fetch_limit(101), 100);
    assert_eq!(fetch_limit(256), 100);
    assert_eq!(fetch_limit(u64::MAX), 100);
}
