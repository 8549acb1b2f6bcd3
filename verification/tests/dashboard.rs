use shiryoku::dashboard::{min_opens, passes, summarise, DashboardState, Instant, RecipientSummary};
use shiryoku::enums::DashboardFocus;
use shiryoku::models::LogEntry;
use shiryoku::sorting::{sort_stable, Ranked};
use shiryoku::tracker::tracking_token;

fn entry(id: u32, address: &str, timestamp: &str, country: &str) -> LogEntry {
    LogEntry {
        id,
        tracking_id: tracking_token(address),
        timestamp: timestamp.to_string(),
        ip: "127.0.0.1".to_string(),
        country: country.to_string(),
        city: "City".to_string(),
        user_agent: "agent".to_string(),
        timezone: "UTC".to_string(),
    }
}

fn state(logs: Vec<LogEntry>) -> DashboardState {
    let mut state = DashboardState::default();
    state.logs = logs;
    state
}

fn sample() -> Vec<LogEntry> {
    vec![
        entry(1, "ann@example.org", "2024-06-01T10:00:00Z", "France"),
        entry(2, "bob@example.org", "2024-06-03T10:00:00Z", "Germany"),
        entry(3, "ann@example.org", "2024-06-05T10:00:00Z", "Spain"),
        entry(4, "cy@example.org", "2024-06-02T10:00:00Z", "france"),
        entry(5, "ann@example.org", "2024-06-04T10:00:00Z", "Italy"),
    ]
}

fn emails(summaries: &[RecipientSummary]) -> Vec<&str> {
    summaries.iter().map(|summary| summary.decoded_email.as_str()).collect()
}

#[test]
fn openings_are_gathered_by_recipient_latest_first() {
    let summaries = state(sample()).get_aggregated_logs();
    assert_eq!(emails(&summaries), vec!["ann@example.org", "bob@example.org", "cy@example.org"]);
    let ann = &summaries[0];
    assert_eq!(ann.tracking_id, tracking_token("ann@example.org"));
    assert_eq!(ann.open_count, 3);
    assert_eq!(ann.country, "Spain");
    assert_eq!(ann.logs.iter().map(|log| log.id).collect::<Vec<u32>>(), vec![3, 5, 1]);
    let at = chrono::DateTime::parse_from_rfc3339("2024-06-05T10:00:00Z").unwrap();
    assert_eq!(ann.last_seen_raw, Instant { seconds: at.timestamp(), nanos: 0 });
    assert_eq!(summaries[1].open_count, 1);
    assert_eq!(summaries[2].country, "france");
}

#[test]
fn empty_log_gives_no_summary() {
    assert!(state(Vec::new()).get_aggregated_logs().is_empty());
    assert_eq!(state(Vec::new()).shown_count(), 0);
}

#[test]
fn summaries_are_filtered() {
    let mut page = state(sample());
    page.filter_min_opens = "2".to_string();
    assert_eq!(emails(&page.get_aggregated_logs()), vec!["ann@example.org"]);
    page.filter_min_opens = "x".to_string();
    assert_eq!(page.get_aggregated_logs().len(), 3);
    page.filter_min_opens = "4".to_string();
    assert!(page.get_aggregated_logs().is_empty());
    page.filter_min_opens.clear();

    page.filter_recipient = "example.org".to_string();
    assert_eq!(page.get_aggregated_logs().len(), 3);
    page.filter_recipient = "bob".to_string();
    assert_eq!(emails(&page.get_aggregated_logs()), vec!["bob@example.org"]);
    page.filter_recipient = "BOB".to_string();
    assert!(page.get_aggregated_logs().is_empty());
    page.filter_recipient.clear();

    page.filter_country = "FRAN".to_string();
    assert_eq!(emails(&page.get_aggregated_logs()), vec!["cy@example.org"]);
    page.filter_country = "pain".to_string();
    assert_eq!(emails(&page.get_aggregated_logs()), vec!["ann@example.org"]);
    page.filter_recipient = "bob".to_string();
    assert!(page.get_aggregated_logs().is_empty());
}

#[test]
fn equally_late_recipients_stay_in_log_order() {
    let logs = vec![
        entry(1, "z@example.org", "2024-06-01T10:00:00Z", "A"),
        entry(2, "a@example.org", "2024-06-01T10:00:00Z", "B"),
        entry(3, "m@example.org", "2024-06-01T10:00:00+00:00", "C"),
        entry(4, "late@example.org", "2024-06-01T10:00:00.5Z", "D"),
    ];
    let summaries = state(logs).get_aggregated_logs();
    assert_eq!(
        emails(&summaries),
        vec!["late@example.org", "z@example.org", "a@example.org", "m@example.org"]
    );
    assert_eq!(summaries[0].last_seen_raw.nanos, 500_000_000);
}

#[test]
fn timestamps_that_are_no_dates_count_as_the_epoch() {
    let logs = vec![
        entry(1, "odd@example.org", "yesterday", "A"),
        entry(2, "old@example.org", "1969-12-31T23:59:59Z", "B"),
        entry(3, "new@example.org", "1970-01-01T00:00:01Z", "C"),
    ];
    let summaries = state(logs).get_aggregated_logs();
    assert_eq!(emails(&summaries), vec!["new@example.org", "odd@example.org", "old@example.org"]);
    assert_eq!(summaries[1].last_seen_raw, Instant { seconds: 0, nanos: 0 });
    assert_eq!(summaries[2].last_seen_raw, Instant { seconds: -1, nanos: 0 });
}

#[test]
fn openings_are_ordered_by_their_text() {
    let logs = vec![
        entry(1, "a@example.org", "2024-06-01T10:00:00Z", "first"),
        entry(2, "a@example.org", "2024-06-01T10:00:00Z", "second"),
        entry(3, "a@example.org", "9", "text wins"),
        entry(4, "a@example.org", "2024-06-01T10:00:00Z", "third"),
    ];
    let summaries = state(logs).get_aggregated_logs();
    assert_eq!(summaries.len(), 1);
    assert_eq!(summaries[0].logs.iter().map(|log| log.id).collect::<Vec<u32>>(), vec![3, 1, 2, 4]);
    assert_eq!(summaries[0].country, "text wins");
    assert_eq!(summaries[0].last_seen_raw, Instant { seconds: 0, nanos: 0 });
}

#[test]
fn tokens_that_are_no_addresses_are_shown_as_they_are() {
    let mut odd = entry(1, "x", "2024-06-01T10:00:00Z", "A");
    odd.tracking_id = "not a token".to_string();
    let summaries = state(vec![odd]).get_aggregated_logs();
    assert_eq!(summaries[0].decoded_email, "not a token");
    assert_eq!(summaries[0].tracking_id, "not a token");
}

#[test]
fn summaries_of_nothing_are_empty() {
    let summary = summarise("YQ".to_string(), Vec::new());
    assert_eq!(summary.decoded_email, "a");
    assert_eq!(summary.open_count, 0);
    assert_eq!(summary.country, "");
    assert_eq!(summary.last_seen_raw, Instant { seconds: 0, nanos: 0 });
}

#[test]
fn least_number_of_openings_is_read_leniently() {
    assert_eq!(min_opens(""), 0);
    assert_eq!(min_opens("3"), 3);
    assert_eq!(min_opens("+3"), 3);
    assert_eq!(min_opens("-3"), 0);
    assert_eq!(min_opens("three"), 0);
    assert_eq!(min_opens("99999999999999999999999999"), 0);
    for text in ["0", "12", "٣", "18446744073709551615"] {
        assert_eq!(min_opens(text), text.parse::<usize>().unwrap_or(0));
    }
}

#[test]
fn filters_are_applied_one_by_one() {
    let summary = summarise(
        tracking_token("ann@example.org"),
        vec![entry(1, "ann@example.org", "2024-06-01T10:00:00Z", "Österreich")],
    );
    assert!(passes(&summary, 0, "", ""));
    assert!(passes(&summary, 1, "ann", "öster"));
    assert!(passes(&summary, 1, "", "ÖSTER"));
    assert!(!passes(&summary, 2, "", ""));
    assert!(!passes(&summary, 0, "bob", ""));
    assert!(!passes(&summary, 0, "", "france"));
}

#[test]
fn dashboard_filters_take_keystrokes() {
    let mut page = DashboardState::default();
    assert_eq!(page.focus, DashboardFocus::FilterRecipient);
    page.handle_input('a');
    page.handle_input('b');
    page.handle_backspace();
    page.cycle_focus(true);
    page.handle_input('F');
    page.cycle_focus(true);
    assert_eq!(page.focus, DashboardFocus::FilterMinOpens);
    page.handle_input('1');
    page.handle_input('x');
    page.handle_input('٣');
    page.handle_input('-');
    page.handle_input('2');
    page.handle_backspace();
    page.cycle_focus(true);
    assert_eq!(page.focus, DashboardFocus::List);
    page.handle_input('z');
    page.handle_backspace();
    assert_eq!(page.filter_recipient, "a");
    assert_eq!(page.filter_country, "F");
    assert_eq!(page.filter_min_opens, "1٣");
    page.selected_summary_id = Some("id".to_string());
    page.cycle_focus(true);
    assert_eq!(page.focus, DashboardFocus::List);
    page.selected_summary_id = None;
    page.cycle_focus(true);
    assert_eq!(page.focus, DashboardFocus::FilterRecipient);
    page.cycle_focus(false);
    assert_eq!(page.focus, DashboardFocus::List);
}

#[test]
fn highlighted_summary_can_be_opened() {
    let mut page = state(sample());
    page.open_selected();
    assert!(page.selected_summary_id.is_none());
    page.select_previous();
    assert_eq!(page.selected_row, Some(0));
    page.select_previous();
    assert_eq!(page.selected_row, Some(2));
    page.select_next();
    assert_eq!(page.selected_row, Some(0));
    page.select_next();
    assert_eq!(page.selected_row, Some(1));
    page.open_selected();
    assert_eq!(page.selected_summary_id, Some(tracking_token("bob@example.org")));
    page.selected_row = Some(3);
    page.selected_summary_id = None;
    page.open_selected();
    assert!(page.selected_summary_id.is_none());
}

#[test]
fn sort_is_stable_and_complete() {
    let by_time = |logs: Vec<LogEntry>| -> Vec<u32> {
        sort_stable(logs).iter().map(|log| log.id).collect()
    };
    let log = |id: u32, timestamp: &str| entry(id, "a@example.org", timestamp, "");
    assert_eq!(by_time(Vec::new()), Vec::<u32>::new());
    assert_eq!(by_time(vec![log(1, "b")]), vec![1]);
    assert_eq!(by_time(vec![log(1, "a"), log(2, "b"), log(3, "c")]), vec![3, 2, 1]);
    assert_eq!(by_time(vec![log(1, "c"), log(2, "b"), log(3, "a")]), vec![1, 2, 3]);
    assert_eq!(
        by_time(vec![log(1, "b"), log(2, "a"), log(3, "b"), log(4, "c"), log(5, "a"), log(6, "b")]),
        vec![4, 1, 3, 6, 2, 5]
    );
    let texts = ["m", "a", "z", "m", "b", "a", "", "zz", "m"];
    let logs: Vec<LogEntry> =
        texts.iter().enumerate().map(|(i, text)| log(i as u32, text)).collect();
    let mut expected: Vec<(u32, &str)> =
        texts.iter().enumerate().map(|(i, text)| (i as u32, *text)).collect();
    expected.sort_by(|a, b| b.1.cmp(a.1));
    assert_eq!(by_time(logs), expected.iter().map(|pair| pair.0).collect::<Vec<u32>>());
    assert!(log(1, "b").is_before(&log(2, "a")));
    assert!(!log(1, "a").is_before(&log(2, "a")));
}
