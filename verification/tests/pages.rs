use shiryoku::compose::{parse_attachments, ComposeState};
use shiryoku::config::AppConfig;
use shiryoku::configuration::{edit_emails, ConfigState};
use shiryoku::enums::{
    ComposeField, ConfigField, CurrentPage, DashboardFocus, InputMode, JobStatus, ScheduledFocus,
};
use shiryoku::models::{
    default_color, AttachmentStub, EmailDraft, FilterOptions, ScheduleMetadata, ScheduledJob,
    UserIdentity,
};
use shiryoku::scheduled::{download_folder, step_down, step_up, ScheduledState};

fn list(items: &[&str]) -> Vec<String> {
    items.iter().map(|item| item.to_string()).collect()
}

fn job(id: &str, recipient: &str, status: JobStatus) -> ScheduledJob {
    ScheduledJob {
        id: id.to_string(),
        recipient: recipient.to_string(),
        subject: "s".to_string(),
        body: "b".to_string(),
        scheduled_at: 0,
        recipient_timezone: "UTC".to_string(),
        status,
        attachments: vec![AttachmentStub { filename: "f".to_string(), content: vec![1] }],
    }
}

#[test]
fn defaults_are_empty_but_for_the_colour() {
    assert_eq!(default_color(), "#179299");
    let identity = UserIdentity::default();
    assert_eq!(identity.footer_color, "#179299");
    assert!(identity.name.is_empty() && identity.emails.is_empty());
    let config = AppConfig::default();
    assert_eq!(config.identity.footer_color, "#179299");
    assert!(config.smtp_username.is_empty() && config.api_secret.is_empty());
    let draft = EmailDraft::default();
    assert!(draft.recipient.is_empty() && draft.attachments.is_empty());
    assert!(draft.scheduled_at.is_none());
    assert!(ScheduleMetadata::default().timezone.is_empty());
    assert!(FilterOptions::default().countries.is_empty());
    assert_eq!(InputMode::default(), InputMode::Normal);
    assert_eq!(CurrentPage::default(), CurrentPage::Compose);
}

#[test]
fn modes_toggle() {
    assert_eq!(InputMode::Normal.toggle(), InputMode::Editing);
    assert_eq!(InputMode::Editing.toggle(), InputMode::Normal);
}

#[test]
fn focus_orders_are_cycles() {
    let mut field = ComposeField::Recipient;
    let mut seen = Vec::new();
    for _ in 0..5 {
        seen.push(field);
        assert_eq!(field.step(true).step(false), field);
        assert_eq!(field.step(false).step(true), field);
        field = field.step(true);
    }
    assert_eq!(field, ComposeField::Recipient);
    assert_eq!(
        seen,
        vec![
            ComposeField::Recipient,
            ComposeField::Subject,
            ComposeField::Attachments,
            ComposeField::Body,
            ComposeField::SendButton
        ]
    );

    let mut field = ConfigField::Name;
    for _ in 0..11 {
        assert_eq!(field.step(true).step(false), field);
        field = field.step(true);
    }
    assert_eq!(field, ConfigField::Name);
    assert_eq!(ConfigField::Name.step(false), ConfigField::ApiSecret);
    assert_eq!(ConfigField::Emails.step(true), ConfigField::FooterColor);

    let mut focus = DashboardFocus::FilterRecipient;
    for _ in 0..4 {
        assert_eq!(focus.step(true).step(false), focus);
        focus = focus.step(true);
    }
    assert_eq!(focus, DashboardFocus::FilterRecipient);
    assert_eq!(DashboardFocus::FilterRecipient.step(false), DashboardFocus::List);

    assert_eq!(ScheduledFocus::FilterRecipient.step(true), ScheduledFocus::FilterStatus);
    assert_eq!(ScheduledFocus::FilterStatus.step(true), ScheduledFocus::List);
    assert_eq!(ScheduledFocus::List.step(true), ScheduledFocus::FilterRecipient);
    assert_eq!(ScheduledFocus::FilterRecipient.step(false), ScheduledFocus::List);
}

#[test]
fn config_fields_take_keystrokes() {
    let mut state = ConfigState::new(AppConfig::default());
    assert_eq!(state.field, ConfigField::Name);
    let typed = [
        (ConfigField::Name, "Ada"),
        (ConfigField::Role, "Analyst"),
        (ConfigField::Department, "Engines"),
        (ConfigField::Institution, "RS"),
        (ConfigField::Phone, "+44"),
    ];
    for (field, text) in typed {
        assert_eq!(state.field, field);
        for c in text.chars() {
            state.handle_input(c);
        }
        state.handle_input('!');
        state.handle_backspace();
        state.cycle_field(true);
    }
    assert_eq!(state.field, ConfigField::Emails);
    state.cycle_field(true);
    assert_eq!(state.field, ConfigField::FooterColor);
    state.handle_backspace();
    state.handle_input('0');
    state.cycle_field(true);
    state.handle_input('u');
    state.cycle_field(true);
    state.handle_input('p');
    state.cycle_field(true);
    state.handle_input('w');
    state.cycle_field(true);
    assert_eq!(state.field, ConfigField::ApiSecret);
    state.handle_input('s');
    state.handle_backspace();
    state.handle_backspace();
    state.handle_input('k');
    state.cycle_field(true);
    assert_eq!(state.field, ConfigField::Name);
    state.cycle_field(false);
    assert_eq!(state.field, ConfigField::ApiSecret);

    let data = &state.data;
    assert_eq!(data.identity.name, "Ada");
    assert_eq!(data.identity.role, "Analyst");
    assert_eq!(data.identity.department, "Engines");
    assert_eq!(data.identity.institution, "RS");
    assert_eq!(data.identity.phone, "+44");
    assert_eq!(data.identity.footer_color, "#179290");
    assert_eq!(data.smtp_username, "u");
    assert_eq!(data.smtp_app_password, "p");
    assert_eq!(data.worker_url, "w");
    assert_eq!(data.api_secret, "k");
    assert!(data.identity.emails.is_empty());
}

#[test]
fn emails_are_edited_as_one_text() {
    let mut state = ConfigState::new(AppConfig::default());
    state.field = ConfigField::Emails;
    for c in "a@x.org".chars() {
        state.handle_input(c);
    }
    assert_eq!(state.data.identity.emails, list(&["a@x.org"]));
    state.handle_input(',');
    assert_eq!(state.data.identity.emails, list(&["a@x.org", ""]));
    state.handle_input('b');
    // the empty entry was joined back as "a@x.org, " and the letter follows the blank
    assert_eq!(state.data.identity.emails, list(&["a@x.org", "b"]));
    state.handle_backspace();
    assert_eq!(state.data.identity.emails, list(&["a@x.org", ""]));
    state.handle_backspace();
    // "a@x.org, " loses its blank; the comma still splits
    assert_eq!(state.data.identity.emails, list(&["a@x.org", ""]));
}

#[test]
fn typing_a_blank_into_the_emails_is_lost() {
    let mut state = ConfigState::new(AppConfig::default());
    state.field = ConfigField::Emails;
    state.handle_input('a');
    state.handle_input(' ');
    assert_eq!(state.data.identity.emails, list(&["a"]));
    state.handle_input('b');
    assert_eq!(state.data.identity.emails, list(&["ab"]));
}

#[test]
fn emails_follow_the_joined_text() {
    let after = |emails: &[&str], key: Option<char>| -> Vec<String> {
        let mut text = emails.join(", ");
        match key {
            Some(c) => text.push(c),
            None => {
                text.pop();
            }
        }
        if text.is_empty() {
            Vec::new()
        } else {
            text.split(',').map(|piece| piece.trim().to_string()).collect()
        }
    };
    let cases: [&[&str]; 6] = [&[], &["a"], &["a", "b"], &["a", ""], &["", ""], &[" x ", "y"]];
    for emails in cases {
        for key in [None, Some('z'), Some(','), Some(' ')] {
            assert_eq!(edit_emails(&list(emails), key), after(emails, key), "{:?} {:?}", emails, key);
        }
    }
    assert_eq!(edit_emails(&list(&["a"]), None), Vec::<String>::new());
    assert_eq!(edit_emails(&list(&[]), None), Vec::<String>::new());
}

#[test]
fn attachments_are_read_from_their_text() {
    assert_eq!(parse_attachments(""), Vec::<String>::new());
    assert_eq!(parse_attachments(" ; ;; "), Vec::<String>::new());
    assert_eq!(parse_attachments("a.txt"), list(&["a.txt"]));
    assert_eq!(parse_attachments(" a.txt ;b c.pdf;  ;/tmp/x "), list(&["a.txt", "b c.pdf", "/tmp/x"]));
    assert_eq!(parse_attachments("a,b"), list(&["a,b"]));
}

#[test]
fn compose_page_edits_recipient_subject_and_attachments() {
    let mut draft = EmailDraft::default();
    draft.attachments = list(&["one.txt", "two.txt"]);
    draft.body = "body".to_string();
    let mut state = ComposeState::new(draft);
    assert_eq!(state.field, ComposeField::Recipient);
    assert_eq!(state.attachment_input, "one.txt; two.txt");

    state.handle_input('b');
    state.handle_input('o');
    state.handle_input('x');
    state.handle_backspace();
    state.handle_input('b');
    assert_eq!(state.draft.recipient, "bob");
    state.cycle_field(true);
    state.handle_backspace();
    state.handle_input('H');
    state.handle_input('i');
    assert_eq!(state.draft.subject, "Hi");
    state.cycle_field(true);
    assert_eq!(state.field, ComposeField::Attachments);
    for c in "; three.txt ".chars() {
        state.handle_input(c);
    }
    assert_eq!(state.draft.attachments, list(&["one.txt", "two.txt"]));
    state.sync_attachments();
    assert_eq!(state.draft.attachments, list(&["one.txt", "two.txt", "three.txt"]));
    state.cycle_field(true);
    assert_eq!(state.field, ComposeField::Body);
    state.handle_input('x');
    state.handle_backspace();
    state.cycle_field(true);
    assert_eq!(state.field, ComposeField::SendButton);
    state.handle_input('x');
    state.handle_backspace();
    assert_eq!(state.draft.body, "body");
    assert_eq!(state.draft.recipient, "bob");
    assert_eq!(state.draft.subject, "Hi");
    state.cycle_field(false);
    assert_eq!(state.field, ComposeField::Body);
}

#[test]
fn scheduled_jobs_are_filtered_by_recipient_and_status() {
    let mut state = ScheduledState::default();
    state.jobs = vec![
        job("1", "ann@example.org", JobStatus::Pending),
        job("2", "bob@example.org", JobStatus::Sent),
        job("3", "ann@other.net", JobStatus::Failed),
        job("4", "ANN@example.org", JobStatus::Pending),
    ];
    let ids = |state: &ScheduledState| -> Vec<String> {
        state.get_filtered_jobs().iter().map(|job| job.id.clone()).collect()
    };
    assert_eq!(ids(&state), list(&["1", "2", "3", "4"]));
    assert_eq!(state.shown_count(), 4);
    state.filter_recipient = "ann".to_string();
    assert_eq!(ids(&state), list(&["1", "3"]));
    state.toggle_status_filter();
    assert_eq!(state.filter_status, Some(JobStatus::Pending));
    assert_eq!(ids(&state), list(&["1"]));
    state.toggle_status_filter();
    assert_eq!(state.filter_status, Some(JobStatus::Sent));
    assert_eq!(ids(&state), Vec::<String>::new());
    assert_eq!(state.shown_count(), 0);
    state.filter_recipient.clear();
    assert_eq!(ids(&state), list(&["2"]));
    state.toggle_status_filter();
    assert_eq!(state.filter_status, Some(JobStatus::Failed));
    assert_eq!(ids(&state), list(&["3"]));
    state.toggle_status_filter();
    assert_eq!(state.filter_status, None);
}

#[test]
fn scheduled_page_keeps_focus_while_details_are_open() {
    let mut state = ScheduledState::default();
    state.cycle_focus(true);
    assert_eq!(state.focus, ScheduledFocus::FilterStatus);
    state.selected_job_id = Some("1".to_string());
    state.cycle_focus(true);
    state.cycle_focus(false);
    assert_eq!(state.focus, ScheduledFocus::FilterStatus);
    state.selected_job_id = None;
    state.cycle_focus(false);
    assert_eq!(state.focus, ScheduledFocus::FilterRecipient);
    state.handle_input('a');
    state.handle_input('b');
    state.handle_backspace();
    assert_eq!(state.filter_recipient, "a");
    state.cycle_focus(true);
    state.handle_input('z');
    state.handle_backspace();
    assert_eq!(state.filter_recipient, "a");
}

#[test]
fn highlight_wraps_around_the_list() {
    assert_eq!(step_down(None, 3), 0);
    assert_eq!(step_down(Some(0), 3), 1);
    assert_eq!(step_down(Some(1), 3), 2);
    assert_eq!(step_down(Some(2), 3), 0);
    assert_eq!(step_down(Some(7), 3), 0);
    assert_eq!(step_down(Some(0), 0), 0);
    assert_eq!(step_down(Some(0), 1), 0);
    assert_eq!(step_up(None, 3), 0);
    assert_eq!(step_up(Some(0), 3), 2);
    assert_eq!(step_up(Some(2), 3), 1);
    assert_eq!(step_up(Some(0), 0), 0);
    assert_eq!(step_up(Some(9), 3), 8);
}

#[test]
fn highlighted_job_can_be_opened_and_found() {
    let mut state = ScheduledState::default();
    state.jobs = vec![
        job("a", "x@example.org", JobStatus::Sent),
        job("b", "y@example.org", JobStatus::Pending),
        job("c", "z@example.org", JobStatus::Pending),
    ];
    state.filter_status = Some(JobStatus::Pending);
    state.open_selected();
    assert!(state.selected_job_id.is_none());
    state.select_next();
    assert_eq!(state.selected_row, Some(0));
    state.select_next();
    assert_eq!(state.selected_row, Some(1));
    state.open_selected();
    assert_eq!(state.selected_job_id.as_deref(), Some("c"));
    state.select_next();
    assert_eq!(state.selected_row, Some(0));
    state.select_previous();
    assert_eq!(state.selected_row, Some(1));
    state.selected_row = Some(5);
    state.selected_job_id = None;
    state.open_selected();
    assert!(state.selected_job_id.is_none());
    assert_eq!(state.find_job("b"), Some(1));
    assert_eq!(state.find_job("zz"), None);
    state.jobs.push(job("b", "again@example.org", JobStatus::Sent));
    assert_eq!(state.find_job("b"), Some(1));
}

#[test]
fn download_folders_hold_letters_and_numbers_only() {
    assert_eq!(download_folder("bob@example.org"), "bob_example_org");
    assert_eq!(download_folder("Ünï cödé-9"), "Ünï_cödé_9");
    assert_eq!(download_folder(""), "");
    assert_eq!(download_folder("../.."), "_____");
    for sample in ["a b", "Bob <bob@x.y>", "٣4", "x/y\\z"] {
        assert_eq!(download_folder(sample), sample.replace(|c: char| !c.is_alphanumeric(), "_"));
    }
}
