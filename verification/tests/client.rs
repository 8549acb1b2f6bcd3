use shiryoku::client::{
    cancel_url, delete_logs_url, fill_schedule_form, filters_url, judge_response, logs_url,
    schedule_request, schedule_url, scheduled_url, Request,
};
use shiryoku::compiler::{CompiledEmail, InlineImage};
use shiryoku::files::LoadedFile;
use shiryoku::schedule::{ResolvedSchedule, FIRST_INSTANT, LAST_INSTANT};

fn compiled() -> CompiledEmail {
    CompiledEmail {
        html_body: "<p>h</p>".to_string(),
        plain_body: "p".to_string(),
        inline_images: vec![
            InlineImage { cid: "cid-a".to_string(), path: "a.png".to_string() },
            InlineImage { cid: "cid-b".to_string(), path: "dir/b.gif".to_string() },
        ],
        attachments: vec!["/tmp/r.pdf".to_string(), "..".to_string(), "gone.txt".to_string()],
    }
}

fn pair(name: &str, value: &str) -> (String, String) {
    (name.to_string(), value.to_string())
}

#[test]
fn addresses_carry_the_secret() {
    let base = "https://w.example";
    assert_eq!(logs_url(base, "s3"), "https://w.example/api/logs?secret=s3");
    assert_eq!(filters_url(base, "s3"), "https://w.example/api/filters?secret=s3");
    assert_eq!(
        delete_logs_url(base, "s3", "TOKEN"),
        "https://w.example/api/logs?secret=s3&tracking_id=TOKEN"
    );
    assert_eq!(schedule_url(base, "s3"), "https://w.example/api/schedule?secret=s3");
    assert_eq!(scheduled_url(base, "s3"), "https://w.example/api/scheduled?secret=s3");
    assert_eq!(cancel_url(base, "s3", "42"), "https://w.example/api/scheduled?secret=s3&id=42");
    assert_eq!(logs_url("", ""), "/api/logs?secret=");
}

#[test]
fn success_is_a_status_from_200_to_299() {
    for code in [200u16, 201, 204, 299] {
        assert_eq!(judge_response(Request::FetchLogs, code, "x", "y"), Ok(()));
    }
    for code in [0u16, 100, 199, 300, 301, 404, 500, 65535] {
        assert!(judge_response(Request::FetchLogs, code, "x", "y").is_err());
    }
}

#[test]
fn refusals_name_the_status() {
    assert_eq!(
        judge_response(Request::FetchLogs, 404, "Not Found", "body"),
        Err("Worker returned error: 404 Not Found".to_string())
    );
    for request in
        [Request::FetchFilters, Request::DeleteLogs, Request::FetchScheduled, Request::CancelScheduled]
    {
        assert_eq!(
            judge_response(request, 500, "Internal Server Error", "body"),
            Err("Worker error: 500 Internal Server Error".to_string())
        );
    }
    assert_eq!(
        judge_response(Request::Schedule, 400, "Bad Request", "date is in the past"),
        Err("Worker rejected schedule: 400 Bad Request: date is in the past".to_string())
    );
}

#[test]
fn refusals_hold_the_code_whatever_the_reason() {
    for code in [0u16, 7, 199, 300, 418, 503, 65535] {
        for request in [Request::FetchLogs, Request::DeleteLogs, Request::Schedule] {
            let message = judge_response(request, code, "", "the body").unwrap_err();
            assert!(message.contains(&code.to_string()), "{}", message);
            assert_eq!(message.contains("the body"), request == Request::Schedule);
        }
    }
    assert_eq!(
        judge_response(Request::Schedule, 502, "", ""),
        Err("Worker rejected schedule: 502 : ".to_string())
    );
}

#[test]
fn schedule_request_holds_the_fields_and_the_files_that_were_read() {
    let request = schedule_request(
        "https://w.example",
        "s3",
        compiled(),
        "Subject".to_string(),
        "bob@example.org".to_string(),
        ResolvedSchedule { timestamp: 1718440200 },
        "user".to_string(),
        "pass".to_string(),
        "Ada".to_string(),
        vec![Some(vec![1, 2]), Some(vec![3]), None],
        vec![None, Some(vec![9])],
    )
    .unwrap();
    assert_eq!(request.url, "https://w.example/api/schedule?secret=s3");
    assert_eq!(
        request.form.fields,
        vec![
            pair("recipient", "bob@example.org"),
            pair("subject", "Subject"),
            pair("html_body", "<p>h</p>"),
            pair("plain_body", "p"),
            pair("scheduled_at", "2024-06-15T08:30:00+00:00"),
            pair("smtp_username", "user"),
            pair("smtp_password", "pass"),
            pair("sender_name", "Ada"),
        ]
    );
    let files = &request.form.files;
    assert_eq!(files.len(), 3);
    assert_eq!(files[0].field, "attachments");
    assert_eq!(files[0].file_name, "r.pdf");
    assert_eq!(files[0].content_type, "application/pdf");
    assert_eq!(files[0].contents, vec![1, 2]);
    assert_eq!(files[1].field, "attachments");
    assert_eq!(files[1].file_name, "attachment.bin");
    assert_eq!(files[1].content_type, "application/octet-stream");
    assert_eq!(files[1].contents, vec![3]);
    assert_eq!(files[2].field, "inline_images");
    assert_eq!(files[2].file_name, "cid-b");
    assert_eq!(files[2].content_type, "image/gif");
    assert_eq!(files[2].contents, vec![9]);
}

#[test]
fn instants_are_written_in_rfc3339() {
    let at = |timestamp: i64| -> Option<String> {
        schedule_request(
            "",
            "",
            compiled(),
            String::new(),
            String::new(),
            ResolvedSchedule { timestamp },
            String::new(),
            String::new(),
            String::new(),
            Vec::new(),
            Vec::new(),
        )
        .map(|request| request.form.fields[4].1.clone())
    };
    assert_eq!(at(0).as_deref(), Some("1970-01-01T00:00:00+00:00"));
    assert_eq!(at(-1).as_deref(), Some("1969-12-31T23:59:59+00:00"));
    assert_eq!(at(1730611800).as_deref(), Some("2024-11-03T05:30:00+00:00"));
    assert_eq!(at(i64::MAX), None);
    assert_eq!(at(i64::MIN), None);
    assert_eq!(at(LAST_INSTANT).as_deref(), Some("+262142-12-31T23:59:59+00:00"));
    assert_eq!(at(LAST_INSTANT + 1), None);
    assert_eq!(at(FIRST_INSTANT).as_deref(), Some("-262143-01-01T00:00:00+00:00"));
    assert_eq!(at(FIRST_INSTANT - 1), None);
}

#[test]
fn form_files_follow_the_lists() {
    let file = |name: Option<&str>, contents: Option<Vec<u8>>| LoadedFile {
        file_name: name.map(|name| name.to_string()),
        content_type: "text/plain".to_string(),
        contents,
    };
    let form = fill_schedule_form(
        compiled(),
        "s".to_string(),
        "r".to_string(),
        "when".to_string(),
        "u".to_string(),
        "p".to_string(),
        "n".to_string(),
        vec![file(Some("a"), None), file(None, Some(vec![1]))],
        vec![file(Some("x"), Some(vec![2])), file(Some("y"), Some(vec![3])), file(Some("z"), Some(vec![4]))],
    );
    assert_eq!(form.fields[4], pair("scheduled_at", "when"));
    let names: Vec<(&str, &str)> =
        form.files.iter().map(|file| (file.field.as_str(), file.file_name.as_str())).collect();
    assert_eq!(
        names,
        vec![("attachments", "attachment.bin"), ("inline_images", "cid-a"), ("inline_images", "cid-b")]
    );
}
