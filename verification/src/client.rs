//! What is said to the tracking and scheduling service, and how its
//! answers are read. The library builds addresses and form contents and
//! judges status codes; sending is the caller's part.

use vstd::prelude::*;
use vstd::string::*;
use crate::compiler::{image_cids, image_paths, CompiledEmail};
use crate::files::{content_views, describe_files, file_views, files_hold, FileView, LoadedFile};
use crate::mailer::image_path_list;
use crate::text::{decimal_text, has_substring, texts, zero_pad, zero_padded};
use crate::schedule::{in_calendar, ResolvedSchedule};

verus! {

// ---------------------------------------------------------------------
// Addresses
// ---------------------------------------------------------------------

/// The address of an endpoint: the service, the path, and the shared
/// secret as the first query parameter.
pub open spec fn endpoint_of(worker_url: Seq<char>, path: Seq<char>, api_secret: Seq<char>) -> Seq<
    char,
> {
    worker_url + path + "?secret="@ + api_secret
}

/// The address that lists the openings.
pub open spec fn logs_url_of(worker_url: Seq<char>, api_secret: Seq<char>) -> Seq<char> {
    endpoint_of(worker_url, "/api/logs"@, api_secret)
}

/// The address that lists the filter values.
pub open spec fn filters_url_of(worker_url: Seq<char>, api_secret: Seq<char>) -> Seq<char> {
    endpoint_of(worker_url, "/api/filters"@, api_secret)
}

/// The address that deletes the openings of one tracking token.
pub open spec fn delete_logs_url_of(
    worker_url: Seq<char>,
    api_secret: Seq<char>,
    tracking_id: Seq<char>,
) -> Seq<char> {
    endpoint_of(worker_url, "/api/logs"@, api_secret) + "&tracking_id="@ + tracking_id
}

/// The address that takes a message for later delivery.
pub open spec fn schedule_url_of(worker_url: Seq<char>, api_secret: Seq<char>) -> Seq<char> {
    endpoint_of(worker_url, "/api/schedule"@, api_secret)
}

/// The address that lists the scheduled jobs.
pub open spec fn scheduled_url_of(worker_url: Seq<char>, api_secret: Seq<char>) -> Seq<char> {
    endpoint_of(worker_url, "/api/scheduled"@, api_secret)
}

/// The address that cancels one scheduled job.
pub open spec fn cancel_url_of(worker_url: Seq<char>, api_secret: Seq<char>, id: Seq<char>) -> Seq<
    char,
> {
    endpoint_of(worker_url, "/api/scheduled"@, api_secret) + "&id="@ + id
}

fn endpoint(worker_url: &str, path: &str, api_secret: &str) -> (url: String)
    ensures
        url@ == endpoint_of(worker_url@, path@, api_secret@),
{
    let mut url = worker_url.to_owned();
    url.append(path);
    url.append("?secret=");
    url.append(api_secret);
    url
}

/// The address that lists the openings.
pub fn logs_url(worker_url: &str, api_secret: &str) -> (url: String)
    ensures
        url@ == logs_url_of(worker_url@, api_secret@),
{
    endpoint(worker_url, "/api/logs", api_secret)
}

/// The address that lists the filter values.
pub fn filters_url(worker_url: &str, api_secret: &str) -> (url: String)
    ensures
        url@ == filters_url_of(worker_url@, api_secret@),
{
    endpoint(worker_url, "/api/filters", api_secret)
}

/// The address that deletes the openings of one tracking token.
pub fn delete_logs_url(worker_url: &str, api_secret: &str, tracking_id: &str) -> (url: String)
    ensures
        url@ == delete_logs_url_of(worker_url@, api_secret@, tracking_id@),
{
    let mut url = endpoint(worker_url, "/api/logs", api_secret);
    url.append("&tracking_id=");
    url.append(tracking_id);
    url
}

/// The address that takes a message for later delivery.
pub fn schedule_url(worker_url: &str, api_secret: &str) -> (url: String)
    ensures
        url@ == schedule_url_of(worker_url@, api_secret@),
{
    endpoint(worker_url, "/api/schedule", api_secret)
}

/// The address that lists the scheduled jobs.
pub fn scheduled_url(worker_url: &str, api_secret: &str) -> (url: String)
    ensures
        url@ == scheduled_url_of(worker_url@, api_secret@),
{
    endpoint(worker_url, "/api/scheduled", api_secret)
}

/// The address that cancels one scheduled job.
pub fn cancel_url(worker_url: &str, api_secret: &str, id: &str) -> (url: String)
    ensures
        url@ == cancel_url_of(worker_url@, api_secret@, id@),
{
    let mut url = endpoint(worker_url, "/api/scheduled", api_secret);
    url.append("&id=");
    url.append(id);
    url
}

// ---------------------------------------------------------------------
// Answers
// ---------------------------------------------------------------------

/// What was asked of the service.
#[derive(Debug, Clone, Copy, PartialEq, Eq, Structural)]
pub enum Request {
    FetchLogs,
    FetchFilters,
    DeleteLogs,
    Schedule,
    FetchScheduled,
    CancelScheduled,
}

/// Whether a status code reports success: 200 to 299.
pub open spec fn is_success(status: u16) -> bool {
    200 <= status <= 299
}

/// What a refusal begins with.
pub open spec fn refusal_prefix(request: Request) -> Seq<char> {
    match request {
        Request::FetchLogs => "Worker returned error: "@,
        Request::Schedule => "Worker rejected schedule: "@,
        _ => "Worker error: "@,
    }
}

/// The status as it is written: the code in decimal digits, a blank, and
/// the reason that came with it.
pub open spec fn status_line_of(status_code: u16, reason: Seq<char>) -> Seq<char> {
    decimal_text(status_code as nat) + " "@ + reason
}

/// What follows the status: the answer's body behind a colon for a refused
/// schedule, and nothing for any other request.
pub open spec fn refusal_tail(request: Request, body: Seq<char>) -> Seq<char> {
    match request {
        Request::Schedule => ": "@ + body,
        _ => Seq::empty(),
    }
}

/// The error that a refusal is reported as: it names the status code and
/// the reason, and for a refused schedule it quotes the answer's body.
pub open spec fn refusal_of(
    request: Request,
    status_code: u16,
    reason: Seq<char>,
    body: Seq<char>,
) -> Seq<char> {
    refusal_prefix(request) + status_line_of(status_code, reason) + refusal_tail(request, body)
}

/// Every refusal holds the status code in decimal digits, and a refused
/// schedule holds the answer's body as well.
pub proof fn lemma_refusal_names_the_status(
    request: Request,
    status_code: u16,
    reason: Seq<char>,
    body: Seq<char>,
)
    ensures
        has_substring(
            refusal_of(request, status_code, reason, body),
            decimal_text(status_code as nat),
        ),
        request == Request::Schedule ==> has_substring(
            refusal_of(request, status_code, reason, body),
            body,
        ),
{
    let message = refusal_of(request, status_code, reason, body);
    let prefix = refusal_prefix(request);
    let code = decimal_text(status_code as nat);
    let at = prefix.len() as int;
    assert(message.subrange(at, at + code.len()) =~= code);
    if request == Request::Schedule {
        let from = message.len() - body.len();
        assert(message.subrange(from, from + body.len()) =~= body);
    }
}

/// Judges an answer of the service: success for a status code from 200 to
/// 299, else the error that names the status code and the reason that
/// came with it.
pub fn judge_response(request: Request, status_code: u16, reason: &str, body: &str) -> (outcome:
    Result<(), String>)
    ensures
        is_success(status_code) ==> outcome is Ok,
        !is_success(status_code) ==> outcome is Err && outcome->Err_0@ == refusal_of(
            request,
            status_code,
            reason@,
            body@,
        ),
{
    if status_code >= 200 && status_code <= 299 {
        return Ok(());
    }
    let mut message = match request {
        Request::FetchLogs => String::from_str("Worker returned error: "),
        Request::Schedule => String::from_str("Worker rejected schedule: "),
        _ => String::from_str("Worker error: "),
    };
    let code = zero_pad(status_code as u64, 0);
    assert(zero_padded(status_code as nat, 0) =~= decimal_text(status_code as nat));
    let ghost line = status_line_of(status_code, reason@);
    message.append(code.as_str());
    message.append(" ");
    message.append(reason);
    assert(message@ =~= refusal_prefix(request) + line);
    match request {
        Request::Schedule => {
            message.append(": ");
            message.append(body);
            assert(message@ =~= refusal_prefix(request) + line + (": "@ + body@));
        },
        _ => {
            assert(message@ =~= refusal_prefix(request) + line + Seq::<char>::empty());
        },
    }
    Err(message)
}

// ---------------------------------------------------------------------
// The schedule form
// ---------------------------------------------------------------------

/// A file of a multipart form.
#[derive(Debug)]
pub struct FormFile {
    pub field: String,
    pub file_name: String,
    pub content_type: String,
    pub contents: Vec<u8>,
}

/// A multipart form: text fields, then files.
#[derive(Debug)]
pub struct ScheduleForm {
    pub fields: Vec<(String, String)>,
    pub files: Vec<FormFile>,
}

/// A form file as sequences.
pub struct FormFileView {
    pub field: Seq<char>,
    pub file_name: Seq<char>,
    pub content_type: Seq<char>,
    pub contents: Seq<u8>,
}

/// A form as sequences.
pub struct FormView {
    pub fields: Seq<(Seq<char>, Seq<char>)>,
    pub files: Seq<FormFileView>,
}

impl View for FormFile {
    type V = FormFileView;

    open spec fn view(&self) -> FormFileView {
        FormFileView {
            field: self.field@,
            file_name: self.file_name@,
            content_type: self.content_type@,
            contents: self.contents@,
        }
    }
}

impl View for ScheduleForm {
    type V = FormView;

    open spec fn view(&self) -> FormView {
        FormView {
            fields: self.fields@.map_values(|pair: (String, String)| (pair.0@, pair.1@)),
            files: self.files@.map_values(|file: FormFile| file@),
        }
    }
}

/// The form field that holds attachments.
pub const ATTACHMENTS_FIELD: &'static str = "attachments";

/// The form field that holds inline images.
pub const INLINE_IMAGES_FIELD: &'static str = "inline_images";

/// The file name of an attachment whose path has none.
pub const DEFAULT_ATTACHMENT_NAME: &'static str = "attachment.bin";

/// The instant in the notation of RFC 3339, in UTC; `None` for an instant
/// beyond the calendar.
pub uninterp spec fn rfc3339_utc(timestamp: i64) -> Option<Seq<char>>;

/// `chrono::DateTime::from_timestamp(timestamp, 0)`, written by
/// `to_rfc3339`. Not proved: that the text is a function of the instant,
/// and that there is a text for every instant of the calendar and for no
/// other.
#[verifier::external_body]
fn format_rfc3339(timestamp: i64) -> (text: Option<String>)
    ensures
        match text {
            Some(text) => rfc3339_utc(timestamp) == Some(text@),
            None => rfc3339_utc(timestamp) is None,
        },
        text is Some <==> in_calendar(timestamp),
{
    chrono::DateTime::from_timestamp(timestamp, 0).map(|at| at.to_rfc3339())
}

/// The form file of an attachment that was read.
pub open spec fn attachment_file_of(file: FileView) -> FormFileView {
    FormFileView {
        field: ATTACHMENTS_FIELD@,
        file_name: match file.file_name {
            Some(name) => name,
            None => DEFAULT_ATTACHMENT_NAME@,
        },
        content_type: file.content_type,
        contents: file.contents->0,
    }
}

/// The form file of an inline image that was read: it is named by its
/// content id.
pub open spec fn inline_file_of(cid: Seq<char>, file: FileView) -> FormFileView {
    FormFileView {
        field: INLINE_IMAGES_FIELD@,
        file_name: cid,
        content_type: file.content_type,
        contents: file.contents->0,
    }
}

/// The form files of the attachments: one for each file that was read.
pub open spec fn attachment_files_of(files: Seq<FileView>) -> Seq<FormFileView>
    decreases files.len(),
{
    if files.len() == 0 {
        Seq::empty()
    } else {
        let before = attachment_files_of(files.drop_last());
        if files.last().contents is Some {
            before.push(attachment_file_of(files.last()))
        } else {
            before
        }
    }
}

/// The form files of the inline images: the i-th file belongs to the i-th
/// content id, and gives a form file if it was read.
pub open spec fn inline_files_of(cids: Seq<Seq<char>>, files: Seq<FileView>) -> Seq<FormFileView>
    decreases files.len(),
{
    if files.len() == 0 {
        Seq::empty()
    } else {
        let before = inline_files_of(cids, files.drop_last());
        let k = files.len() - 1;
        if k < cids.len() && files.last().contents is Some {
            before.push(inline_file_of(cids[k], files.last()))
        } else {
            before
        }
    }
}

/// The text fields of the schedule form, in order.
pub open spec fn schedule_fields_of(
    recipient: Seq<char>,
    subject: Seq<char>,
    html_body: Seq<char>,
    plain_body: Seq<char>,
    scheduled_at: Seq<char>,
    smtp_username: Seq<char>,
    smtp_password: Seq<char>,
    sender_name: Seq<char>,
) -> Seq<(Seq<char>, Seq<char>)> {
    seq![
        ("recipient"@, recipient),
        ("subject"@, subject),
        ("html_body"@, html_body),
        ("plain_body"@, plain_body),
        ("scheduled_at"@, scheduled_at),
        ("smtp_username"@, smtp_username),
        ("smtp_password"@, smtp_password),
        ("sender_name"@, sender_name),
    ]
}

fn field(name: &str, value: String) -> (pair: (String, String))
    ensures
        pair.0@ == name@,
        pair.1@ == value@,
{
    (name.to_owned(), value)
}

/// Fills the schedule form once the instant is written out: eight text
/// fields, then the attachments that were read, then the inline images
/// that were read.
pub fn fill_schedule_form(
    compiled: CompiledEmail,
    subject: String,
    recipient: String,
    scheduled_at: String,
    smtp_username: String,
    smtp_password: String,
    sender_name: String,
    attachment_files: Vec<LoadedFile>,
    inline_files: Vec<LoadedFile>,
) -> (form: ScheduleForm)
    ensures
        form@.fields == schedule_fields_of(
            recipient@,
            subject@,
            compiled.html_body@,
            compiled.plain_body@,
            scheduled_at@,
            smtp_username@,
            smtp_password@,
            sender_name@,
        ),
        form@.files == attachment_files_of(file_views(attachment_files@)) + inline_files_of(
            image_cids(compiled.inline_images@),
            file_views(inline_files@),
        ),
{
    let ghost wanted = schedule_fields_of(
        recipient@,
        subject@,
        compiled.html_body@,
        compiled.plain_body@,
        scheduled_at@,
        smtp_username@,
        smtp_password@,
        sender_name@,
    );
    let mut fields: Vec<(String, String)> = Vec::new();
    fields.push(field("recipient", recipient));
    fields.push(field("subject", subject));
    fields.push(field("html_body", compiled.html_body));
    fields.push(field("plain_body", compiled.plain_body));
    fields.push(field("scheduled_at", scheduled_at));
    fields.push(field("smtp_username", smtp_username));
    fields.push(field("smtp_password", smtp_password));
    fields.push(field("sender_name", sender_name));
    assert(fields@.map_values(|pair: (String, String)| (pair.0@, pair.1@)) =~= wanted);

    let ghost attached = file_views(attachment_files@);
    let mut files: Vec<FormFile> = Vec::new();
    let ghost mut n: int = 0;
    proof {
        assert(attached.take(0) =~= Seq::<FileView>::empty());
    }
    for file in it: attachment_files
        invariant
            n == it.index(),
            attached == file_views(it.seq()),
            files@.map_values(|file: FormFile| file@) == attachment_files_of(attached.take(n)),
    {
        proof {
            assert(attached.take(n + 1).drop_last() =~= attached.take(n));
            assert(attached.take(n + 1).last() == file@);
        }
        match file.contents {
            Some(contents) => {
                let file_name = match file.file_name {
                    Some(name) => name,
                    None => String::from_str(DEFAULT_ATTACHMENT_NAME),
                };
                let ghost before = files@;
                files.push(
                    FormFile {
                        field: String::from_str(ATTACHMENTS_FIELD),
                        file_name,
                        content_type: file.content_type,
                        contents,
                    },
                );
                assert(files@.map_values(|file: FormFile| file@) =~= before.map_values(
                    |file: FormFile| file@,
                ).push(files@.last()@));
            },
            None => {},
        }
        proof {
            n = n + 1;
        }
    }
    proof {
        assert(attached.take(n) =~= attached);
    }

    let ghost first = attachment_files_of(attached);
    let ghost inline = file_views(inline_files@);
    let ghost cids = image_cids(compiled.inline_images@);
    let total = inline_files.len();
    let mut k: usize = 0;
    proof {
        assert(inline.take(0) =~= Seq::<FileView>::empty());
        assert(first + Seq::<FormFileView>::empty() =~= first);
    }
    for file in it: inline_files
        invariant
            k == it.index(),
            it.seq().len() == total,
            inline == file_views(it.seq()),
            cids == image_cids(compiled.inline_images@),
            files@.map_values(|file: FormFile| file@) == first + inline_files_of(
                cids,
                inline.take(k as int),
            ),
    {
        proof {
            assert(inline.take(k + 1).drop_last() =~= inline.take(k as int));
            assert(inline.take(k + 1).last() == file@);
        }
        if k < compiled.inline_images.len() {
            match file.contents {
                Some(contents) => {
                    let ghost before = files@;
                    files.push(
                        FormFile {
                            field: String::from_str(INLINE_IMAGES_FIELD),
                            file_name: compiled.inline_images[k].cid.clone(),
                            content_type: file.content_type,
                            contents,
                        },
                    );
                    assert(files@.map_values(|file: FormFile| file@) =~= before.map_values(
                        |file: FormFile| file@,
                    ).push(files@.last()@));
                },
                None => {},
            }
        }
        k += 1;
    }
    proof {
        assert(inline.take(k as int) =~= inline);
    }
    ScheduleForm { fields, files }
}

/// A request to the scheduling service.
#[derive(Debug)]
pub struct ScheduleRequest {
    pub url: String,
    pub form: ScheduleForm,
}

/// Prepares the request that hands a compiled draft to the scheduling
/// service for delivery at `scheduled_at`. `attachment_contents[i]` holds
/// the bytes of the i-th attachment and `inline_contents[i]` those of the
/// i-th inline image, `None` where the file could not be read; such a
/// file is left out. There is no request for an instant beyond the
/// calendar.
pub fn schedule_request(
    worker_url: &str,
    api_secret: &str,
    compiled: CompiledEmail,
    subject: String,
    recipient: String,
    scheduled_at: ResolvedSchedule,
    smtp_username: String,
    smtp_password: String,
    sender_name: String,
    attachment_contents: Vec<Option<Vec<u8>>>,
    inline_contents: Vec<Option<Vec<u8>>>,
) -> (request: Option<ScheduleRequest>)
    ensures
        request is Some <==> in_calendar(scheduled_at.timestamp),
        request is Some ==> rfc3339_utc(scheduled_at.timestamp) is Some,
        request is Some ==> request->0.url@ == schedule_url_of(worker_url@, api_secret@)
            && request->0.form@.fields == schedule_fields_of(
            recipient@,
            subject@,
            compiled.html_body@,
            compiled.plain_body@,
            rfc3339_utc(scheduled_at.timestamp)->0,
            smtp_username@,
            smtp_password@,
            sender_name@,
        ) && exists|attachment_files: Seq<FileView>, inline_files: Seq<FileView>|
            {
                &&& files_hold(
                    attachment_files,
                    texts(compiled.attachments@),
                    content_views(attachment_contents@),
                )
                &&& files_hold(
                    inline_files,
                    image_paths(compiled.inline_images@),
                    content_views(inline_contents@),
                )
                &&& request->0.form@.files == #[trigger] attachment_files_of(attachment_files)
                    + #[trigger] inline_files_of(image_cids(compiled.inline_images@), inline_files)
            },
{
    let at = match format_rfc3339(scheduled_at.timestamp) {
        Some(at) => at,
        None => {
            return None;
        },
    };
    let attachment_files = describe_files(&compiled.attachments, attachment_contents);
    let paths = image_path_list(&compiled.inline_images);
    let inline_files = describe_files(&paths, inline_contents);
    let url = schedule_url(worker_url, api_secret);
    let form = fill_schedule_form(
        compiled,
        subject,
        recipient,
        at,
        smtp_username,
        smtp_password,
        sender_name,
        attachment_files,
        inline_files,
    );
    Some(ScheduleRequest { url, form })
}

} // verus!
