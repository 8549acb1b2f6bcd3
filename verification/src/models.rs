//! The data that the composer works on: the draft, the sender's identity,
//! and what the tracking service reports.

use vstd::prelude::*;
use vstd::string::*;
use crate::enums::JobStatus;
use crate::text::texts;

verus! {

/// The textual date, time and zone that a draft was last scheduled with.
#[derive(Debug, Clone)]
pub struct ScheduleMetadata {
    pub day: String,
    pub month: String,
    pub year: String,
    pub hour: String,
    pub minute: String,
    pub second: String,
    pub timezone: String,
}

impl ScheduleMetadata {
    /// A record of seven empty fields.
    pub fn new() -> (meta: ScheduleMetadata)
        ensures
            meta.day@.len() == 0,
            meta.month@.len() == 0,
            meta.year@.len() == 0,
            meta.hour@.len() == 0,
            meta.minute@.len() == 0,
            meta.second@.len() == 0,
            meta.timezone@.len() == 0,
    {
        ScheduleMetadata {
            day: String::new(),
            month: String::new(),
            year: String::new(),
            hour: String::new(),
            minute: String::new(),
            second: String::new(),
            timezone: String::new(),
        }
    }
}

impl Default for ScheduleMetadata {
    fn default() -> (meta: ScheduleMetadata)
        ensures
            meta.day@.len() == 0,
            meta.month@.len() == 0,
            meta.year@.len() == 0,
            meta.hour@.len() == 0,
            meta.minute@.len() == 0,
            meta.second@.len() == 0,
            meta.timezone@.len() == 0,
    {
        ScheduleMetadata::new()
    }
}

/// A message that has not been sent yet. Attachments are file paths, in
/// the order in which they are to be attached; `scheduled_at` is an instant
/// in seconds since the Unix epoch, UTC.
#[derive(Debug, Clone)]
pub struct EmailDraft {
    pub recipient: String,
    pub subject: String,
    pub body: String,
    pub attachments: Vec<String>,
    pub scheduled_at: Option<i64>,
    pub schedule: ScheduleMetadata,
}

impl Default for EmailDraft {
    fn default() -> (draft: EmailDraft)
        ensures
            draft.recipient@.len() == 0,
            draft.subject@.len() == 0,
            draft.body@.len() == 0,
            draft.attachments@.len() == 0,
            draft.scheduled_at is None,
            draft.schedule.day@.len() == 0,
            draft.schedule.timezone@.len() == 0,
    {
        EmailDraft {
            recipient: String::new(),
            subject: String::new(),
            body: String::new(),
            attachments: Vec::new(),
            scheduled_at: None,
            schedule: ScheduleMetadata::new(),
        }
    }
}

/// Who sends: shown in the footer of every message.
#[derive(Debug, Clone)]
pub struct UserIdentity {
    pub name: String,
    pub role: String,
    pub department: String,
    pub institution: String,
    pub phone: String,
    pub emails: Vec<String>,
    pub footer_color: String,
}

/// An identity as character sequences.
pub struct IdentityView {
    pub name: Seq<char>,
    pub role: Seq<char>,
    pub department: Seq<char>,
    pub institution: Seq<char>,
    pub phone: Seq<char>,
    pub emails: Seq<Seq<char>>,
    pub footer_color: Seq<char>,
}

impl View for UserIdentity {
    type V = IdentityView;

    open spec fn view(&self) -> IdentityView {
        IdentityView {
            name: self.name@,
            role: self.role@,
            department: self.department@,
            institution: self.institution@,
            phone: self.phone@,
            emails: texts(self.emails@),
            footer_color: self.footer_color@,
        }
    }
}

/// The accent colour of a footer until another is chosen.
pub fn default_color() -> (color: String)
    ensures
        color@ == "#179299"@,
{
    String::from_str("#179299")
}

impl Default for UserIdentity {
    /// An identity with empty fields, no addresses and the default colour.
    fn default() -> (identity: UserIdentity)
        ensures
            identity@ == (IdentityView {
                name: Seq::empty(),
                role: Seq::empty(),
                department: Seq::empty(),
                institution: Seq::empty(),
                phone: Seq::empty(),
                emails: Seq::empty(),
                footer_color: "#179299"@,
            }),
    {
        let identity = UserIdentity {
            name: String::new(),
            role: String::new(),
            department: String::new(),
            institution: String::new(),
            phone: String::new(),
            emails: Vec::new(),
            footer_color: default_color(),
        };
        assert(texts(identity.emails@) =~= Seq::empty());
        identity
    }
}

/// The values by which the dashboard can filter.
#[derive(Debug, Clone)]
pub struct FilterOptions {
    pub recipients: Vec<String>,
    pub countries: Vec<String>,
}

impl Default for FilterOptions {
    fn default() -> (options: FilterOptions)
        ensures
            options.recipients@.len() == 0,
            options.countries@.len() == 0,
    {
        FilterOptions { recipients: Vec::new(), countries: Vec::new() }
    }
}

/// One opening of a tracked message, as the tracking service reports it.
#[derive(Debug, Clone)]
pub struct LogEntry {
    pub id: u32,
    pub tracking_id: String,
    pub timestamp: String,
    pub ip: String,
    pub country: String,
    pub city: String,
    pub user_agent: String,
    pub timezone: String,
}

impl LogEntry {
    /// A copy of the entry.
    pub fn copy(&self) -> (copy: LogEntry)
        ensures
            copy == *self,
    {
        LogEntry {
            id: self.id,
            tracking_id: self.tracking_id.clone(),
            timestamp: self.timestamp.clone(),
            ip: self.ip.clone(),
            country: self.country.clone(),
            city: self.city.clone(),
            user_agent: self.user_agent.clone(),
            timezone: self.timezone.clone(),
        }
    }
}

/// A file held by a scheduled job.
#[derive(Debug, Clone)]
pub struct AttachmentStub {
    pub filename: String,
    pub content: Vec<u8>,
}

/// A message that the scheduling service holds for later delivery.
/// `scheduled_at` is in seconds since the Unix epoch, UTC.
#[derive(Debug, Clone)]
pub struct ScheduledJob {
    pub id: String,
    pub recipient: String,
    pub subject: String,
    pub body: String,
    pub scheduled_at: i64,
    pub recipient_timezone: String,
    pub status: JobStatus,
    pub attachments: Vec<AttachmentStub>,
}

} // verus!
