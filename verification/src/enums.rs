//! Closed sets of states shared by the editing pages, each with the cyclic
//! order in which focus moves through it.

use vstd::prelude::*;

verus! {

/// Whether keystrokes navigate or edit text.
#[derive(Debug, Default, Clone, Copy, PartialEq, Eq, Structural)]
pub enum InputMode {
    #[default]
    Normal,
    Editing,
}

impl InputMode {
    /// The other mode.
    pub open spec fn toggled(self) -> InputMode {
        match self {
            InputMode::Normal => InputMode::Editing,
            InputMode::Editing => InputMode::Normal,
        }
    }

    /// Switches between navigating and editing.
    pub fn toggle(self) -> (next: InputMode)
        ensures
            next == self.toggled(),
    {
        match self {
            InputMode::Normal => InputMode::Editing,
            InputMode::Editing => InputMode::Normal,
        }
    }
}

/// The page that is shown.
#[derive(Debug, Default, Clone, Copy, PartialEq, Eq, Structural)]
pub enum CurrentPage {
    #[default]
    Compose,
    Config,
    Dashboard,
    Schedule,
    Scheduled,
}

/// The fields of the compose page.
#[derive(Debug, Default, Clone, Copy, PartialEq, Eq, Structural)]
pub enum ComposeField {
    #[default]
    Recipient,
    Subject,
    Body,
    Attachments,
    SendButton,
}

impl ComposeField {
    /// The field that follows in focus order: recipient, subject,
    /// attachments, body, send button, and round again.
    pub open spec fn next(self) -> ComposeField {
        match self {
            ComposeField::Recipient => ComposeField::Subject,
            ComposeField::Subject => ComposeField::Attachments,
            ComposeField::Attachments => ComposeField::Body,
            ComposeField::Body => ComposeField::SendButton,
            ComposeField::SendButton => ComposeField::Recipient,
        }
    }

    /// The field that precedes in focus order.
    pub open spec fn prev(self) -> ComposeField {
        match self {
            ComposeField::Recipient => ComposeField::SendButton,
            ComposeField::Subject => ComposeField::Recipient,
            ComposeField::Attachments => ComposeField::Subject,
            ComposeField::Body => ComposeField::Attachments,
            ComposeField::SendButton => ComposeField::Body,
        }
    }

    /// Moves one step through the focus order.
    pub fn step(self, forward: bool) -> (to: ComposeField)
        ensures
            to == if forward { self.next() } else { self.prev() },
    {
        if forward {
            match self {
                ComposeField::Recipient => ComposeField::Subject,
                ComposeField::Subject => ComposeField::Attachments,
                ComposeField::Attachments => ComposeField::Body,
                ComposeField::Body => ComposeField::SendButton,
                ComposeField::SendButton => ComposeField::Recipient,
            }
        } else {
            match self {
                ComposeField::Recipient => ComposeField::SendButton,
                ComposeField::Subject => ComposeField::Recipient,
                ComposeField::Attachments => ComposeField::Subject,
                ComposeField::Body => ComposeField::Attachments,
                ComposeField::SendButton => ComposeField::Body,
            }
        }
    }
}

/// The fields of the schedule dialog.
#[derive(Debug, Default, Clone, Copy, PartialEq, Eq, Structural)]
pub enum ScheduleField {
    #[default]
    Day,
    Month,
    Year,
    Hour,
    Minute,
    Second,
    Timezone,
    Submit,
}

impl ScheduleField {
    /// The field that follows in focus order, which is the order of
    /// declaration, and round again.
    pub open spec fn next(self) -> ScheduleField {
        match self {
            ScheduleField::Day => ScheduleField::Month,
            ScheduleField::Month => ScheduleField::Year,
            ScheduleField::Year => ScheduleField::Hour,
            ScheduleField::Hour => ScheduleField::Minute,
            ScheduleField::Minute => ScheduleField::Second,
            ScheduleField::Second => ScheduleField::Timezone,
            ScheduleField::Timezone => ScheduleField::Submit,
            ScheduleField::Submit => ScheduleField::Day,
        }
    }

    /// The field that precedes in focus order.
    pub open spec fn prev(self) -> ScheduleField {
        match self {
            ScheduleField::Day => ScheduleField::Submit,
            ScheduleField::Month => ScheduleField::Day,
            ScheduleField::Year => ScheduleField::Month,
            ScheduleField::Hour => ScheduleField::Year,
            ScheduleField::Minute => ScheduleField::Hour,
            ScheduleField::Second => ScheduleField::Minute,
            ScheduleField::Timezone => ScheduleField::Second,
            ScheduleField::Submit => ScheduleField::Timezone,
        }
    }

    /// Moves one step through the focus order.
    pub fn step(self, forward: bool) -> (to: ScheduleField)
        ensures
            to == if forward { self.next() } else { self.prev() },
    {
        if forward {
            match self {
                ScheduleField::Day => ScheduleField::Month,
                ScheduleField::Month => ScheduleField::Year,
                ScheduleField::Year => ScheduleField::Hour,
                ScheduleField::Hour => ScheduleField::Minute,
                ScheduleField::Minute => ScheduleField::Second,
                ScheduleField::Second => ScheduleField::Timezone,
                ScheduleField::Timezone => ScheduleField::Submit,
                ScheduleField::Submit => ScheduleField::Day,
            }
        } else {
            match self {
                ScheduleField::Day => ScheduleField::Submit,
                ScheduleField::Month => ScheduleField::Day,
                ScheduleField::Year => ScheduleField::Month,
                ScheduleField::Hour => ScheduleField::Year,
                ScheduleField::Minute => ScheduleField::Hour,
                ScheduleField::Second => ScheduleField::Minute,
                ScheduleField::Timezone => ScheduleField::Second,
                ScheduleField::Submit => ScheduleField::Timezone,
            }
        }
    }
}

/// The fields of the configuration page.
#[derive(Debug, Default, Clone, Copy, PartialEq, Eq, Structural)]
pub enum ConfigField {
    #[default]
    Name,
    Role,
    Department,
    Institution,
    Phone,
    Emails,
    FooterColor,
    SmtpUser,
    SmtpPass,
    WorkerUrl,
    ApiSecret,
}

impl ConfigField {
    /// The field that follows in focus order, which is the order of
    /// declaration, and round again.
    pub open spec fn next(self) -> ConfigField {
        match self {
            ConfigField::Name => ConfigField::Role,
            ConfigField::Role => ConfigField::Department,
            ConfigField::Department => ConfigField::Institution,
            ConfigField::Institution => ConfigField::Phone,
            ConfigField::Phone => ConfigField::Emails,
            ConfigField::Emails => ConfigField::FooterColor,
            ConfigField::FooterColor => ConfigField::SmtpUser,
            ConfigField::SmtpUser => ConfigField::SmtpPass,
            ConfigField::SmtpPass => ConfigField::WorkerUrl,
            ConfigField::WorkerUrl => ConfigField::ApiSecret,
            ConfigField::ApiSecret => ConfigField::Name,
        }
    }

    /// The field that precedes in focus order.
    pub open spec fn prev(self) -> ConfigField {
        match self {
            ConfigField::Name => ConfigField::ApiSecret,
            ConfigField::Role => ConfigField::Name,
            ConfigField::Department => ConfigField::Role,
            ConfigField::Institution => ConfigField::Department,
            ConfigField::Phone => ConfigField::Institution,
            ConfigField::Emails => ConfigField::Phone,
            ConfigField::FooterColor => ConfigField::Emails,
            ConfigField::SmtpUser => ConfigField::FooterColor,
            ConfigField::SmtpPass => ConfigField::SmtpUser,
            ConfigField::WorkerUrl => ConfigField::SmtpPass,
            ConfigField::ApiSecret => ConfigField::WorkerUrl,
        }
    }

    /// Moves one step through the focus order.
    pub fn step(self, forward: bool) -> (to: ConfigField)
        ensures
            to == if forward { self.next() } else { self.prev() },
    {
        if forward {
            match self {
                ConfigField::Name => ConfigField::Role,
                ConfigField::Role => ConfigField::Department,
                ConfigField::Department => ConfigField::Institution,
                ConfigField::Institution => ConfigField::Phone,
                ConfigField::Phone => ConfigField::Emails,
                ConfigField::Emails => ConfigField::FooterColor,
                ConfigField::FooterColor => ConfigField::SmtpUser,
                ConfigField::SmtpUser => ConfigField::SmtpPass,
                ConfigField::SmtpPass => ConfigField::WorkerUrl,
                ConfigField::WorkerUrl => ConfigField::ApiSecret,
                ConfigField::ApiSecret => ConfigField::Name,
            }
        } else {
            match self {
                ConfigField::Name => ConfigField::ApiSecret,
                ConfigField::Role => ConfigField::Name,
                ConfigField::Department => ConfigField::Role,
                ConfigField::Institution => ConfigField::Department,
                ConfigField::Phone => ConfigField::Institution,
                ConfigField::Emails => ConfigField::Phone,
                ConfigField::FooterColor => ConfigField::Emails,
                ConfigField::SmtpUser => ConfigField::FooterColor,
                ConfigField::SmtpPass => ConfigField::SmtpUser,
                ConfigField::WorkerUrl => ConfigField::SmtpPass,
                ConfigField::ApiSecret => ConfigField::WorkerUrl,
            }
        }
    }
}

/// What has focus on the dashboard.
#[derive(Debug, Default, Clone, Copy, PartialEq, Eq, Structural)]
pub enum DashboardFocus {
    #[default]
    FilterRecipient,
    FilterCountry,
    FilterMinOpens,
    List,
}

impl DashboardFocus {
    /// The element that follows in focus order, which is the order of
    /// declaration, and round again.
    pub open spec fn next(self) -> DashboardFocus {
        match self {
            DashboardFocus::FilterRecipient => DashboardFocus::FilterCountry,
            DashboardFocus::FilterCountry => DashboardFocus::FilterMinOpens,
            DashboardFocus::FilterMinOpens => DashboardFocus::List,
            DashboardFocus::List => DashboardFocus::FilterRecipient,
        }
    }

    /// The element that precedes in focus order.
    pub open spec fn prev(self) -> DashboardFocus {
        match self {
            DashboardFocus::FilterRecipient => DashboardFocus::List,
            DashboardFocus::FilterCountry => DashboardFocus::FilterRecipient,
            DashboardFocus::FilterMinOpens => DashboardFocus::FilterCountry,
            DashboardFocus::List => DashboardFocus::FilterMinOpens,
        }
    }

    /// Moves one step through the focus order.
    pub fn step(self, forward: bool) -> (to: DashboardFocus)
        ensures
            to == if forward { self.next() } else { self.prev() },
    {
        if forward {
            match self {
                DashboardFocus::FilterRecipient => DashboardFocus::FilterCountry,
                DashboardFocus::FilterCountry => DashboardFocus::FilterMinOpens,
                DashboardFocus::FilterMinOpens => DashboardFocus::List,
                DashboardFocus::List => DashboardFocus::FilterRecipient,
            }
        } else {
            match self {
                DashboardFocus::FilterRecipient => DashboardFocus::List,
                DashboardFocus::FilterCountry => DashboardFocus::FilterRecipient,
                DashboardFocus::FilterMinOpens => DashboardFocus::FilterCountry,
                DashboardFocus::List => DashboardFocus::FilterMinOpens,
            }
        }
    }
}

/// What has focus on the page of scheduled jobs.
#[derive(Debug, Default, Clone, Copy, PartialEq, Eq, Structural)]
pub enum ScheduledFocus {
    #[default]
    FilterRecipient,
    FilterStatus,
    List,
}

impl ScheduledFocus {
    /// The element that follows in focus order, which is the order of
    /// declaration, and round again.
    pub open spec fn next(self) -> ScheduledFocus {
        match self {
            ScheduledFocus::FilterRecipient => ScheduledFocus::FilterStatus,
            ScheduledFocus::FilterStatus => ScheduledFocus::List,
            ScheduledFocus::List => ScheduledFocus::FilterRecipient,
        }
    }

    /// The element that precedes in focus order.
    pub open spec fn prev(self) -> ScheduledFocus {
        match self {
            ScheduledFocus::FilterRecipient => ScheduledFocus::List,
            ScheduledFocus::FilterStatus => ScheduledFocus::FilterRecipient,
            ScheduledFocus::List => ScheduledFocus::FilterStatus,
        }
    }

    /// Moves one step through the focus order.
    pub fn step(self, forward: bool) -> (to: ScheduledFocus)
        ensures
            to == if forward { self.next() } else { self.prev() },
    {
        if forward {
            match self {
                ScheduledFocus::FilterRecipient => ScheduledFocus::FilterStatus,
                ScheduledFocus::FilterStatus => ScheduledFocus::List,
                ScheduledFocus::List => ScheduledFocus::FilterRecipient,
            }
        } else {
            match self {
                ScheduledFocus::FilterRecipient => ScheduledFocus::List,
                ScheduledFocus::FilterStatus => ScheduledFocus::FilterRecipient,
                ScheduledFocus::List => ScheduledFocus::FilterStatus,
            }
        }
    }
}

/// How far a scheduled job has come.
#[derive(Debug, Clone, Copy, PartialEq, Eq, Structural)]
pub enum JobStatus {
    Pending,
    Sent,
    Failed,
}

/// A message for the status bar.
#[derive(Debug, Clone)]
pub enum Notification {
    Info(String),
    Success(String),
    Error(String),
}

/// Stepping forward and then back, or back and then forward, returns to
/// the field one started from, on every page.
pub proof fn lemma_focus_steps_invert(
    compose: ComposeField,
    schedule: ScheduleField,
    config: ConfigField,
    dashboard: DashboardFocus,
    scheduled: ScheduledFocus,
)
    ensures
        compose.next().prev() == compose && compose.prev().next() == compose,
        schedule.next().prev() == schedule && schedule.prev().next() == schedule,
        config.next().prev() == config && config.prev().next() == config,
        dashboard.next().prev() == dashboard && dashboard.prev().next() == dashboard,
        scheduled.next().prev() == scheduled && scheduled.prev().next() == scheduled,
{
}

} // verus!
