//! The state of the whole program: the page that is shown, the input
//! mode, the notification, and the state of each page.

use vstd::prelude::*;
use vstd::string::*;
use crate::compose::{attachments_of, ComposeState};
use crate::config::AppConfig;
use crate::configuration::ConfigState;
use crate::dashboard::DashboardState;
use crate::enums::{ComposeField, ConfigField, CurrentPage, InputMode, Notification};
use crate::models::{EmailDraft, ScheduleMetadata};
use crate::schedule::{blank_dialog, ScheduleState, ScheduleView};
use crate::scheduled::ScheduledState;
use crate::text::texts;

verus! {

/// The state of the program.
#[derive(Debug)]
pub struct App {
    pub should_quit: bool,
    pub input_mode: InputMode,
    pub current_page: CurrentPage,
    pub notification: Option<Notification>,
    pub compose: ComposeState,
    pub config: ConfigState,
    pub dashboard: DashboardState,
    pub schedule: ScheduleState,
    pub scheduled: ScheduledState,
}

/// The schedule dialog with the date, time and zone of `meta`, and the
/// zones filtered by that zone.
pub open spec fn hydrated(dialog: ScheduleView, meta: ScheduleMetadata) -> ScheduleView {
    (ScheduleView {
        day: meta.day@,
        month: meta.month@,
        year: meta.year@,
        hour: meta.hour@,
        minute: meta.minute@,
        second: meta.second@,
        timezone_input: meta.timezone@,
        ..dialog
    }).refiltered()
}

/// Whether `meta` holds what the dialog shows.
pub open spec fn holds_schedule(meta: ScheduleMetadata, dialog: ScheduleView) -> bool {
    &&& meta.day@ == dialog.day
    &&& meta.month@ == dialog.month
    &&& meta.year@ == dialog.year
    &&& meta.hour@ == dialog.hour
    &&& meta.minute@ == dialog.minute
    &&& meta.second@ == dialog.second
    &&& meta.timezone@ == dialog.timezone_input
}

impl App {
    /// The program as it starts: the compose page in normal mode, without
    /// a notification. The schedule dialog takes over the schedule that
    /// the draft was saved with, if it was saved with a day.
    pub fn new(config: AppConfig, draft: EmailDraft) -> (app: App)
        ensures
            !app.should_quit,
            app.input_mode == InputMode::Normal,
            app.current_page == CurrentPage::Compose,
            app.notification is None,
            app.compose.draft == draft,
            app.compose.field == ComposeField::Recipient,
            app.config.data == config,
            app.config.field == ConfigField::Name,
            app.dashboard.logs@.len() == 0,
            app.scheduled.jobs@.len() == 0,
            app.schedule@ == if draft.schedule.day@.len() > 0 {
                hydrated(blank_dialog(app.schedule@.available_timezones), draft.schedule)
            } else {
                blank_dialog(app.schedule@.available_timezones)
            },
    {
        let mut schedule = ScheduleState::default();
        if !draft.schedule.day.as_str().is_empty() {
            schedule.day = draft.schedule.day.clone();
            schedule.month = draft.schedule.month.clone();
            schedule.year = draft.schedule.year.clone();
            schedule.hour = draft.schedule.hour.clone();
            schedule.minute = draft.schedule.minute.clone();
            schedule.second = draft.schedule.second.clone();
            schedule.timezone_input = draft.schedule.timezone.clone();
            schedule.update_timezone_filter();
        }
        App {
            should_quit: false,
            input_mode: InputMode::Normal,
            current_page: CurrentPage::Compose,
            notification: None,
            compose: ComposeState::new(draft),
            config: ConfigState::new(config),
            dashboard: DashboardState::default(),
            schedule,
            scheduled: ScheduledState::default(),
        }
    }

    /// Opens the schedule dialog, with defaults from the clock where it
    /// lacks a date.
    pub fn reset_schedule_modal(&mut self)
        ensures
            final(self).schedule@.is_reset_of(old(self).schedule@),
            final(self).should_quit == old(self).should_quit,
            final(self).input_mode == old(self).input_mode,
            final(self).current_page == old(self).current_page,
            final(self).notification == old(self).notification,
            final(self).compose == old(self).compose,
            final(self).config == old(self).config,
            final(self).dashboard == old(self).dashboard,
            final(self).scheduled == old(self).scheduled,
    {
        self.schedule.reset_defaults_if_empty();
    }

    /// Whether `self` is `before` with what the schedule dialog shows
    /// written into the draft, and nothing else changed.
    pub open spec fn schedule_kept_from(&self, before: &App) -> bool {
        &&& holds_schedule(self.compose.draft.schedule, before.schedule@)
        &&& self.compose.draft.recipient == before.compose.draft.recipient
        &&& self.compose.draft.subject == before.compose.draft.subject
        &&& self.compose.draft.body == before.compose.draft.body
        &&& self.compose.draft.attachments == before.compose.draft.attachments
        &&& self.compose.draft.scheduled_at == before.compose.draft.scheduled_at
        &&& self.compose.field == before.compose.field
        &&& self.compose.attachment_input == before.compose.attachment_input
        &&& self.should_quit == before.should_quit
        &&& self.input_mode == before.input_mode
        &&& self.current_page == before.current_page
        &&& self.notification == before.notification
        &&& self.config == before.config
        &&& self.dashboard == before.dashboard
        &&& self.schedule == before.schedule
        &&& self.scheduled == before.scheduled
    }

    /// Whether `self` is `before` made ready for ending the program: the
    /// draft has the attachments that the attachment text stands for and
    /// the schedule that the dialog shows, the program is about to end, and
    /// nothing else has changed.
    pub open spec fn quit_from(&self, before: &App) -> bool {
        &&& self.should_quit
        &&& texts(self.compose.draft.attachments@) == attachments_of(
            before.compose.attachment_input@,
        )
        &&& holds_schedule(self.compose.draft.schedule, before.schedule@)
        &&& self.compose.draft.recipient == before.compose.draft.recipient
        &&& self.compose.draft.subject == before.compose.draft.subject
        &&& self.compose.draft.body == before.compose.draft.body
        &&& self.compose.draft.scheduled_at == before.compose.draft.scheduled_at
        &&& self.compose.field == before.compose.field
        &&& self.compose.attachment_input == before.compose.attachment_input
        &&& self.input_mode == before.input_mode
        &&& self.current_page == before.current_page
        &&& self.notification == before.notification
        &&& self.config == before.config
        &&& self.dashboard == before.dashboard
        &&& self.schedule == before.schedule
        &&& self.scheduled == before.scheduled
    }

    /// Writes what the schedule dialog shows into the draft.
    pub fn sync_schedule_to_draft(&mut self)
        ensures
            final(self).schedule_kept_from(old(self)),
    {
        self.compose.draft.schedule.day = self.schedule.day.clone();
        self.compose.draft.schedule.month = self.schedule.month.clone();
        self.compose.draft.schedule.year = self.schedule.year.clone();
        self.compose.draft.schedule.hour = self.schedule.hour.clone();
        self.compose.draft.schedule.minute = self.schedule.minute.clone();
        self.compose.draft.schedule.second = self.schedule.second.clone();
        self.compose.draft.schedule.timezone = self.schedule.timezone_input.clone();
    }

    /// Ends the program: the draft takes the attachments that the
    /// attachment text stands for and the schedule that the dialog shows,
    /// so that it can be saved as it is.
    pub fn quit(&mut self)
        ensures
            final(self).quit_from(old(self)),
    {
        self.compose.sync_attachments();
        self.sync_schedule_to_draft();
        self.should_quit = true;
    }

    /// Shows a notification in place of the one shown.
    pub fn set_notification(&mut self, note: Notification)
        ensures
            *final(self) == (App { notification: Some(note), ..*old(self) }),
    {
        self.notification = Some(note);
    }

    /// Takes the notification away.
    pub fn clear_notification(&mut self)
        ensures
            *final(self) == (App { notification: None, ..*old(self) }),
    {
        self.notification = None;
    }

    /// Switches between navigating and editing.
    pub fn toggle_editing(&mut self)
        ensures
            *final(self) == (App { input_mode: old(self).input_mode.toggled(), ..*old(self) }),
    {
        self.input_mode = self.input_mode.toggle();
    }

    /// Moves the focus of the page that is shown to its next element.
    pub fn cycle_field(&mut self)
        ensures
            final(self).moved_focus(old(self), true),
    {
        self.cycle_generic(true);
    }

    /// Moves the focus of the page that is shown to its previous element.
    pub fn cycle_field_backward(&mut self)
        ensures
            final(self).moved_focus(old(self), false),
    {
        self.cycle_generic(false);
    }

    /// Whether `self` is `before` after the focus of the page that is shown
    /// has moved one step: that page's focus has moved, unless it shows a
    /// detail view that holds it, and nothing else has changed.
    pub open spec fn moved_focus(&self, before: &App, forward: bool) -> bool {
        &&& self.should_quit == before.should_quit
        &&& self.input_mode == before.input_mode
        &&& self.current_page == before.current_page
        &&& self.notification == before.notification
        &&& match before.current_page {
            CurrentPage::Compose => {
                &&& self.compose.field == if forward {
                    before.compose.field.next()
                } else {
                    before.compose.field.prev()
                }
                &&& self.compose.draft == before.compose.draft
                &&& self.compose.attachment_input == before.compose.attachment_input
                &&& self.config == before.config
                &&& self.dashboard == before.dashboard
                &&& self.schedule == before.schedule
                &&& self.scheduled == before.scheduled
            },
            CurrentPage::Config => {
                &&& self.config.field == if forward {
                    before.config.field.next()
                } else {
                    before.config.field.prev()
                }
                &&& self.config@ == (crate::configuration::ConfigView {
                    field: self.config.field,
                    ..before.config@
                })
                &&& self.compose == before.compose
                &&& self.dashboard == before.dashboard
                &&& self.schedule == before.schedule
                &&& self.scheduled == before.scheduled
            },
            CurrentPage::Dashboard => {
                &&& self.dashboard.focus == if before.dashboard.selected_summary_id is Some {
                    before.dashboard.focus
                } else if forward {
                    before.dashboard.focus.next()
                } else {
                    before.dashboard.focus.prev()
                }
                &&& self.dashboard.same_data(&before.dashboard)
                &&& self.dashboard.filter_recipient == before.dashboard.filter_recipient
                &&& self.dashboard.filter_country == before.dashboard.filter_country
                &&& self.dashboard.filter_min_opens == before.dashboard.filter_min_opens
                &&& self.compose == before.compose
                &&& self.config == before.config
                &&& self.schedule == before.schedule
                &&& self.scheduled == before.scheduled
            },
            CurrentPage::Schedule => {
                &&& self.schedule@ == (ScheduleView {
                    active_field: if forward {
                        before.schedule@.active_field.next()
                    } else {
                        before.schedule@.active_field.prev()
                    },
                    ..before.schedule@
                })
                &&& self.compose == before.compose
                &&& self.config == before.config
                &&& self.dashboard == before.dashboard
                &&& self.scheduled == before.scheduled
            },
            CurrentPage::Scheduled => {
                &&& self.scheduled.focus == if before.scheduled.selected_job_id is Some {
                    before.scheduled.focus
                } else if forward {
                    before.scheduled.focus.next()
                } else {
                    before.scheduled.focus.prev()
                }
                &&& self.scheduled.jobs == before.scheduled.jobs
                &&& self.scheduled.filter_recipient == before.scheduled.filter_recipient
                &&& self.scheduled.filter_status == before.scheduled.filter_status
                &&& self.scheduled.selected_row == before.scheduled.selected_row
                &&& self.scheduled.selected_job_id == before.scheduled.selected_job_id
                &&& self.compose == before.compose
                &&& self.config == before.config
                &&& self.dashboard == before.dashboard
                &&& self.schedule == before.schedule
            },
        }
    }

    /// Moves the focus of the page that is shown one step.
    fn cycle_generic(&mut self, forward: bool)
        ensures
            final(self).moved_focus(old(self), forward),
    {
        match self.current_page {
            CurrentPage::Compose => self.compose.cycle_field(forward),
            CurrentPage::Config => self.config.cycle_field(forward),
            CurrentPage::Dashboard => self.dashboard.cycle_focus(forward),
            CurrentPage::Schedule => self.schedule.cycle_field(forward),
            CurrentPage::Scheduled => self.scheduled.cycle_focus(forward),
        }
    }

    /// Whether `self` is `before` after one keystroke on the page that is
    /// shown: a character typed, or the last one erased. The page takes
    /// the keystroke as its own state says, and nothing else changes.
    pub open spec fn keyed_from(&self, before: &App, key: Option<char>) -> bool {
        &&& self.should_quit == before.should_quit
        &&& self.input_mode == before.input_mode
        &&& self.current_page == before.current_page
        &&& self.notification == before.notification
        &&& if before.current_page == CurrentPage::Compose {
            self.compose.edited_from(&before.compose, key)
        } else {
            self.compose == before.compose
        }
        &&& if before.current_page == CurrentPage::Config {
            self.config@ == before.config@.edited(key)
        } else {
            self.config == before.config
        }
        &&& if before.current_page == CurrentPage::Dashboard {
            self.dashboard.edited_from(&before.dashboard, key)
        } else {
            self.dashboard == before.dashboard
        }
        &&& if before.current_page == CurrentPage::Schedule {
            self.schedule@ == match key {
                Some(c) => before.schedule@.typed(c),
                None => before.schedule@.erased(),
            }
        } else {
            self.schedule == before.schedule
        }
        &&& if before.current_page == CurrentPage::Scheduled {
            self.scheduled.edited_from(&before.scheduled, key)
        } else {
            self.scheduled == before.scheduled
        }
    }

    /// Types `c` into the page that is shown.
    pub fn push_input(&mut self, c: char)
        ensures
            final(self).keyed_from(old(self), Some(c)),
    {
        match self.current_page {
            CurrentPage::Compose => self.compose.handle_input(c),
            CurrentPage::Config => self.config.handle_input(c),
            CurrentPage::Dashboard => self.dashboard.handle_input(c),
            CurrentPage::Schedule => self.schedule.handle_input(c),
            CurrentPage::Scheduled => self.scheduled.handle_input(c),
        }
    }

    /// Erases the last character typed into the page that is shown.
    pub fn pop_input(&mut self)
        ensures
            final(self).keyed_from(old(self), None),
    {
        match self.current_page {
            CurrentPage::Compose => self.compose.handle_backspace(),
            CurrentPage::Config => self.config.handle_backspace(),
            CurrentPage::Dashboard => self.dashboard.handle_backspace(),
            CurrentPage::Schedule => self.schedule.handle_backspace(),
            CurrentPage::Scheduled => self.scheduled.handle_backspace(),
        }
    }
}

} // verus!
