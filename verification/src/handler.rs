//! What a key does, page by page, and what the answers of the outside
//! world do.
//!
//! The library decides; the caller acts. A key press changes the state of
//! the program and is answered with a [`Reaction`]: whether the screen has
//! to be cleared, whether the draft has to be saved, and what else has to
//! be done. Whatever comes of that is handed back as an [`Action`].

use vstd::prelude::*;
use vstd::string::*;
use crate::application::{holds_schedule, App};
use crate::compose::{attachments_of, lemma_no_text_no_attachments};
use crate::enums::{
    ComposeField, CurrentPage, DashboardFocus, InputMode, Notification, ScheduleField,
    ScheduledFocus,
};
use crate::models::{FilterOptions, LogEntry, ScheduledJob};
use crate::schedule::ResolvedSchedule;
use crate::text::{join, joined, texts};

verus! {

/// A key.
#[derive(Debug, Clone, Copy, PartialEq, Eq, Structural)]
pub enum KeyCode {
    Char(char),
    Enter,
    Esc,
    Tab,
    BackTab,
    Backspace,
    Up,
    Down,
    Other,
}

/// A key press: the key, and whether Control was held.
#[derive(Debug, Clone, Copy, PartialEq, Eq, Structural)]
pub struct KeyPress {
    pub code: KeyCode,
    pub control: bool,
}

/// What the caller has to do after a key press.
#[derive(Debug)]
pub enum Effect {
    Nothing,
    /// Save the configuration and report with `ConfigSaved` or
    /// `ConfigSaveFailed`.
    SaveConfig,
    /// Fetch the openings and the filter values.
    FetchLogs,
    /// Fetch the scheduled jobs.
    FetchJobs,
    /// Delete the openings of this tracking token.
    DeleteLogs(String),
    /// Cancel the job with this id.
    CancelJob(String),
    /// Write the job with this id to the download folder.
    DownloadJob(String),
    /// Let the user pick files to attach.
    PickAttachments,
    /// Let the user edit the body in an editor.
    EditBody,
    /// Compile the draft and send it.
    SendEmail,
    /// Compile the draft and hand it to the scheduling service.
    ScheduleEmail(ResolvedSchedule),
}

/// An effect as character sequences.
pub enum EffectView {
    Nothing,
    SaveConfig,
    FetchLogs,
    FetchJobs,
    DeleteLogs(Seq<char>),
    CancelJob(Seq<char>),
    DownloadJob(Seq<char>),
    PickAttachments,
    EditBody,
    SendEmail,
    ScheduleEmail(ResolvedSchedule),
}

impl View for Effect {
    type V = EffectView;

    open spec fn view(&self) -> EffectView {
        match self {
            Effect::Nothing => EffectView::Nothing,
            Effect::SaveConfig => EffectView::SaveConfig,
            Effect::FetchLogs => EffectView::FetchLogs,
            Effect::FetchJobs => EffectView::FetchJobs,
            Effect::DeleteLogs(id) => EffectView::DeleteLogs(id@),
            Effect::CancelJob(id) => EffectView::CancelJob(id@),
            Effect::DownloadJob(id) => EffectView::DownloadJob(id@),
            Effect::PickAttachments => EffectView::PickAttachments,
            Effect::EditBody => EffectView::EditBody,
            Effect::SendEmail => EffectView::SendEmail,
            Effect::ScheduleEmail(at) => EffectView::ScheduleEmail(*at),
        }
    }
}

/// The answer to a key press.
#[derive(Debug)]
pub struct Reaction {
    /// The screen has to be cleared before it is drawn again.
    pub clear_screen: bool,
    /// The draft has to be saved.
    pub save_draft: bool,
    pub effect: Effect,
}

/// What came of an effect, or of time passing.
#[derive(Debug)]
pub enum Action {
    RenderTick,
    EmailSent,
    EmailFailed(String),
    LogsFetched(Vec<LogEntry>),
    LogsFailed(String),
    FiltersFetched(FilterOptions),
    FiltersFailed(String),
    LogsDeleted(String),
    JobsFetched(Vec<ScheduledJob>),
    JobsFailed(String),
    JobCancelled(String),
    JobActionFailed(String),
    /// The editor was closed and left this text.
    BodyEdited(String),
    EditorFailed(String),
    /// The user picked these files.
    FilesPicked(Vec<String>),
    ConfigSaved,
    ConfigSaveFailed(String),
    /// The job was written to this folder among the downloads.
    JobDownloaded(String),
    DownloadFailed(String),
}

/// A notification as character sequences.
pub enum NoteView {
    Info(Seq<char>),
    Success(Seq<char>),
    Error(Seq<char>),
}

/// The view of a notification.
pub open spec fn note_view(note: Notification) -> NoteView {
    match note {
        Notification::Info(text) => NoteView::Info(text@),
        Notification::Success(text) => NoteView::Success(text@),
        Notification::Error(text) => NoteView::Error(text@),
    }
}

/// Whether the program shows this notification.
pub open spec fn shows(app: &App, note: NoteView) -> bool {
    app.notification is Some && note_view(app.notification->0) == note
}

fn info(text: &str) -> (note: Notification)
    ensures
        note_view(note) == NoteView::Info(text@),
{
    Notification::Info(text.to_owned())
}

fn success(text: &str) -> (note: Notification)
    ensures
        note_view(note) == NoteView::Success(text@),
{
    Notification::Success(text.to_owned())
}

fn failure(prefix: &str, reason: &str) -> (note: Notification)
    ensures
        note_view(note) == NoteView::Error(prefix@ + reason@),
{
    let mut text = prefix.to_owned();
    text.append(reason);
    Notification::Error(text)
}

fn quiet() -> (reaction: Reaction)
    ensures
        !reaction.clear_screen,
        !reaction.save_draft,
        reaction.effect@ == EffectView::Nothing,
{
    Reaction { clear_screen: false, save_draft: false, effect: Effect::Nothing }
}

fn redraw() -> (reaction: Reaction)
    ensures
        reaction.clear_screen,
        !reaction.save_draft,
        reaction.effect@ == EffectView::Nothing,
{
    Reaction { clear_screen: true, save_draft: false, effect: Effect::Nothing }
}

fn save() -> (reaction: Reaction)
    ensures
        !reaction.clear_screen,
        reaction.save_draft,
        reaction.effect@ == EffectView::Nothing,
{
    Reaction { clear_screen: false, save_draft: true, effect: Effect::Nothing }
}

fn act(effect: Effect) -> (reaction: Reaction)
    ensures
        !reaction.clear_screen,
        !reaction.save_draft,
        reaction.effect == effect,
{
    Reaction { clear_screen: false, save_draft: false, effect }
}

/// The page that a digit leads to.
pub open spec fn page_of_digit(c: char) -> Option<CurrentPage> {
    if c == '1' {
        Some(CurrentPage::Compose)
    } else if c == '2' {
        Some(CurrentPage::Config)
    } else if c == '3' {
        Some(CurrentPage::Dashboard)
    } else if c == '4' {
        Some(CurrentPage::Scheduled)
    } else {
        None
    }
}

/// Announces that the openings are being fetched. The caller fetches
/// them, and the filter values with them.
pub fn trigger_fetch(app: &mut App)
    ensures
        shows(final(app), NoteView::Info("Fetching logs..."@)),
        final(app).current_page == old(app).current_page,
        final(app).input_mode == old(app).input_mode,
        final(app).should_quit == old(app).should_quit,
        final(app).compose == old(app).compose,
        final(app).config == old(app).config,
        final(app).dashboard == old(app).dashboard,
        final(app).schedule == old(app).schedule,
        final(app).scheduled == old(app).scheduled,
{
    app.set_notification(info("Fetching logs..."));
}

/// Shows the page of scheduled jobs and announces that they are being
/// fetched. The caller fetches them.
pub fn trigger_fetch_jobs(app: &mut App)
    ensures
        shows(final(app), NoteView::Info("Fetching scheduled jobs..."@)),
        final(app).current_page == CurrentPage::Scheduled,
        final(app).input_mode == old(app).input_mode,
        final(app).should_quit == old(app).should_quit,
        final(app).compose == old(app).compose,
        final(app).config == old(app).config,
        final(app).dashboard == old(app).dashboard,
        final(app).schedule == old(app).schedule,
        final(app).scheduled == old(app).scheduled,
{
    app.current_page = CurrentPage::Scheduled;
    app.set_notification(info("Fetching scheduled jobs..."));
}

// ---------------------------------------------------------------------
// Compose and configuration
// ---------------------------------------------------------------------

/// What holds after a key on the compose or the configuration page in
/// editing mode: Escape, Enter and the tabulator keys end the editing,
/// and on the compose page Escape and Enter have the draft saved.
pub open spec fn standard_editing_holds(
    before: &App,
    after: &App,
    key: KeyPress,
    reaction: &Reaction,
) -> bool {
    &&& !reaction.clear_screen
    &&& reaction.effect@ == EffectView::Nothing
    &&& reaction.save_draft == (before.current_page == CurrentPage::Compose && (key.code
        == KeyCode::Esc || key.code == KeyCode::Enter))
    &&& after.current_page == before.current_page
    &&& after.should_quit == before.should_quit
    &&& after.input_mode == match key.code {
        KeyCode::Esc => InputMode::Normal,
        KeyCode::Enter => InputMode::Normal,
        KeyCode::Tab => InputMode::Normal,
        KeyCode::BackTab => InputMode::Normal,
        _ => InputMode::Editing,
    }
    &&& key.code matches KeyCode::Char(c) ==> after.keyed_from(before, Some(c))
    &&& key.code == KeyCode::Backspace ==> after.keyed_from(before, None)
    &&& key.code == KeyCode::Tab ==> after.moved_focus(&in_mode(*before, InputMode::Normal), true)
    &&& key.code == KeyCode::BackTab ==> after.moved_focus(
        &in_mode(*before, InputMode::Normal),
        false,
    )
    &&& key.code == KeyCode::Enter ==> if before.current_page == CurrentPage::Compose {
        after.moved_and_synced(before)
    } else {
        after.moved_focus(&in_mode(*before, InputMode::Normal), true)
    }
    &&& key.code == KeyCode::Esc ==> if before.current_page == CurrentPage::Compose {
        after.compose.synced_from(&before.compose) && same_but_compose(before, after)
    } else {
        *after == in_mode(*before, InputMode::Normal)
    }
    &&& key.code == KeyCode::Up || key.code == KeyCode::Down || key.code == KeyCode::Other
        ==> *after == *before
}

/// The program in another mode.
pub open spec fn in_mode(app: App, mode: InputMode) -> App {
    App { input_mode: mode, ..app }
}

/// Whether the two states of the program differ in nothing but the mode,
/// the quitting and the compose page.
pub open spec fn same_but_compose(before: &App, after: &App) -> bool {
    &&& after.current_page == before.current_page
    &&& after.notification == before.notification
    &&& after.config == before.config
    &&& after.dashboard == before.dashboard
    &&& after.schedule == before.schedule
    &&& after.scheduled == before.scheduled
}

impl App {
    /// Whether `self` is `before` after Enter ended the editing of a field
    /// of the compose page: the focus is on the next field, the draft has
    /// the attachments that the attachment text stands for, and nothing
    /// else has changed but the mode.
    pub open spec fn moved_and_synced(&self, before: &App) -> bool {
        &&& self.compose.field == before.compose.field.next()
        &&& texts(self.compose.draft.attachments@) == attachments_of(
            before.compose.attachment_input@,
        )
        &&& self.compose.attachment_input == before.compose.attachment_input
        &&& self.compose.draft.recipient == before.compose.draft.recipient
        &&& self.compose.draft.subject == before.compose.draft.subject
        &&& self.compose.draft.body == before.compose.draft.body
        &&& self.compose.draft.scheduled_at == before.compose.draft.scheduled_at
        &&& self.compose.draft.schedule == before.compose.draft.schedule
        &&& same_but_compose(before, self)
    }
}

/// What holds after a key on the compose or the configuration page in
/// normal mode.
pub open spec fn standard_normal_holds(
    before: &App,
    after: &App,
    key: KeyPress,
    reaction: &Reaction,
) -> bool {
    let on_attachments = before.current_page == CurrentPage::Compose && before.compose.field
        == ComposeField::Attachments;
    let clears = key.code == KeyCode::Char('x') && key.control && on_attachments;
    let schedules = key.code == KeyCode::Char('s') && key.control && before.current_page
        == CurrentPage::Compose;
    &&& reaction.effect@ == standard_effect(before.current_page, before.compose.field, key)
    &&& after.current_page == standard_page(before.current_page, key)
    &&& reaction.save_draft == (key.code == KeyCode::Char('q') || clears)
    &&& reaction.clear_screen == (clears || schedules || reaction.effect@
        == EffectView::PickAttachments || reaction.effect@ == EffectView::EditBody)
    &&& after.should_quit == (before.should_quit || key.code == KeyCode::Char('q'))
    &&& key.code == KeyCode::Char('q') ==> after.quit_from(before)
    &&& clears ==> after.compose.attachment_input@.len() == 0
        && after.compose.draft.attachments@.len() == 0 && shows(
        after,
        NoteView::Info("Attachments cleared"@),
    ) && after.compose.field == before.compose.field && after.compose.draft.recipient
        == before.compose.draft.recipient && after.compose.draft.subject
        == before.compose.draft.subject && after.compose.draft.body == before.compose.draft.body
        && after.compose.draft.scheduled_at == before.compose.draft.scheduled_at
        && after.compose.draft.schedule == before.compose.draft.schedule
        && after.input_mode == before.input_mode && after.config == before.config
        && after.dashboard == before.dashboard && after.schedule == before.schedule
        && after.scheduled == before.scheduled
    &&& schedules ==> after.schedule@.is_reset_of(before.schedule@) && after.input_mode
        == before.input_mode && after.notification == before.notification && after.compose
        == before.compose && after.config == before.config && after.dashboard == before.dashboard
        && after.scheduled == before.scheduled
    &&& key.code == KeyCode::Tab ==> after.moved_focus(before, true)
    &&& key.code == KeyCode::BackTab ==> after.moved_focus(before, false)
    &&& key.code == KeyCode::Enter ==> enter_holds(before, after, reaction)
    &&& key.code matches KeyCode::Char(c) ==> {
        &&& c == '1' || c == '2' ==> *after == (App {
            current_page: page_of_digit(c)->0,
            ..*before
        })
        &&& c == '3' ==> shows(after, NoteView::Info("Fetching logs..."@)) && same_but_note(
            &(App { current_page: CurrentPage::Dashboard, ..*before }),
            after,
        )
        &&& c == '4' ==> shows(after, NoteView::Info("Fetching scheduled jobs..."@))
            && same_but_note(&(App { current_page: CurrentPage::Scheduled, ..*before }), after)
        &&& !(c == 'q' || c == '1' || c == '2' || c == '3' || c == '4' || clears || schedules)
            ==> *after == *before
    }
    &&& !(key.code is Char || key.code == KeyCode::Tab || key.code == KeyCode::BackTab || key.code
        == KeyCode::Enter) ==> *after == *before
}

/// Whether the two states of the program differ in nothing but the
/// notification.
pub open spec fn same_but_note(before: &App, after: &App) -> bool {
    &&& after.should_quit == before.should_quit
    &&& after.input_mode == before.input_mode
    &&& after.current_page == before.current_page
    &&& after.compose == before.compose
    &&& after.config == before.config
    &&& after.dashboard == before.dashboard
    &&& after.schedule == before.schedule
    &&& after.scheduled == before.scheduled
}

/// What holds after Enter on the compose or the configuration page in
/// normal mode: the body opens in an editor, the send button sends, and
/// any other field is edited in place.
pub open spec fn enter_holds(before: &App, after: &App, reaction: &Reaction) -> bool {
    &&& reaction.effect@ == if before.current_page == CurrentPage::Compose
        && before.compose.field == ComposeField::Body {
        EffectView::EditBody
    } else if before.current_page == CurrentPage::Compose && before.compose.field
        == ComposeField::SendButton {
        EffectView::SendEmail
    } else {
        EffectView::Nothing
    }
    &&& !reaction.save_draft
    &&& reaction.clear_screen == (reaction.effect@ == EffectView::EditBody)
    &&& after.current_page == before.current_page
    &&& after.should_quit == before.should_quit
    &&& after.input_mode == if before.current_page == CurrentPage::Config || (
    before.current_page == CurrentPage::Compose && before.compose.field != ComposeField::Body
        && before.compose.field != ComposeField::SendButton) {
        InputMode::Editing
    } else {
        InputMode::Normal
    }
    &&& if reaction.effect@ == EffectView::SendEmail {
        shows(after, NoteView::Info("Sending email..."@))
    } else {
        after.notification == before.notification
    }
    &&& after.compose == before.compose
    &&& after.config == before.config
    &&& after.dashboard == before.dashboard
    &&& after.schedule == before.schedule
    &&& after.scheduled == before.scheduled
}

/// A key on the compose or the configuration page.
pub fn handle_standard_events(key: KeyPress, app: &mut App) -> (reaction: Reaction)
    ensures
        old(app).input_mode == InputMode::Normal ==> standard_normal_holds(
            old(app),
            final(app),
            key,
            &reaction,
        ),
        old(app).input_mode == InputMode::Editing ==> standard_editing_holds(
            old(app),
            final(app),
            key,
            &reaction,
        ),
{
    match app.input_mode {
        InputMode::Normal => handle_standard_normal_input(key, app),
        InputMode::Editing => handle_standard_editing_input(key, app),
    }
}

/// The effect of a key on the compose or the configuration page in
/// normal mode.
pub open spec fn standard_effect(
    page: CurrentPage,
    field: ComposeField,
    key: KeyPress,
) -> EffectView {
    match key.code {
        KeyCode::Char(c) => if c == '3' {
            EffectView::FetchLogs
        } else if c == '4' {
            EffectView::FetchJobs
        } else if c == 'o' && key.control && page == CurrentPage::Compose && field
            == ComposeField::Attachments {
            EffectView::PickAttachments
        } else if c == 's' && key.control && page != CurrentPage::Compose {
            EffectView::SaveConfig
        } else {
            EffectView::Nothing
        },
        KeyCode::Enter => if page == CurrentPage::Compose && field == ComposeField::Body {
            EffectView::EditBody
        } else if page == CurrentPage::Compose && field == ComposeField::SendButton {
            EffectView::SendEmail
        } else {
            EffectView::Nothing
        },
        _ => EffectView::Nothing,
    }
}

/// The page after a key on the compose or the configuration page in
/// normal mode.
pub open spec fn standard_page(page: CurrentPage, key: KeyPress) -> CurrentPage {
    match key.code {
        KeyCode::Char(c) => if c == 's' && key.control && page == CurrentPage::Compose {
            CurrentPage::Schedule
        } else if c != 'q' && page_of_digit(c) is Some {
            page_of_digit(c)->0
        } else {
            page
        },
        _ => page,
    }
}

fn handle_standard_normal_input(key: KeyPress, app: &mut App) -> (reaction: Reaction)
    requires
        old(app).input_mode == InputMode::Normal,
    ensures
        standard_normal_holds(old(app), final(app), key, &reaction),
{
    match key.code {
        KeyCode::Char('q') => {
            app.quit();
            save()
        },
        KeyCode::Char('1') => {
            app.current_page = CurrentPage::Compose;
            quiet()
        },
        KeyCode::Char('2') => {
            app.current_page = CurrentPage::Config;
            quiet()
        },
        KeyCode::Char('3') => {
            app.current_page = CurrentPage::Dashboard;
            trigger_fetch(app);
            act(Effect::FetchLogs)
        },
        KeyCode::Char('4') => {
            trigger_fetch_jobs(app);
            act(Effect::FetchJobs)
        },
        KeyCode::Tab => {
            app.cycle_field();
            quiet()
        },
        KeyCode::BackTab => {
            app.cycle_field_backward();
            quiet()
        },
        KeyCode::Enter => handle_enter_action(app),
        KeyCode::Char('o') => {
            if key.control && app.current_page == CurrentPage::Compose && app.compose.field
                == ComposeField::Attachments {
                Reaction { clear_screen: true, save_draft: false, effect: Effect::PickAttachments }
            } else {
                quiet()
            }
        },
        KeyCode::Char('x') => {
            if key.control && app.current_page == CurrentPage::Compose && app.compose.field
                == ComposeField::Attachments {
                app.compose.attachment_input = String::new();
                app.compose.sync_attachments();
                proof {
                    lemma_no_text_no_attachments();
                    assert(texts(app.compose.draft.attachments@).len()
                        == app.compose.draft.attachments@.len());
                }
                app.set_notification(info("Attachments cleared"));
                Reaction { clear_screen: true, save_draft: true, effect: Effect::Nothing }
            } else {
                quiet()
            }
        },
        KeyCode::Char('s') => {
            if !key.control {
                quiet()
            } else if app.current_page == CurrentPage::Compose {
                app.reset_schedule_modal();
                app.current_page = CurrentPage::Schedule;
                redraw()
            } else {
                act(Effect::SaveConfig)
            }
        },
        _ => quiet(),
    }
}

/// Enter on the compose or the configuration page in normal mode.
fn handle_enter_action(app: &mut App) -> (reaction: Reaction)
    requires
        old(app).input_mode == InputMode::Normal,
    ensures
        enter_holds(old(app), final(app), &reaction),
{
    match app.current_page {
        CurrentPage::Config => {
            app.toggle_editing();
            quiet()
        },
        CurrentPage::Compose => match app.compose.field {
            ComposeField::Body => Reaction {
                clear_screen: true,
                save_draft: false,
                effect: Effect::EditBody,
            },
            ComposeField::SendButton => {
                app.set_notification(info("Sending email..."));
                act(Effect::SendEmail)
            },
            _ => {
                app.toggle_editing();
                quiet()
            },
        },
        _ => quiet(),
    }
}

fn handle_standard_editing_input(key: KeyPress, app: &mut App) -> (reaction: Reaction)
    requires
        old(app).input_mode == InputMode::Editing,
    ensures
        standard_editing_holds(old(app), final(app), key, &reaction),
{
    let on_compose = match app.current_page {
        CurrentPage::Compose => true,
        _ => false,
    };
    match key.code {
        KeyCode::Esc => {
            app.toggle_editing();
            if on_compose {
                app.compose.sync_attachments();
                save()
            } else {
                quiet()
            }
        },
        KeyCode::Enter => {
            app.toggle_editing();
            app.cycle_field();
            if on_compose {
                app.compose.sync_attachments();
                save()
            } else {
                quiet()
            }
        },
        KeyCode::BackTab => {
            app.toggle_editing();
            app.cycle_field_backward();
            quiet()
        },
        KeyCode::Tab => {
            app.toggle_editing();
            app.cycle_field();
            quiet()
        },
        KeyCode::Char(c) => {
            app.push_input(c);
            quiet()
        },
        KeyCode::Backspace => {
            app.pop_input();
            quiet()
        },
        _ => quiet(),
    }
}

// ---------------------------------------------------------------------
// The schedule dialog
// ---------------------------------------------------------------------

/// What holds after a key on the schedule dialog in normal mode. Escape
/// returns to the compose page; Enter on the submit button schedules the
/// draft if the dialog resolves to an instant, and complains if not; in
/// both cases, and on quitting, the draft takes over what the dialog
/// shows and is saved.
pub open spec fn schedule_normal_holds(
    before: &App,
    after: &App,
    key: KeyPress,
    reaction: &Reaction,
) -> bool {
    let submit = key.code == KeyCode::Enter && before.schedule.active_field
        == ScheduleField::Submit;
    let target = before.schedule@.target();
    &&& !reaction.clear_screen
    &&& reaction.effect@ == if submit && target is Some {
        EffectView::ScheduleEmail(target->0)
    } else {
        EffectView::Nothing
    }
    &&& reaction.save_draft == (key.code == KeyCode::Char('q') || key.code == KeyCode::Esc
        || submit)
    &&& reaction.save_draft ==> holds_schedule(after.compose.draft.schedule, before.schedule@)
    &&& after.should_quit == (before.should_quit || key.code == KeyCode::Char('q'))
    &&& after.current_page == if key.code == KeyCode::Esc {
        CurrentPage::Compose
    } else if submit && target is Some {
        CurrentPage::Dashboard
    } else {
        before.current_page
    }
    &&& after.input_mode == if key.code == KeyCode::Enter && !submit {
        InputMode::Editing
    } else {
        InputMode::Normal
    }
    &&& submit && target is Some ==> shows(after, NoteView::Info("Scheduling..."@))
    &&& submit && target is None ==> shows(after, NoteView::Error("Invalid Date/Time"@))
    &&& !submit ==> after.notification == before.notification
    &&& key.code == KeyCode::Char('q') ==> after.quit_from(before)
    &&& key.code == KeyCode::Esc || submit ==> (App {
        notification: before.notification,
        ..*after
    }).schedule_kept_from(&(App { current_page: after.current_page, ..*before }))
    &&& key.code == KeyCode::Tab ==> after.moved_focus(before, true)
    &&& key.code == KeyCode::BackTab ==> after.moved_focus(before, false)
    &&& !(key.code == KeyCode::Tab || key.code == KeyCode::BackTab) ==> {
        &&& !reaction.save_draft ==> after.compose == before.compose
        &&& after.config == before.config
        &&& after.dashboard == before.dashboard
        &&& after.scheduled == before.scheduled
    }
    &&& !(key.code == KeyCode::Char('q') || key.code == KeyCode::Esc || key.code == KeyCode::Tab
        || key.code == KeyCode::BackTab || key.code == KeyCode::Enter || key.code == KeyCode::Down
        || key.code == KeyCode::Up) ==> *after == *before
    &&& key.code == KeyCode::Enter && !submit ==> after.schedule@ == before.schedule@.cleared()
    &&& key.code == KeyCode::Down || key.code == KeyCode::Up ==> after.schedule@ == (
    crate::schedule::ScheduleView {
        selected_timezone_idx: moved_zone(
            before.schedule@.active_field,
            before.schedule@.selected_timezone_idx,
            before.schedule@.filtered_timezones.len(),
            key.code == KeyCode::Down,
        ),
        ..before.schedule@
    })
}

/// The zone that is highlighted after an arrow key: the next or the
/// previous one, if the zone field is active and there is such a zone.
pub open spec fn moved_zone(field: ScheduleField, selected: usize, zones: nat, down: bool) -> usize {
    if field != ScheduleField::Timezone {
        selected
    } else if down {
        if selected + 1 < zones {
            (selected + 1) as usize
        } else {
            selected
        }
    } else {
        if selected > 0 {
            (selected - 1) as usize
        } else {
            selected
        }
    }
}

/// What holds after a key on the schedule dialog in editing mode. Escape
/// and Enter end the editing, and on the zone field they take over the
/// highlighted zone.
pub open spec fn schedule_editing_holds(
    before: &App,
    after: &App,
    key: KeyPress,
    reaction: &Reaction,
) -> bool {
    &&& !reaction.clear_screen
    &&& !reaction.save_draft
    &&& reaction.effect@ == EffectView::Nothing
    &&& after.current_page == before.current_page
    &&& after.should_quit == before.should_quit
    &&& after.input_mode == match key.code {
        KeyCode::Esc => InputMode::Normal,
        KeyCode::Enter => InputMode::Normal,
        KeyCode::Tab => InputMode::Normal,
        KeyCode::BackTab => InputMode::Normal,
        _ => InputMode::Editing,
    }
    &&& key.code == KeyCode::Esc || key.code == KeyCode::Enter ==> after.schedule@ == (
    crate::schedule::ScheduleView {
        timezone_input: if before.schedule@.active_field == ScheduleField::Timezone
            && before.schedule@.selected_timezone_idx
            < before.schedule@.filtered_timezones.len() {
            before.schedule@.filtered_timezones[before.schedule@.selected_timezone_idx as int]
        } else {
            before.schedule@.timezone_input
        },
        ..before.schedule@
    })
    &&& key.code matches KeyCode::Char(c) ==> before.current_page == CurrentPage::Schedule
        ==> after.schedule@ == before.schedule@.typed(c)
    &&& key.code == KeyCode::Backspace ==> before.current_page == CurrentPage::Schedule
        ==> after.schedule@ == before.schedule@.erased()
    &&& key.code == KeyCode::Tab ==> after.moved_focus(&in_mode(*before, InputMode::Normal), true)
    &&& key.code == KeyCode::BackTab ==> after.moved_focus(
        &in_mode(*before, InputMode::Normal),
        false,
    )
    &&& key.code == KeyCode::Up || key.code == KeyCode::Down || key.code == KeyCode::Other
        ==> *after == *before
    &&& before.current_page == CurrentPage::Schedule ==> {
        &&& after.notification == before.notification
        &&& after.compose == before.compose
        &&& after.config == before.config
        &&& after.dashboard == before.dashboard
        &&& after.scheduled == before.scheduled
    }
}

/// A key on the schedule dialog.
pub fn handle_schedule_input(key: KeyPress, app: &mut App) -> (reaction: Reaction)
    ensures
        old(app).input_mode == InputMode::Normal ==> schedule_normal_holds(
            old(app),
            final(app),
            key,
            &reaction,
        ),
        old(app).input_mode == InputMode::Editing ==> schedule_editing_holds(
            old(app),
            final(app),
            key,
            &reaction,
        ),
{
    match app.input_mode {
        InputMode::Normal => handle_normal_mode(key, app),
        InputMode::Editing => handle_editing_mode(key, app),
    }
}

fn handle_normal_mode(key: KeyPress, app: &mut App) -> (reaction: Reaction)
    requires
        old(app).input_mode == InputMode::Normal,
    ensures
        schedule_normal_holds(old(app), final(app), key, &reaction),
{
    match key.code {
        KeyCode::Char('q') => {
            app.quit();
            save()
        },
        KeyCode::Esc => {
            app.sync_schedule_to_draft();
            app.current_page = CurrentPage::Compose;
            save()
        },
        KeyCode::Tab => {
            app.cycle_field();
            quiet()
        },
        KeyCode::BackTab => {
            app.cycle_field_backward();
            quiet()
        },
        KeyCode::Enter => {
            let on_submit = match app.schedule.active_field {
                ScheduleField::Submit => true,
                _ => false,
            };
            if on_submit {
                app.sync_schedule_to_draft();
                match app.schedule.calculate_utc_target() {
                    Some(target) => {
                        app.set_notification(info("Scheduling..."));
                        app.current_page = CurrentPage::Dashboard;
                        Reaction {
                            clear_screen: false,
                            save_draft: true,
                            effect: Effect::ScheduleEmail(target),
                        }
                    },
                    None => {
                        app.set_notification(failure("Invalid Date/Time", ""));
                        assert("Invalid Date/Time"@ + ""@ =~= "Invalid Date/Time"@) by {
                            reveal_strlit("");
                        }
                        save()
                    },
                }
            } else {
                app.schedule.clear_current_field();
                app.toggle_editing();
                quiet()
            }
        },
        KeyCode::Down => {
            let on_zone = match app.schedule.active_field {
                ScheduleField::Timezone => true,
                _ => false,
            };
            if on_zone && app.schedule.selected_timezone_idx
                < app.schedule.filtered_timezones.len().saturating_sub(1) {
                app.schedule.selected_timezone_idx += 1;
            }
            proof {
                assert(texts(app.schedule.filtered_timezones@).len()
                    == app.schedule.filtered_timezones@.len());
            }
            quiet()
        },
        KeyCode::Up => {
            let on_zone = match app.schedule.active_field {
                ScheduleField::Timezone => true,
                _ => false,
            };
            if on_zone && app.schedule.selected_timezone_idx > 0 {
                app.schedule.selected_timezone_idx -= 1;
            }
            quiet()
        },
        _ => quiet(),
    }
}

fn handle_editing_mode(key: KeyPress, app: &mut App) -> (reaction: Reaction)
    requires
        old(app).input_mode == InputMode::Editing,
    ensures
        schedule_editing_holds(old(app), final(app), key, &reaction),
{
    match key.code {
        KeyCode::Esc | KeyCode::Enter => {
            app.toggle_editing();
            let on_zone = match app.schedule.active_field {
                ScheduleField::Timezone => true,
                _ => false,
            };
            if on_zone && app.schedule.selected_timezone_idx
                < app.schedule.filtered_timezones.len() {
                let zone = app.schedule.filtered_timezones[app.schedule.selected_timezone_idx].clone();
                proof {
                    assert(texts(app.schedule.filtered_timezones@)[app.schedule.selected_timezone_idx as int]
                        == zone@);
                }
                app.schedule.timezone_input = zone;
            }
            proof {
                assert(texts(app.schedule.filtered_timezones@).len()
                    == app.schedule.filtered_timezones@.len());
            }
            quiet()
        },
        KeyCode::Tab => {
            app.toggle_editing();
            app.cycle_field();
            quiet()
        },
        KeyCode::BackTab => {
            app.toggle_editing();
            app.cycle_field_backward();
            quiet()
        },
        KeyCode::Char(c) => {
            app.push_input(c);
            quiet()
        },
        KeyCode::Backspace => {
            app.pop_input();
            quiet()
        },
        _ => quiet(),
    }
}

// ---------------------------------------------------------------------
// The dashboard
// ---------------------------------------------------------------------

/// What holds after a key on the dashboard while the details of a
/// recipient are shown: Control-D has the recipient's openings deleted,
/// and Escape, Enter and `q` close the details.
pub open spec fn dashboard_detail_holds(
    before: &App,
    after: &App,
    key: KeyPress,
    reaction: &Reaction,
) -> bool {
    let delete = key.code == KeyCode::Char('d') && key.control;
    let close = !delete && (key.code == KeyCode::Esc || key.code == KeyCode::Enter || key.code
        == KeyCode::Char('q'));
    &&& !reaction.save_draft
    &&& reaction.clear_screen == close
    &&& reaction.effect@ == if delete {
        EffectView::DeleteLogs(before.dashboard.selected_summary_id->0@)
    } else {
        EffectView::Nothing
    }
    &&& if delete {
        shows(after, NoteView::Info("Deleting logs..."@))
    } else {
        after.notification == before.notification
    }
    &&& after.dashboard.selected_summary_id is None == close
    &&& !close ==> after.dashboard.selected_summary_id == before.dashboard.selected_summary_id
    &&& after.current_page == before.current_page
    &&& after.input_mode == before.input_mode
    &&& after.should_quit == before.should_quit
    &&& after.dashboard.logs == before.dashboard.logs
    &&& after.dashboard.focus == before.dashboard.focus
    &&& after.dashboard.selected_row == before.dashboard.selected_row
    &&& dashboard_filters_kept(before, after)
    &&& beside_dashboard(before, after)
}

/// Whether the three filters of the dashboard, and the values that the
/// service offers for them, are as before.
pub open spec fn dashboard_filters_kept(before: &App, after: &App) -> bool {
    &&& after.dashboard.filter_recipient == before.dashboard.filter_recipient
    &&& after.dashboard.filter_country == before.dashboard.filter_country
    &&& after.dashboard.filter_min_opens == before.dashboard.filter_min_opens
    &&& after.dashboard.filter_options == before.dashboard.filter_options
}

/// Whether the pages other than the dashboard are as before.
pub open spec fn beside_dashboard(before: &App, after: &App) -> bool {
    &&& after.compose == before.compose
    &&& after.config == before.config
    &&& after.schedule == before.schedule
    &&& after.scheduled == before.scheduled
}

/// The effect of a key on the dashboard in normal mode.
pub open spec fn dashboard_effect(key: KeyPress) -> EffectView {
    match key.code {
        KeyCode::Char(c) => if c == '3' || c == 'r' {
            EffectView::FetchLogs
        } else if c == '4' {
            EffectView::FetchJobs
        } else {
            EffectView::Nothing
        },
        _ => EffectView::Nothing,
    }
}

/// What holds after a key on the dashboard in normal mode.
pub open spec fn dashboard_normal_holds(
    before: &App,
    after: &App,
    key: KeyPress,
    reaction: &Reaction,
) -> bool {
    let on_list = before.dashboard.focus == DashboardFocus::List;
    &&& reaction.effect@ == dashboard_effect(key)
    &&& reaction.save_draft == (key.code == KeyCode::Char('q'))
    &&& reaction.clear_screen == match key.code {
        KeyCode::Tab => true,
        KeyCode::BackTab => true,
        KeyCode::Enter => true,
        KeyCode::Down => on_list,
        KeyCode::Up => on_list,
        _ => false,
    }
    &&& after.should_quit == (before.should_quit || key.code == KeyCode::Char('q'))
    &&& after.current_page == match key.code {
        KeyCode::Char(c) => if c == '1' {
            CurrentPage::Compose
        } else if c == '2' {
            CurrentPage::Config
        } else if c == '4' {
            CurrentPage::Scheduled
        } else {
            before.current_page
        },
        _ => before.current_page,
    }
    &&& after.input_mode == if key.code == KeyCode::Enter && !on_list {
        InputMode::Editing
    } else {
        InputMode::Normal
    }
    &&& key.code == KeyCode::Down && on_list ==> after.dashboard.selected_row == Some(
        crate::scheduled::row_below(before.dashboard.selected_row, before.dashboard.shown().len()),
    )
    &&& key.code == KeyCode::Up && on_list ==> after.dashboard.selected_row == Some(
        crate::scheduled::row_above(before.dashboard.selected_row, before.dashboard.shown().len()),
    )
    &&& key.code == KeyCode::Tab ==> after.dashboard.focus == before.dashboard.focus.next()
    &&& key.code == KeyCode::BackTab ==> after.dashboard.focus == before.dashboard.focus.prev()
    &&& key.code == KeyCode::Enter && on_list ==> match before.dashboard.selected_row {
        Some(row) if row < before.dashboard.shown().len() => after.dashboard.selected_summary_id
            is Some && after.dashboard.selected_summary_id->0@
            == before.dashboard.shown()[row as int].tracking_id,
        _ => after.dashboard.selected_summary_id is None,
    }
    &&& !(key.code == KeyCode::Enter && on_list) ==> after.dashboard.selected_summary_id
        == before.dashboard.selected_summary_id
    &&& !(key.code == KeyCode::Tab || key.code == KeyCode::BackTab) ==> after.dashboard.focus
        == before.dashboard.focus
    &&& !((key.code == KeyCode::Down || key.code == KeyCode::Up) && on_list)
        ==> after.dashboard.selected_row == before.dashboard.selected_row
    &&& after.dashboard.logs == before.dashboard.logs
    &&& dashboard_filters_kept(before, after)
    &&& if key.code == KeyCode::Char('q') {
        after.quit_from(before)
    } else {
        beside_dashboard(before, after)
    }
    &&& match dashboard_effect(key) {
        EffectView::FetchLogs => shows(after, NoteView::Info("Fetching logs..."@)),
        EffectView::FetchJobs => shows(after, NoteView::Info("Fetching scheduled jobs..."@)),
        _ => after.notification == before.notification,
    }
}

/// What holds after a key on the dashboard in editing mode.
pub open spec fn dashboard_editing_holds(
    before: &App,
    after: &App,
    key: KeyPress,
    reaction: &Reaction,
) -> bool {
    &&& reaction.clear_screen
    &&& !reaction.save_draft
    &&& reaction.effect@ == EffectView::Nothing
    &&& after.current_page == before.current_page
    &&& after.should_quit == before.should_quit
    &&& after.input_mode == match key.code {
        KeyCode::Esc => InputMode::Normal,
        KeyCode::Enter => InputMode::Normal,
        KeyCode::Tab => InputMode::Normal,
        KeyCode::BackTab => InputMode::Normal,
        _ => InputMode::Editing,
    }
    &&& key.code matches KeyCode::Char(c) ==> after.dashboard.edited_from(
        &before.dashboard,
        Some(c),
    )
    &&& key.code == KeyCode::Backspace ==> after.dashboard.edited_from(&before.dashboard, None)
    &&& key.code == KeyCode::Tab ==> after.dashboard.focus == before.dashboard.focus.next()
    &&& key.code == KeyCode::BackTab ==> after.dashboard.focus == before.dashboard.focus.prev()
    &&& !(key.code is Char || key.code == KeyCode::Backspace) ==> dashboard_filters_kept(
        before,
        after,
    ) && after.dashboard.same_data(&before.dashboard)
    &&& !(key.code is Char || key.code == KeyCode::Backspace || key.code == KeyCode::Tab || key.code
        == KeyCode::BackTab) ==> after.dashboard.focus == before.dashboard.focus
    &&& after.dashboard.logs == before.dashboard.logs
    &&& after.notification == before.notification
    &&& beside_dashboard(before, after)
}

/// A key on the dashboard.
pub fn handle_dashboard_events(key: KeyPress, app: &mut App) -> (reaction: Reaction)
    ensures
        old(app).dashboard.selected_summary_id is Some ==> dashboard_detail_holds(
            old(app),
            final(app),
            key,
            &reaction,
        ),
        old(app).dashboard.selected_summary_id is None && old(app).input_mode
            == InputMode::Normal ==> dashboard_normal_holds(old(app), final(app), key, &reaction),
        old(app).dashboard.selected_summary_id is None && old(app).input_mode
            == InputMode::Editing ==> dashboard_editing_holds(
            old(app),
            final(app),
            key,
            &reaction,
        ),
{
    let open = match &app.dashboard.selected_summary_id {
        Some(id) => Some(id.clone()),
        None => None,
    };
    match open {
        Some(tracking_id) => {
            let delete = match key.code {
                KeyCode::Char('d') => key.control,
                _ => false,
            };
            if delete {
                app.set_notification(info("Deleting logs..."));
                return act(Effect::DeleteLogs(tracking_id));
            }
            match key.code {
                KeyCode::Esc | KeyCode::Enter | KeyCode::Char('q') => {
                    app.dashboard.selected_summary_id = None;
                    redraw()
                },
                _ => quiet(),
            }
        },
        None => match app.input_mode {
            InputMode::Normal => handle_dashboard_normal_input(key, app),
            InputMode::Editing => handle_dashboard_editing_input(key, app),
        },
    }
}

fn handle_dashboard_normal_input(key: KeyPress, app: &mut App) -> (reaction: Reaction)
    requires
        old(app).input_mode == InputMode::Normal,
        old(app).dashboard.selected_summary_id is None,
    ensures
        dashboard_normal_holds(old(app), final(app), key, &reaction),
{
    let on_list = match app.dashboard.focus {
        DashboardFocus::List => true,
        _ => false,
    };
    match key.code {
        KeyCode::Char('q') => {
            app.quit();
            save()
        },
        KeyCode::Tab => {
            app.dashboard.cycle_focus(true);
            redraw()
        },
        KeyCode::BackTab => {
            app.dashboard.cycle_focus(false);
            redraw()
        },
        KeyCode::Char('1') => {
            app.current_page = CurrentPage::Compose;
            quiet()
        },
        KeyCode::Char('2') => {
            app.current_page = CurrentPage::Config;
            quiet()
        },
        KeyCode::Char('3') | KeyCode::Char('r') => {
            trigger_fetch(app);
            act(Effect::FetchLogs)
        },
        KeyCode::Char('4') => {
            trigger_fetch_jobs(app);
            act(Effect::FetchJobs)
        },
        KeyCode::Enter => {
            if on_list {
                app.dashboard.open_selected();
            } else {
                app.toggle_editing();
            }
            redraw()
        },
        KeyCode::Down => {
            if on_list {
                app.dashboard.select_next();
                redraw()
            } else {
                quiet()
            }
        },
        KeyCode::Up => {
            if on_list {
                app.dashboard.select_previous();
                redraw()
            } else {
                quiet()
            }
        },
        _ => quiet(),
    }
}

fn handle_dashboard_editing_input(key: KeyPress, app: &mut App) -> (reaction: Reaction)
    requires
        old(app).input_mode == InputMode::Editing,
        old(app).dashboard.selected_summary_id is None,
    ensures
        dashboard_editing_holds(old(app), final(app), key, &reaction),
{
    match key.code {
        KeyCode::Esc | KeyCode::Enter => {
            app.toggle_editing();
        },
        KeyCode::Tab => {
            app.toggle_editing();
            app.dashboard.cycle_focus(true);
        },
        KeyCode::BackTab => {
            app.toggle_editing();
            app.dashboard.cycle_focus(false);
        },
        KeyCode::Char(c) => app.dashboard.handle_input(c),
        KeyCode::Backspace => app.dashboard.handle_backspace(),
        _ => {},
    }
    redraw()
}

// ---------------------------------------------------------------------
// The scheduled jobs
// ---------------------------------------------------------------------

/// Whether the list holds a job with this id.
pub open spec fn has_job(jobs: Seq<ScheduledJob>, id: Seq<char>) -> bool {
    exists|k: int| 0 <= k < jobs.len() && #[trigger] jobs[k].id@ == id
}

/// What holds after a key on the page of scheduled jobs while the details
/// of a job are shown: `x` has the job cancelled, `d` has it written to
/// the download folder, Escape and `q` close the details.
pub open spec fn scheduled_detail_holds(
    before: &App,
    after: &App,
    key: KeyPress,
    reaction: &Reaction,
) -> bool {
    let id = before.scheduled.selected_job_id->0@;
    let known = has_job(before.scheduled.jobs@, id);
    &&& reaction.clear_screen
    &&& !reaction.save_draft
    &&& reaction.effect@ == if key.code == KeyCode::Char('x') && known {
        EffectView::CancelJob(id)
    } else if key.code == KeyCode::Char('d') && known {
        EffectView::DownloadJob(id)
    } else {
        EffectView::Nothing
    }
    &&& after.scheduled.selected_job_id is None == (key.code == KeyCode::Esc || key.code
        == KeyCode::Char('q') || (key.code == KeyCode::Char('x') && known))
    &&& after.scheduled.selected_job_id is Some ==> after.scheduled.selected_job_id
        == before.scheduled.selected_job_id
    &&& if key.code == KeyCode::Char('x') && known {
        shows(after, NoteView::Info("Deleting Job..."@))
    } else {
        after.notification == before.notification
    }
    &&& after.current_page == before.current_page
    &&& after.input_mode == before.input_mode
    &&& after.should_quit == before.should_quit
    &&& after.scheduled.jobs == before.scheduled.jobs
    &&& after.scheduled.focus == before.scheduled.focus
    &&& after.scheduled.filter_recipient == before.scheduled.filter_recipient
    &&& after.scheduled.filter_status == before.scheduled.filter_status
    &&& after.scheduled.selected_row == before.scheduled.selected_row
    &&& beside_scheduled(before, after)
}

/// Whether the pages other than that of the scheduled jobs are as before.
pub open spec fn beside_scheduled(before: &App, after: &App) -> bool {
    &&& after.compose == before.compose
    &&& after.config == before.config
    &&& after.schedule == before.schedule
    &&& after.dashboard == before.dashboard
}

/// What holds after a key on the page of scheduled jobs in normal mode.
pub open spec fn scheduled_normal_holds(
    before: &App,
    after: &App,
    key: KeyPress,
    reaction: &Reaction,
) -> bool {
    let on_list = before.scheduled.focus == ScheduledFocus::List;
    &&& reaction.effect@ == if key.code == KeyCode::Char('r') {
        EffectView::FetchJobs
    } else {
        EffectView::Nothing
    }
    &&& reaction.save_draft == (key.code == KeyCode::Char('q'))
    &&& reaction.clear_screen == match key.code {
        KeyCode::Tab => true,
        KeyCode::BackTab => true,
        KeyCode::Enter => true,
        KeyCode::Down => on_list,
        KeyCode::Up => on_list,
        _ => false,
    }
    &&& after.should_quit == (before.should_quit || key.code == KeyCode::Char('q'))
    &&& after.current_page == match key.code {
        KeyCode::Char(c) => if c == 'r' {
            CurrentPage::Scheduled
        } else if page_of_digit(c) is Some {
            page_of_digit(c)->0
        } else {
            before.current_page
        },
        _ => before.current_page,
    }
    &&& after.input_mode == if key.code == KeyCode::Enter && before.scheduled.focus
        == ScheduledFocus::FilterRecipient {
        InputMode::Editing
    } else {
        InputMode::Normal
    }
    &&& key.code == KeyCode::Enter && before.scheduled.focus == ScheduledFocus::FilterStatus
        ==> after.scheduled.filter_status == crate::scheduled::next_status_filter(
        before.scheduled.filter_status,
    )
    &&& key.code == KeyCode::Down && on_list ==> after.scheduled.selected_row == Some(
        crate::scheduled::row_below(before.scheduled.selected_row, before.scheduled.shown().len()),
    )
    &&& key.code == KeyCode::Up && on_list ==> after.scheduled.selected_row == Some(
        crate::scheduled::row_above(before.scheduled.selected_row, before.scheduled.shown().len()),
    )
    &&& key.code == KeyCode::Tab ==> after.scheduled.focus == before.scheduled.focus.next()
    &&& key.code == KeyCode::BackTab ==> after.scheduled.focus == before.scheduled.focus.prev()
    &&& key.code == KeyCode::Enter && on_list ==> match before.scheduled.selected_row {
        Some(row) if row < before.scheduled.shown().len() => after.scheduled.selected_job_id
            is Some && after.scheduled.selected_job_id->0@
            == before.scheduled.shown()[row as int].id@,
        _ => after.scheduled.selected_job_id is None,
    }
    &&& !(key.code == KeyCode::Enter && on_list) ==> after.scheduled.selected_job_id
        == before.scheduled.selected_job_id
    &&& !(key.code == KeyCode::Tab || key.code == KeyCode::BackTab) ==> after.scheduled.focus
        == before.scheduled.focus
    &&& !((key.code == KeyCode::Down || key.code == KeyCode::Up) && on_list)
        ==> after.scheduled.selected_row == before.scheduled.selected_row
    &&& !(key.code == KeyCode::Enter && before.scheduled.focus == ScheduledFocus::FilterStatus)
        ==> after.scheduled.filter_status == before.scheduled.filter_status
    &&& after.scheduled.filter_recipient == before.scheduled.filter_recipient
    &&& after.scheduled.jobs == before.scheduled.jobs
    &&& if key.code == KeyCode::Char('q') {
        after.quit_from(before)
    } else {
        beside_scheduled(before, after)
    }
    &&& if key.code == KeyCode::Char('r') {
        shows(after, NoteView::Info("Fetching scheduled jobs..."@))
    } else {
        after.notification == before.notification
    }
}

/// What holds after a key on the page of scheduled jobs in editing mode.
pub open spec fn scheduled_editing_holds(
    before: &App,
    after: &App,
    key: KeyPress,
    reaction: &Reaction,
) -> bool {
    &&& !reaction.save_draft
    &&& reaction.effect@ == EffectView::Nothing
    &&& reaction.clear_screen == match key.code {
        KeyCode::Esc => true,
        KeyCode::Enter => true,
        KeyCode::Char(_) => true,
        KeyCode::Backspace => true,
        _ => false,
    }
    &&& after.current_page == before.current_page
    &&& after.should_quit == before.should_quit
    &&& after.input_mode == match key.code {
        KeyCode::Esc => InputMode::Normal,
        KeyCode::Enter => InputMode::Normal,
        _ => InputMode::Editing,
    }
    &&& key.code matches KeyCode::Char(c) ==> after.scheduled.edited_from(
        &before.scheduled,
        Some(c),
    )
    &&& key.code == KeyCode::Backspace ==> after.scheduled.edited_from(&before.scheduled, None)
    &&& !(key.code is Char || key.code == KeyCode::Backspace) ==> after.scheduled
        == before.scheduled
    &&& after.scheduled.jobs == before.scheduled.jobs
    &&& after.notification == before.notification
    &&& beside_scheduled(before, after)
}

/// A key on the page of scheduled jobs.
pub fn handle_scheduled_events(key: KeyPress, app: &mut App) -> (reaction: Reaction)
    ensures
        old(app).scheduled.selected_job_id is Some ==> scheduled_detail_holds(
            old(app),
            final(app),
            key,
            &reaction,
        ),
        old(app).scheduled.selected_job_id is None && old(app).input_mode
            == InputMode::Normal ==> scheduled_normal_holds(old(app), final(app), key, &reaction),
        old(app).scheduled.selected_job_id is None && old(app).input_mode
            == InputMode::Editing ==> scheduled_editing_holds(
            old(app),
            final(app),
            key,
            &reaction,
        ),
{
    let open = match &app.scheduled.selected_job_id {
        Some(id) => Some(id.clone()),
        None => None,
    };
    match open {
        Some(selected_id) => {
            let known = app.scheduled.find_job(selected_id.as_str()).is_some();
            assert(known == has_job(app.scheduled.jobs@, selected_id@));
            match key.code {
                KeyCode::Esc | KeyCode::Char('q') => {
                    app.scheduled.selected_job_id = None;
                    redraw()
                },
                KeyCode::Char('x') => {
                    if known {
                        app.set_notification(info("Deleting Job..."));
                        app.scheduled.selected_job_id = None;
                        Reaction {
                            clear_screen: true,
                            save_draft: false,
                            effect: Effect::CancelJob(selected_id),
                        }
                    } else {
                        redraw()
                    }
                },
                KeyCode::Char('d') => {
                    if known {
                        Reaction {
                            clear_screen: true,
                            save_draft: false,
                            effect: Effect::DownloadJob(selected_id),
                        }
                    } else {
                        redraw()
                    }
                },
                _ => redraw(),
            }
        },
        None => match app.input_mode {
            InputMode::Normal => handle_scheduled_normal_input(key, app),
            InputMode::Editing => handle_scheduled_editing_input(key, app),
        },
    }
}

fn handle_scheduled_normal_input(key: KeyPress, app: &mut App) -> (reaction: Reaction)
    requires
        old(app).input_mode == InputMode::Normal,
        old(app).scheduled.selected_job_id is None,
    ensures
        scheduled_normal_holds(old(app), final(app), key, &reaction),
{
    let on_list = match app.scheduled.focus {
        ScheduledFocus::List => true,
        _ => false,
    };
    match key.code {
        KeyCode::Char('q') => {
            app.quit();
            save()
        },
        KeyCode::Tab => {
            app.scheduled.cycle_focus(true);
            redraw()
        },
        KeyCode::BackTab => {
            app.scheduled.cycle_focus(false);
            redraw()
        },
        KeyCode::Enter => {
            match app.scheduled.focus {
                ScheduledFocus::List => app.scheduled.open_selected(),
                ScheduledFocus::FilterStatus => app.scheduled.toggle_status_filter(),
                ScheduledFocus::FilterRecipient => app.toggle_editing(),
            }
            redraw()
        },
        KeyCode::Down => {
            if on_list {
                app.scheduled.select_next();
                redraw()
            } else {
                quiet()
            }
        },
        KeyCode::Up => {
            if on_list {
                app.scheduled.select_previous();
                redraw()
            } else {
                quiet()
            }
        },
        KeyCode::Char('1') => {
            app.current_page = CurrentPage::Compose;
            quiet()
        },
        KeyCode::Char('2') => {
            app.current_page = CurrentPage::Config;
            quiet()
        },
        KeyCode::Char('3') => {
            app.current_page = CurrentPage::Dashboard;
            quiet()
        },
        KeyCode::Char('4') => {
            app.current_page = CurrentPage::Scheduled;
            quiet()
        },
        KeyCode::Char('r') => {
            trigger_fetch_jobs(app);
            act(Effect::FetchJobs)
        },
        _ => quiet(),
    }
}

fn handle_scheduled_editing_input(key: KeyPress, app: &mut App) -> (reaction: Reaction)
    requires
        old(app).input_mode == InputMode::Editing,
    ensures
        scheduled_editing_holds(old(app), final(app), key, &reaction),
{
    match key.code {
        KeyCode::Esc | KeyCode::Enter => {
            app.toggle_editing();
            redraw()
        },
        KeyCode::Char(c) => {
            app.scheduled.handle_input(c);
            redraw()
        },
        KeyCode::Backspace => {
            app.scheduled.handle_backspace();
            redraw()
        },
        _ => quiet(),
    }
}

// ---------------------------------------------------------------------
// Every page
// ---------------------------------------------------------------------

/// What holds after a key: what holds of the page that is shown, in the
/// mode that the program is in.
pub open spec fn key_holds(before: &App, after: &App, key: KeyPress, reaction: &Reaction) -> bool {
    let normal = before.input_mode == InputMode::Normal;
    match before.current_page {
        CurrentPage::Schedule => if normal {
            schedule_normal_holds(before, after, key, reaction)
        } else {
            schedule_editing_holds(before, after, key, reaction)
        },
        CurrentPage::Dashboard => if before.dashboard.selected_summary_id is Some {
            dashboard_detail_holds(before, after, key, reaction)
        } else if normal {
            dashboard_normal_holds(before, after, key, reaction)
        } else {
            dashboard_editing_holds(before, after, key, reaction)
        },
        CurrentPage::Scheduled => if before.scheduled.selected_job_id is Some {
            scheduled_detail_holds(before, after, key, reaction)
        } else if normal {
            scheduled_normal_holds(before, after, key, reaction)
        } else {
            scheduled_editing_holds(before, after, key, reaction)
        },
        _ => if normal {
            standard_normal_holds(before, after, key, reaction)
        } else {
            standard_editing_holds(before, after, key, reaction)
        },
    }
}

/// The program without its notification.
pub open spec fn without_notification(app: App) -> App {
    App { notification: None, ..app }
}

/// A key, handed to the page that is shown.
pub fn handle_key_events(key: KeyPress, app: &mut App) -> (reaction: Reaction)
    ensures
        key_holds(old(app), final(app), key, &reaction),
        final(app).should_quit == (old(app).should_quit || reaction_quits(old(app), key)),
        reaction_quits(old(app), key) ==> reaction.save_draft,
{
    match app.current_page {
        CurrentPage::Schedule => handle_schedule_input(key, app),
        CurrentPage::Dashboard => handle_dashboard_events(key, app),
        CurrentPage::Scheduled => handle_scheduled_events(key, app),
        _ => handle_standard_events(key, app),
    }
}

/// Whether a key ends the program: it is `q`, typed in normal mode while
/// no detail view is open.
pub open spec fn reaction_quits(before: &App, key: KeyPress) -> bool {
    &&& key.code == KeyCode::Char('q')
    &&& before.input_mode == InputMode::Normal
    &&& before.current_page == CurrentPage::Dashboard ==> before.dashboard.selected_summary_id
        is None
    &&& before.current_page == CurrentPage::Scheduled ==> before.scheduled.selected_job_id
        is None
}

// ---------------------------------------------------------------------
// Answers
// ---------------------------------------------------------------------

/// The openings that remain when those of one tracking token are
/// deleted, in order.
pub open spec fn without_token(logs: Seq<LogEntry>, id: Seq<char>) -> Seq<LogEntry>
    decreases logs.len(),
{
    if logs.len() == 0 {
        Seq::empty()
    } else {
        let before = without_token(logs.drop_last(), id);
        if logs.last().tracking_id@ == id {
            before
        } else {
            before.push(logs.last())
        }
    }
}

/// The jobs that remain when the one with this id is cancelled, in order.
pub open spec fn without_job(jobs: Seq<ScheduledJob>, id: Seq<char>) -> Seq<ScheduledJob>
    decreases jobs.len(),
{
    if jobs.len() == 0 {
        Seq::empty()
    } else {
        let before = without_job(jobs.drop_last(), id);
        if jobs.last().id@ == id {
            before
        } else {
            before.push(jobs.last())
        }
    }
}

/// The attachment text after files were picked: the paths follow what was
/// there, each after `"; "`.
pub open spec fn with_picked(input: Seq<char>, paths: Seq<Seq<char>>) -> Seq<char> {
    if input.len() == 0 {
        joined(paths, "; "@)
    } else {
        input + "; "@ + joined(paths, "; "@)
    }
}

/// The notification that an action leaves, if it leaves one.
pub open spec fn note_of(action: Action) -> Option<NoteView> {
    match action {
        Action::RenderTick => None,
        Action::EmailSent => Some(NoteView::Success("Email sent successfully!"@)),
        Action::EmailFailed(reason) => Some(NoteView::Error("Sending failed: "@ + reason@)),
        Action::LogsFetched(_) => Some(NoteView::Success("Logs updated"@)),
        Action::LogsFailed(reason) => Some(NoteView::Error("Fetch failed: "@ + reason@)),
        Action::FiltersFetched(_) => None,
        Action::FiltersFailed(reason) => Some(NoteView::Error("Filters failed: "@ + reason@)),
        Action::LogsDeleted(_) => Some(NoteView::Success("Logs deleted"@)),
        Action::JobsFetched(_) => Some(NoteView::Success("Jobs updated"@)),
        Action::JobsFailed(reason) => Some(NoteView::Error("Fetch failed: "@ + reason@)),
        Action::JobCancelled(_) => Some(NoteView::Success("Job cancelled"@)),
        Action::JobActionFailed(reason) => Some(NoteView::Error(reason@)),
        Action::BodyEdited(_) => None,
        Action::EditorFailed(reason) => Some(NoteView::Error("Editor error: "@ + reason@)),
        Action::FilesPicked(paths) => Some(
            NoteView::Success(
                "Added "@ + crate::text::decimal_text(paths@.len()) + " files"@,
            ),
        ),
        Action::ConfigSaved => Some(NoteView::Success("Config saved"@)),
        Action::ConfigSaveFailed(reason) => Some(NoteView::Error(reason@)),
        Action::JobDownloaded(folder) => Some(
            NoteView::Success("Downloaded to Downloads/"@ + folder@),
        ),
        Action::DownloadFailed(reason) => Some(NoteView::Error("FS Error: "@ + reason@)),
    }
}

/// What holds after an action was taken in.
pub open spec fn action_holds(before: &App, after: &App, action: Action, save_draft: bool) -> bool {
    &&& save_draft == (action is BodyEdited)
    &&& match note_of(action) {
        Some(note) => shows(after, note),
        None => after.notification == before.notification,
    }
    &&& after.should_quit == before.should_quit
    &&& after.input_mode == before.input_mode
    &&& after.current_page == before.current_page
    &&& after.config == before.config
    &&& after.schedule == before.schedule
    &&& after.dashboard.logs@ == match action {
        Action::LogsFetched(logs) => logs@,
        Action::LogsDeleted(id) => without_token(before.dashboard.logs@, id@),
        _ => before.dashboard.logs@,
    }
    &&& after.dashboard.filter_options == match action {
        Action::FiltersFetched(options) => options,
        _ => before.dashboard.filter_options,
    }
    &&& after.dashboard.selected_summary_id == if action is LogsDeleted {
        None
    } else {
        before.dashboard.selected_summary_id
    }
    &&& after.scheduled.jobs@ == match action {
        Action::JobsFetched(jobs) => jobs@,
        Action::JobCancelled(id) => without_job(before.scheduled.jobs@, id@),
        _ => before.scheduled.jobs@,
    }
    &&& after.compose.draft.body@ == match action {
        Action::BodyEdited(text) => text@,
        _ => before.compose.draft.body@,
    }
    &&& after.compose.attachment_input@ == match action {
        Action::FilesPicked(paths) => with_picked(
            before.compose.attachment_input@,
            texts(paths@),
        ),
        _ => before.compose.attachment_input@,
    }
    &&& after.compose.field == before.compose.field
    &&& after.compose.draft.recipient == before.compose.draft.recipient
    &&& after.compose.draft.subject == before.compose.draft.subject
    &&& after.compose.draft.attachments == before.compose.draft.attachments
    &&& after.compose.draft.scheduled_at == before.compose.draft.scheduled_at
    &&& after.compose.draft.schedule == before.compose.draft.schedule
    &&& after.dashboard.focus == before.dashboard.focus
    &&& after.dashboard.selected_row == before.dashboard.selected_row
    &&& after.dashboard.filter_recipient == before.dashboard.filter_recipient
    &&& after.dashboard.filter_country == before.dashboard.filter_country
    &&& after.dashboard.filter_min_opens == before.dashboard.filter_min_opens
    &&& after.scheduled.focus == before.scheduled.focus
    &&& after.scheduled.selected_row == before.scheduled.selected_row
    &&& after.scheduled.selected_job_id == before.scheduled.selected_job_id
    &&& after.scheduled.filter_recipient == before.scheduled.filter_recipient
    &&& after.scheduled.filter_status == before.scheduled.filter_status
}

fn drop_token(logs: Vec<LogEntry>, id: &str) -> (kept: Vec<LogEntry>)
    ensures
        kept@ == without_token(logs@, id@),
{
    let wanted = id.to_owned();
    let ghost all = logs@;
    let mut kept: Vec<LogEntry> = Vec::new();
    let ghost mut n: int = 0;
    proof {
        assert(all.take(0) =~= Seq::<LogEntry>::empty());
    }
    for log in it: logs
        invariant
            n == it.index(),
            all == it.seq(),
            wanted@ == id@,
            kept@ == without_token(all.take(n), id@),
    {
        proof {
            assert(all.take(n + 1).drop_last() =~= all.take(n));
            assert(all.take(n + 1).last() == log);
        }
        if log.tracking_id != wanted {
            kept.push(log);
        }
        proof {
            n = n + 1;
        }
    }
    proof {
        assert(all.take(n) =~= all);
    }
    kept
}

fn drop_job(jobs: Vec<ScheduledJob>, id: &str) -> (kept: Vec<ScheduledJob>)
    ensures
        kept@ == without_job(jobs@, id@),
{
    let wanted = id.to_owned();
    let ghost all = jobs@;
    let mut kept: Vec<ScheduledJob> = Vec::new();
    let ghost mut n: int = 0;
    proof {
        assert(all.take(0) =~= Seq::<ScheduledJob>::empty());
    }
    for job in it: jobs
        invariant
            n == it.index(),
            all == it.seq(),
            wanted@ == id@,
            kept@ == without_job(all.take(n), id@),
    {
        proof {
            assert(all.take(n + 1).drop_last() =~= all.take(n));
            assert(all.take(n + 1).last() == job);
        }
        if job.id != wanted {
            kept.push(job);
        }
        proof {
            n = n + 1;
        }
    }
    proof {
        assert(all.take(n) =~= all);
    }
    kept
}

/// Takes in what came of an effect. The answer says whether the draft
/// has to be saved.
pub fn apply_action(app: &mut App, action: Action) -> (save_draft: bool)
    ensures
        action_holds(old(app), final(app), action, save_draft),
{
    match action {
        Action::RenderTick => false,
        Action::EmailSent => {
            app.set_notification(success("Email sent successfully!"));
            false
        },
        Action::EmailFailed(reason) => {
            app.set_notification(failure("Sending failed: ", reason.as_str()));
            false
        },
        Action::LogsFetched(logs) => {
            app.dashboard.logs = logs;
            app.set_notification(success("Logs updated"));
            false
        },
        Action::LogsFailed(reason) => {
            app.set_notification(failure("Fetch failed: ", reason.as_str()));
            false
        },
        Action::FiltersFetched(options) => {
            app.dashboard.filter_options = options;
            false
        },
        Action::FiltersFailed(reason) => {
            app.set_notification(failure("Filters failed: ", reason.as_str()));
            false
        },
        Action::LogsDeleted(id) => {
            let mut logs: Vec<LogEntry> = Vec::new();
            std::mem::swap(&mut logs, &mut app.dashboard.logs);
            app.dashboard.logs = drop_token(logs, id.as_str());
            app.dashboard.selected_summary_id = None;
            app.set_notification(success("Logs deleted"));
            false
        },
        Action::JobsFetched(jobs) => {
            app.scheduled.jobs = jobs;
            app.set_notification(success("Jobs updated"));
            false
        },
        Action::JobsFailed(reason) => {
            app.set_notification(failure("Fetch failed: ", reason.as_str()));
            false
        },
        Action::JobCancelled(id) => {
            let mut jobs: Vec<ScheduledJob> = Vec::new();
            std::mem::swap(&mut jobs, &mut app.scheduled.jobs);
            app.scheduled.jobs = drop_job(jobs, id.as_str());
            app.set_notification(success("Job cancelled"));
            false
        },
        Action::JobActionFailed(reason) => {
            app.set_notification(Notification::Error(reason));
            false
        },
        Action::BodyEdited(text) => {
            app.compose.draft.body = text;
            true
        },
        Action::EditorFailed(reason) => {
            app.set_notification(failure("Editor error: ", reason.as_str()));
            false
        },
        Action::FilesPicked(paths) => {
            if !app.compose.attachment_input.as_str().is_empty() {
                app.compose.attachment_input.append("; ");
            }
            let picked = join(&paths, "; ");
            app.compose.attachment_input.append(picked.as_str());
            let count = crate::text::zero_pad(paths.len() as u64, 0);
            let mut text = String::from_str("Added ");
            text.append(count.as_str());
            text.append(" files");
            proof {
                assert(crate::text::zero_padded(paths@.len(), 0) =~= crate::text::decimal_text(
                    paths@.len(),
                ));
                assert(texts(paths@).len() == paths@.len());
                if old(app).compose.attachment_input@.len() == 0 {
                    assert(old(app).compose.attachment_input@ + picked@ =~= picked@);
                }
            }
            app.set_notification(Notification::Success(text));
            false
        },
        Action::ConfigSaved => {
            app.set_notification(success("Config saved"));
            false
        },
        Action::ConfigSaveFailed(reason) => {
            app.set_notification(Notification::Error(reason));
            false
        },
        Action::JobDownloaded(folder) => {
            let mut text = String::from_str("Downloaded to Downloads/");
            text.append(folder.as_str());
            app.set_notification(Notification::Success(text));
            false
        },
        Action::DownloadFailed(reason) => {
            app.set_notification(failure("FS Error: ", reason.as_str()));
            false
        },
    }
}

/// The editors to try, in order: what `VISUAL` names, what `EDITOR`
/// names, then the usual ones of the platform.
pub open spec fn editor_candidates_of(
    visual: Option<Seq<char>>,
    editor: Option<Seq<char>>,
    windows: bool,
) -> Seq<Seq<char>> {
    (match visual {
        Some(name) => seq![name],
        None => Seq::empty(),
    }) + (match editor {
        Some(name) => seq![name],
        None => Seq::empty(),
    }) + (if windows {
        seq!["notepad.exe"@, "code.cmd"@]
    } else {
        seq!["nano"@, "vim"@, "vi"@, "editor"@, "xdg-open"@]
    })
}

/// Lists the editors to try, in order. The first that runs and ends well
/// is the one whose text is taken.
pub fn editor_candidates(visual: Option<String>, editor: Option<String>, windows: bool) -> (names:
    Vec<String>)
    ensures
        texts(names@) == editor_candidates_of(
            match visual {
                Some(name) => Some(name@),
                None => None,
            },
            match editor {
                Some(name) => Some(name@),
                None => None,
            },
            windows,
        ),
{
    let mut names: Vec<String> = Vec::new();
    match visual {
        Some(name) => names.push(name),
        None => {},
    }
    match editor {
        Some(name) => names.push(name),
        None => {},
    }
    if windows {
        names.push(String::from_str("notepad.exe"));
        names.push(String::from_str("code.cmd"));
    } else {
        names.push(String::from_str("nano"));
        names.push(String::from_str("vim"));
        names.push(String::from_str("vi"));
        names.push(String::from_str("editor"));
        names.push(String::from_str("xdg-open"));
    }
    assert(texts(names@) =~= editor_candidates_of(
        match visual {
            Some(name) => Some(name@),
            None => None,
        },
        match editor {
            Some(name) => Some(name@),
            None => None,
        },
        windows,
    ));
    names
}

/// How the run of one editor ended.
#[derive(Debug, Clone, Copy, PartialEq, Eq, Structural)]
pub enum EditorRun {
    /// It ran and ended well.
    Succeeded,
    /// It ran and ended badly.
    Failed,
    /// It could not be started.
    NotStarted,
}

/// What to do next while the body is edited outside the program.
#[derive(Debug, Clone, Copy, PartialEq, Eq, Structural)]
pub enum EditorStep {
    /// Run the candidate at this place of the list.
    Run(usize),
    /// Take the text that the editor left.
    TakeText,
    /// No candidate is left: the editing has failed.
    GiveUp,
}

/// The step that follows: at the start the first candidate is run; after
/// a run that ended well the text is taken; after any other run the next
/// candidate is run; and with no candidate left the editing is given up.
pub open spec fn editor_step_of(count: usize, tried: Option<(usize, EditorRun)>) -> EditorStep {
    match tried {
        None => if count > 0 {
            EditorStep::Run(0)
        } else {
            EditorStep::GiveUp
        },
        Some((index, run)) => if run == EditorRun::Succeeded {
            EditorStep::TakeText
        } else if index + 1 < count {
            EditorStep::Run((index + 1) as usize)
        } else {
            EditorStep::GiveUp
        },
    }
}

/// Decides what to do next about the editing of the body: `count` is the
/// number of candidates, and `tried` holds the place of the candidate that
/// was run last and how that run ended, or nothing at the start. A
/// candidate that is to be run is one of the list.
pub fn next_editor_step(count: usize, tried: Option<(usize, EditorRun)>) -> (step: EditorStep)
    ensures
        step == editor_step_of(count, tried),
        step matches EditorStep::Run(index) ==> index < count,
{
    match tried {
        None => if count > 0 {
            EditorStep::Run(0)
        } else {
            EditorStep::GiveUp
        },
        Some((index, run)) => match run {
            EditorRun::Succeeded => EditorStep::TakeText,
            _ => if count > 0 && index < count - 1 {
                EditorStep::Run(index + 1)
            } else {
                EditorStep::GiveUp
            },
        },
    }
}

/// The candidate whose text is taken when the candidates are run in order
/// and end as `runs` says: the first that ends well.
pub open spec fn first_success(runs: Seq<EditorRun>) -> Option<int>
    decreases runs.len(),
{
    if runs.len() == 0 {
        None
    } else if first_success(runs.drop_last()) is Some {
        first_success(runs.drop_last())
    } else if runs.last() == EditorRun::Succeeded {
        Some(runs.len() - 1)
    } else {
        None
    }
}

/// Whether following the steps from candidate `index` on, with the runs
/// ending as `runs` says, leads to the text of candidate `winner`, or to
/// giving up where there is none.
pub open spec fn steps_lead_to(runs: Seq<EditorRun>, index: int, winner: Option<int>) -> bool
    decreases runs.len() - index,
{
    if 0 <= index < runs.len() && runs.len() <= usize::MAX {
        match editor_step_of(runs.len() as usize, Some((index as usize, runs[index]))) {
            EditorStep::TakeText => winner == Some(index),
            EditorStep::Run(next) => next == index + 1 && steps_lead_to(runs, next as int, winner),
            EditorStep::GiveUp => winner is None,
        }
    } else {
        false
    }
}

/// The steps try the candidates in order and take the text of the first
/// that ends well; they give up exactly if none does.
pub proof fn lemma_first_success_wins(runs: Seq<EditorRun>, index: int)
    requires
        0 <= index < runs.len() <= usize::MAX,
        first_success(runs.take(index)) is None,
    ensures
        steps_lead_to(runs, index, first_success(runs)),
    decreases runs.len() - index,
{
    assert(runs.take(index + 1).drop_last() =~= runs.take(index));
    if runs[index] == EditorRun::Succeeded {
        lemma_first_success_extends(runs, index + 1);
    } else if index + 1 < runs.len() {
        lemma_first_success_wins(runs, index + 1);
    } else {
        assert(runs.take(index + 1) =~= runs);
    }
}

/// A candidate that ends well before place `upto` is the first of the
/// whole list to do so.
proof fn lemma_first_success_extends(runs: Seq<EditorRun>, upto: int)
    requires
        0 <= upto <= runs.len(),
        first_success(runs.take(upto)) is Some,
    ensures
        first_success(runs) == first_success(runs.take(upto)),
    decreases runs.len() - upto,
{
    if upto < runs.len() {
        assert(runs.take(upto + 1).drop_last() =~= runs.take(upto));
        lemma_first_success_extends(runs, upto + 1);
    } else {
        assert(runs.take(upto) =~= runs);
    }
}

/// A key press as the program meets it: the notification that is shown
/// goes away, then the key is handled.
pub fn press(key: KeyPress, app: &mut App) -> (reaction: Reaction)
    ensures
        key_holds(&without_notification(*old(app)), final(app), key, &reaction),
        final(app).should_quit == (old(app).should_quit || reaction_quits(old(app), key)),
        reaction_quits(old(app), key) ==> reaction.save_draft,
{
    if app.notification.is_some() {
        app.clear_notification();
    }
    handle_key_events(key, app)
}

} // verus!
