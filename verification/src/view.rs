//! What the pages show that takes computing: which rows fit, how long
//! ago something happened, how an offset is written.

use vstd::prelude::*;
use vstd::string::*;
use crate::enums::{ComposeField, CurrentPage, InputMode, JobStatus};
use crate::text::{
    byte_len, contains, decimal_text, has_substring, texts, utf8_len, zero_pad, zero_padded,
};
use crate::tracker::{decode_token_or_empty, token_text_or_empty};

verus! {

// ---------------------------------------------------------------------
// Rows
// ---------------------------------------------------------------------

/// The height of one setting of the configuration page, in rows.
pub const ITEM_HEIGHT: u16 = 3;

/// The number of settings that fit into `height` rows: at least one.
pub open spec fn visible_items_of(height: u16) -> nat {
    if height / ITEM_HEIGHT >= 1 {
        (height / ITEM_HEIGHT) as nat
    } else {
        1
    }
}

/// Counts the settings that fit into `height` rows.
pub fn visible_items(height: u16) -> (count: usize)
    ensures
        count == visible_items_of(height),
        count >= 1,
{
    let fit = height / ITEM_HEIGHT;
    if fit >= 1 {
        fit as usize
    } else {
        1
    }
}

/// The first item shown of `total` items when `visible` fit and the
/// item `selected` is to stand in the middle where it can.
pub open spec fn window_start(total: nat, selected: nat, visible: nat) -> nat {
    let centred = if selected < visible / 2 {
        0
    } else {
        (selected - visible / 2) as nat
    };
    if centred + visible > total {
        if total >= visible {
            (total - visible) as nat
        } else {
            0
        }
    } else {
        centred
    }
}

/// The item after the last one shown.
pub open spec fn window_end(total: nat, selected: nat, visible: nat) -> nat {
    let start = window_start(total, selected, visible);
    if start + visible < total {
        start + visible
    } else {
        total
    }
}

/// Chooses the items to show: those from the first of the pair up to, but
/// without, the second.
pub fn window(total: usize, selected: usize, visible: usize) -> (shown: (usize, usize))
    ensures
        shown.0 == window_start(total as nat, selected as nat, visible as nat),
        shown.1 == window_end(total as nat, selected as nat, visible as nat),
{
    let centred = if selected < visible / 2 {
        0
    } else {
        selected - visible / 2
    };
    let start = if visible > total || centred > total - visible {
        total.saturating_sub(visible)
    } else {
        centred
    };
    let end = if visible >= total - start {
        total
    } else {
        start + visible
    };
    (start, end)
}

/// The window lies within the list, holds no more items than fit, as
/// many as fit where the list has them, and holds the selected item if
/// there is such an item and anything fits.
pub proof fn lemma_window_holds_selection(total: nat, selected: nat, visible: nat)
    ensures
        window_start(total, selected, visible) <= window_end(total, selected, visible) <= total,
        window_end(total, selected, visible) - window_start(total, selected, visible) <= visible,
        total >= visible ==> window_end(total, selected, visible) - window_start(
            total,
            selected,
            visible,
        ) == visible,
        selected < total && visible >= 1 ==> window_start(total, selected, visible) <= selected
            < window_end(total, selected, visible),
{
}

/// How a stretch of cells is cut in three for a popup in its middle.
#[derive(Debug, Clone, Copy, PartialEq, Eq, Structural)]
pub enum PopupCut {
    /// Three shares, in percent of the stretch.
    Shares(u16, u16, u16),
    /// Three runs of cells.
    Cells(u16, u16, u16),
}

/// The cut for a popup of `size` in a stretch of `extent` cells. A size
/// below 100 is a share in percent, with what is left halved around it;
/// any other size is a number of cells, with half of what the stretch has
/// more on either side.
pub open spec fn popup_cut_of(size: u16, extent: u16) -> PopupCut {
    if size < 100 {
        PopupCut::Shares(((100 - size) / 2) as u16, size, ((100 - size) / 2) as u16)
    } else {
        let gap = if extent > size {
            ((extent - size) / 2) as u16
        } else {
            0
        };
        PopupCut::Cells(gap, size, gap)
    }
}

/// Cuts a stretch of cells for a popup in its middle.
pub fn popup_cut(size: u16, extent: u16) -> (cut: PopupCut)
    ensures
        cut == popup_cut_of(size, extent),
{
    if size < 100 {
        PopupCut::Shares((100 - size) / 2, size, (100 - size) / 2)
    } else {
        let gap = extent.saturating_sub(size) / 2;
        PopupCut::Cells(gap, size, gap)
    }
}

/// What a field looks like.
#[derive(Debug, Clone, Copy, PartialEq, Eq, Structural)]
pub enum Tone {
    /// The field is being edited.
    Editing,
    /// The field has the focus.
    Focused,
    /// The field has no focus.
    Idle,
}

/// Says what a field looks like: edited or focused if it is the current
/// one, as the mode has it, and idle if not.
pub fn field_tone(is_current: bool, mode: InputMode) -> (tone: Tone)
    ensures
        tone == if !is_current {
            Tone::Idle
        } else if mode == InputMode::Editing {
            Tone::Editing
        } else {
            Tone::Focused
        },
{
    if !is_current {
        Tone::Idle
    } else {
        match mode {
            InputMode::Editing => Tone::Editing,
            InputMode::Normal => Tone::Focused,
        }
    }
}

/// What is shown of a setting: the setting itself, or one star for each
/// of its bytes if it is a secret.
pub open spec fn masked_of(value: Seq<char>, secure: bool) -> Seq<char> {
    if secure && value.len() > 0 {
        Seq::new(utf8_len(value), |i: int| '*')
    } else {
        value
    }
}

/// Hides a secret behind stars.
pub fn masked(value: &str, secure: bool) -> (shown: String)
    ensures
        shown@ == masked_of(value@, secure),
{
    if secure && !value.is_empty() {
        let len = byte_len(value);
        let mut shown = String::new();
        let mut i: usize = 0;
        while i < len
            invariant
                i <= len,
                shown@ == Seq::new(i as nat, |k: int| '*'),
            decreases len - i,
        {
            shown.push('*');
            assert(shown@ =~= Seq::new((i + 1) as nat, |k: int| '*'));
            i += 1;
        }
        shown
    } else {
        value.to_owned()
    }
}

// ---------------------------------------------------------------------
// Numbers and times
// ---------------------------------------------------------------------

/// The quotient of a division that rounds towards zero.
pub open spec fn truncated(n: int, by: int) -> int {
    if n < 0 {
        -((-n) / by)
    } else {
        n / by
    }
}

/// A whole number in decimal digits, with `-` in front if it is negative.
pub open spec fn signed_text_of(n: int) -> Seq<char> {
    if n < 0 {
        seq!['-'] + decimal_text((-n) as nat)
    } else {
        decimal_text(n as nat)
    }
}

/// A whole number in at least two characters: a negative one has its
/// sign, any other a zero in front where it has one digit only.
pub open spec fn two_wide_of(n: int) -> Seq<char> {
    if n < 0 {
        seq!['-'] + decimal_text((-n) as nat)
    } else {
        zero_padded(n as nat, 2)
    }
}

/// The distance of a number from zero.
pub fn magnitude(n: i64) -> (distance: u64)
    ensures
        distance == if n < 0 {
            -(n as int)
        } else {
            n as int
        },
{
    if n < 0 {
        (0 - (n as i128)) as u64
    } else {
        n as u64
    }
}

fn signed_text(negative: bool, distance: u64) -> (text: String)
    ensures
        text@ == if negative && distance > 0 {
            seq!['-'] + decimal_text(distance as nat)
        } else {
            decimal_text(distance as nat)
        },
{
    let digits = zero_pad(distance, 0);
    assert(zero_padded(distance as nat, 0) =~= decimal_text(distance as nat));
    if negative && distance > 0 {
        let mut text = String::new();
        text.push('-');
        text.append(digits.as_str());
        assert(text@ =~= seq!['-'] + digits@);
        text
    } else {
        digits
    }
}

/// How long ago something happened that lies `seconds` back: in minutes
/// below an hour, in hours below a day, else in days, each rounded
/// towards zero.
pub open spec fn time_ago_of(seconds: int) -> Seq<char> {
    if truncated(seconds, 60) < 60 {
        signed_text_of(truncated(seconds, 60)) + "m ago"@
    } else if truncated(seconds, 3600) < 24 {
        signed_text_of(truncated(seconds, 3600)) + "h ago"@
    } else {
        signed_text_of(truncated(seconds, 86400)) + "d ago"@
    }
}

/// Says how long ago something happened that lies `seconds` back.
pub fn time_ago(seconds: i64) -> (text: String)
    ensures
        text@ == time_ago_of(seconds as int),
{
    let negative = seconds < 0;
    let distance = magnitude(seconds);
    let minutes = distance / 60;
    if negative || minutes < 60 {
        let mut text = signed_text(negative, minutes);
        text.append("m ago");
        text
    } else if distance / 3600 < 24 {
        let mut text = signed_text(false, distance / 3600);
        text.append("h ago");
        text
    } else {
        let mut text = signed_text(false, distance / 86400);
        text.append("d ago");
        text
    }
}

/// An offset from UTC in hours and minutes, as in `UTC+05:30`.
pub open spec fn offset_label_of(seconds: int) -> Seq<char> {
    let distance = if seconds < 0 {
        -seconds
    } else {
        seconds
    };
    "UTC"@ + (if seconds >= 0 {
        "+"@
    } else {
        "-"@
    }) + zero_padded((distance / 3600) as nat, 2) + ":"@ + zero_padded(
        ((distance % 3600) / 60) as nat,
        2,
    )
}

/// Writes an offset from UTC.
pub fn offset_label(seconds: i64) -> (text: String)
    ensures
        text@ == offset_label_of(seconds as int),
{
    let distance = magnitude(seconds);
    let mut text = String::from_str("UTC");
    if seconds >= 0 {
        text.append("+");
    } else {
        text.append("-");
    }
    text.append(zero_pad(distance / 3600, 2).as_str());
    text.append(":");
    text.append(zero_pad((distance % 3600) / 60, 2).as_str());
    text
}

/// The time from now until an instant that lies `seconds` ahead, in hours
/// and minutes, as in `+02h 30m`. A time in the past has negative hours.
pub open spec fn difference_label_of(seconds: int) -> Seq<char> {
    let distance = if seconds < 0 {
        -seconds
    } else {
        seconds
    };
    let hours = truncated(seconds, 3600);
    (if hours >= 0 {
        "+"@
    } else {
        Seq::empty()
    }) + two_wide_of(hours) + "h "@ + zero_padded(((distance / 60) % 60) as nat, 2) + "m"@
}

/// Writes the time from now until an instant that lies `seconds` ahead.
pub fn difference_label(seconds: i64) -> (text: String)
    ensures
        text@ == difference_label_of(seconds as int),
{
    let negative = seconds < 0;
    let distance = magnitude(seconds);
    let hours = distance / 3600;
    let mut text = String::new();
    if negative && hours > 0 {
        text.push('-');
        text.append(zero_pad(hours, 0).as_str());
        proof {
            assert(zero_padded(hours as nat, 0) =~= decimal_text(hours as nat));
            assert(text@ =~= Seq::<char>::empty() + (seq!['-'] + decimal_text(hours as nat)));
        }
    } else {
        text.push('+');
        text.append(zero_pad(hours, 2).as_str());
        proof {
            reveal_strlit("+");
            assert(text@ =~= "+"@ + zero_padded(hours as nat, 2));
        }
    }
    text.append("h ");
    text.append(zero_pad((distance / 60) % 60, 2).as_str());
    text.append("m");
    text
}

// ---------------------------------------------------------------------
// Labels
// ---------------------------------------------------------------------

/// The tab that is lit for a page. The schedule dialog belongs to the
/// compose page.
pub fn tab_index(page: CurrentPage) -> (tab: usize)
    ensures
        tab == match page {
            CurrentPage::Compose => 0int,
            CurrentPage::Config => 1,
            CurrentPage::Dashboard => 2,
            CurrentPage::Schedule => 0,
            CurrentPage::Scheduled => 3,
        },
{
    match page {
        CurrentPage::Compose => 0,
        CurrentPage::Config => 1,
        CurrentPage::Dashboard => 2,
        CurrentPage::Schedule => 0,
        CurrentPage::Scheduled => 3,
    }
}

/// The name of a status filter.
pub fn status_filter_label(filter: Option<JobStatus>) -> (label: &'static str)
    ensures
        label@ == match filter {
            None => "ALL"@,
            Some(JobStatus::Pending) => "PENDING"@,
            Some(JobStatus::Sent) => "SENT"@,
            Some(JobStatus::Failed) => "FAILED"@,
        },
{
    match filter {
        None => "ALL",
        Some(JobStatus::Pending) => "PENDING",
        Some(JobStatus::Sent) => "SENT",
        Some(JobStatus::Failed) => "FAILED",
    }
}

/// The name of a status.
pub fn status_label(status: JobStatus) -> (label: &'static str)
    ensures
        label@ == match status {
            JobStatus::Pending => "Pending"@,
            JobStatus::Sent => "Sent"@,
            JobStatus::Failed => "Failed"@,
        },
{
    match status {
        JobStatus::Pending => "Pending",
        JobStatus::Sent => "Sent",
        JobStatus::Failed => "Failed",
    }
}

/// The help that the status bar shows while there is no notification.
pub open spec fn help_of(mode: InputMode, page: CurrentPage, field: ComposeField) -> Seq<char> {
    match mode {
        InputMode::Editing => " Editing Mode: [Esc] Finish Editing"@,
        InputMode::Normal => " [Tab] Next | [Enter] Edit | [Ctrl+Enter] Send | [1/2/3] Nav | [q] Quit"@
            + (if page == CurrentPage::Compose && field == ComposeField::Attachments {
            " | [Ctrl+o] Browse Files | [Ctrl+x] Clear"@
        } else {
            Seq::empty()
        }),
    }
}

/// Writes the help for the status bar.
pub fn help(mode: InputMode, page: CurrentPage, field: ComposeField) -> (text: String)
    ensures
        text@ == help_of(mode, page, field),
{
    match mode {
        InputMode::Editing => String::from_str(" Editing Mode: [Esc] Finish Editing"),
        InputMode::Normal => {
            let mut text = String::from_str(
                " [Tab] Next | [Enter] Edit | [Ctrl+Enter] Send | [1/2/3] Nav | [q] Quit",
            );
            let on_attachments = match (page, field) {
                (CurrentPage::Compose, ComposeField::Attachments) => true,
                _ => false,
            };
            if on_attachments {
                text.append(" | [Ctrl+o] Browse Files | [Ctrl+x] Clear");
            } else {
                assert(text@ + Seq::<char>::empty() =~= text@);
            }
            text
        },
    }
}

/// The first of the tokens that holds `typed`, if one does.
pub open spec fn first_match(tokens: Seq<Seq<char>>, typed: Seq<char>) -> Option<Seq<char>>
    decreases tokens.len(),
{
    if tokens.len() == 0 {
        None
    } else if has_substring(tokens[0], typed) {
        Some(tokens[0])
    } else {
        first_match(tokens.drop_first(), typed)
    }
}

/// What the recipient filter shows: what was typed and, behind it in
/// brackets, the address of the first known token that holds it.
pub open spec fn recipient_hint_of(typed: Seq<char>, tokens: Seq<Seq<char>>) -> Seq<char> {
    if typed.len() == 0 {
        typed
    } else {
        match first_match(tokens, typed) {
            Some(token) => typed + " ("@ + token_text_or_empty(token) + ")"@,
            None => typed,
        }
    }
}

/// Completes the recipient filter with a hint.
pub fn recipient_hint(typed: &str, tokens: &Vec<String>) -> (shown: String)
    ensures
        shown@ == recipient_hint_of(typed@, texts(tokens@)),
{
    if typed.is_empty() {
        return typed.to_owned();
    }
    let ghost all = texts(tokens@);
    let mut i: usize = 0;
    proof {
        assert(all.skip(0) =~= all);
    }
    while i < tokens.len()
        invariant
            i <= tokens.len(),
            typed@.len() > 0,
            all == texts(tokens@),
            first_match(all, typed@) == first_match(all.skip(i as int), typed@),
        decreases tokens.len() - i,
    {
        proof {
            assert(all.skip(i as int)[0] == tokens@[i as int]@);
            assert(all.skip(i as int).drop_first() =~= all.skip(i + 1));
        }
        if contains(tokens[i].as_str(), typed) {
            let mut shown = typed.to_owned();
            shown.append(" (");
            shown.append(decode_token_or_empty(tokens[i].as_str()).as_str());
            shown.append(")");
            return shown;
        }
        i += 1;
    }
    typed.to_owned()
}

// ---------------------------------------------------------------------
// The zone list
// ---------------------------------------------------------------------

/// The number of zones that the schedule dialog lists at most.
pub const ZONE_ROWS: usize = 50;

/// What stands before the zone that is selected.
pub const SELECTED_MARK: &'static str = "> ";

/// What stands before any other zone.
pub const UNSELECTED_MARK: &'static str = "  ";

/// One row of the zone list.
#[derive(Debug)]
pub struct ZoneRow {
    /// The zone, behind its mark.
    pub text: String,
    pub selected: bool,
}

/// A row as a character sequence.
pub struct ZoneRowView {
    pub text: Seq<char>,
    pub selected: bool,
}

impl View for ZoneRow {
    type V = ZoneRowView;

    open spec fn view(&self) -> ZoneRowView {
        ZoneRowView { text: self.text@, selected: self.selected }
    }
}

/// The views of a list of rows.
pub open spec fn row_views(rows: Seq<ZoneRow>) -> Seq<ZoneRowView> {
    rows.map_values(|row: ZoneRow| row@)
}

/// The row of a zone: the zone behind `"> "` if it is selected, and
/// behind two blanks if not.
pub open spec fn zone_row_of(zone: Seq<char>, selected: bool) -> ZoneRowView {
    ZoneRowView {
        text: if selected {
            SELECTED_MARK@ + zone
        } else {
            UNSELECTED_MARK@ + zone
        },
        selected,
    }
}

/// The rows of the zone list: the first fifty of the zones, in order,
/// with the one at `selected` marked.
pub open spec fn zone_rows_of(zones: Seq<Seq<char>>, selected: nat) -> Seq<ZoneRowView> {
    Seq::new(
        if zones.len() < ZONE_ROWS {
            zones.len()
        } else {
            ZONE_ROWS as nat
        },
        |i: int| zone_row_of(zones[i], i == selected),
    )
}

/// Lays out the zone list of the schedule dialog.
pub fn zone_rows(zones: &Vec<String>, selected: usize) -> (rows: Vec<ZoneRow>)
    ensures
        row_views(rows@) == zone_rows_of(texts(zones@), selected as nat),
{
    let mut rows: Vec<ZoneRow> = Vec::new();
    let mut i: usize = 0;
    while i < zones.len() && i < ZONE_ROWS
        invariant
            i <= zones.len(),
            i <= ZONE_ROWS,
            rows@.len() == i,
            forall|k: int|
                0 <= k < i ==> (#[trigger] rows@[k])@ == zone_row_of(zones@[k]@, k == selected),
        decreases zones.len() - i,
    {
        let is_selected = i == selected;
        let mut text = if is_selected {
            SELECTED_MARK.to_owned()
        } else {
            UNSELECTED_MARK.to_owned()
        };
        text.append(zones[i].as_str());
        rows.push(ZoneRow { text, selected: is_selected });
        i += 1;
    }
    assert(row_views(rows@) =~= zone_rows_of(texts(zones@), selected as nat));
    rows
}

/// The zone list has at most fifty rows, marks the selected zone if it
/// is among them, and marks no other.
pub proof fn lemma_one_zone_is_marked(zones: Seq<Seq<char>>, selected: nat)
    ensures
        zone_rows_of(zones, selected).len() <= ZONE_ROWS,
        zone_rows_of(zones, selected).len() <= zones.len(),
        forall|i: int|
            0 <= i < zone_rows_of(zones, selected).len() ==> (#[trigger] zone_rows_of(
                zones,
                selected,
            )[i]).selected == (i == selected),
{
}

} // verus!
