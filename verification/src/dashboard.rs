//! The dashboard: the openings of tracked messages, gathered by recipient.
//!
//! Openings with the same tracking token form one summary. Within a
//! summary the newest opening comes first; the summaries come in the order
//! of their newest openings, latest first. Recipients with equally late
//! openings stay in the order in which the log first names them.

use vstd::prelude::*;
use vstd::string::*;
use crate::configuration::edited_text;
use crate::enums::DashboardFocus;
use crate::models::{FilterOptions, LogEntry};
use crate::scheduled::{row_above, row_below, step_down, step_up};
use crate::sorting::{
    is_strict_weak_order, lemma_sorted_is_ordered, lemma_sorted_is_rearranged, lemma_sorted_maps,
    precedence, sort_stable, stable_sorted, Ranked,
};
use crate::text::{
    contains, has_substring, is_text_less, lemma_bytes_order_carries_over,
    lemma_bytes_order_is_one_way, lowercase_of, numeric, parse_unsigned, parsed_unsigned,
    text_less, texts,
};
use crate::tracker::{decode_recipient, recipient_of};

verus! {

/// An instant: seconds since the Unix epoch, and nanoseconds into the
/// second.
#[derive(Debug, Clone, Copy, PartialEq, Eq, Structural)]
pub struct Instant {
    pub seconds: i64,
    pub nanos: u32,
}

/// Whether `a` is earlier than `b`.
pub open spec fn instant_less(a: Instant, b: Instant) -> bool {
    a.seconds < b.seconds || (a.seconds == b.seconds && a.nanos < b.nanos)
}

/// The instant that a text in the notation of RFC 3339 names, if it is in
/// that notation.
pub uninterp spec fn rfc3339_instant(text: Seq<char>) -> Option<Instant>;

/// `chrono::DateTime::parse_from_rfc3339`, the instant as seconds and
/// nanoseconds, `None` for its error. Not proved: that the outcome is a
/// function of the text.
#[verifier::external_body]
fn parse_rfc3339(text: &str) -> (at: Option<Instant>)
    ensures
        at == rfc3339_instant(text@),
{
    chrono::DateTime::parse_from_rfc3339(text).ok().map(
        |at| Instant { seconds: at.timestamp(), nanos: at.timestamp_subsec_nanos() },
    )
}

impl Ranked for LogEntry {
    /// An opening stands before those with a lesser timestamp.
    open spec fn before(&self, other: &Self) -> bool {
        text_less(other.timestamp@, self.timestamp@)
    }

    fn is_before(&self, other: &Self) -> (yes: bool) {
        is_text_less(other.timestamp.as_str(), self.timestamp.as_str())
    }
}

/// What is known of one recipient.
#[derive(Debug)]
pub struct RecipientSummary {
    pub tracking_id: String,
    /// The address that the tracking token decodes to.
    pub decoded_email: String,
    /// The country of the newest opening.
    pub country: String,
    pub open_count: usize,
    /// The instant of the newest opening.
    pub last_seen_raw: Instant,
    /// The openings, newest first.
    pub logs: Vec<LogEntry>,
}

/// A summary as sequences.
pub struct SummaryView {
    pub tracking_id: Seq<char>,
    pub decoded_email: Seq<char>,
    pub country: Seq<char>,
    pub open_count: usize,
    pub last_seen_raw: Instant,
    pub logs: Seq<LogEntry>,
}

impl View for RecipientSummary {
    type V = SummaryView;

    open spec fn view(&self) -> SummaryView {
        SummaryView {
            tracking_id: self.tracking_id@,
            decoded_email: self.decoded_email@,
            country: self.country@,
            open_count: self.open_count,
            last_seen_raw: self.last_seen_raw,
            logs: self.logs@,
        }
    }
}

impl Ranked for RecipientSummary {
    /// A summary stands before those last seen earlier.
    open spec fn before(&self, other: &Self) -> bool {
        instant_less(other.last_seen_raw, self.last_seen_raw)
    }

    fn is_before(&self, other: &Self) -> (yes: bool) {
        other.last_seen_raw.seconds < self.last_seen_raw.seconds || (other.last_seen_raw.seconds
            == self.last_seen_raw.seconds && other.last_seen_raw.nanos < self.last_seen_raw.nanos)
    }
}

/// The views of a list of summaries.
pub open spec fn summary_views(summaries: Seq<RecipientSummary>) -> Seq<SummaryView> {
    summaries.map_values(|summary: RecipientSummary| summary@)
}

/// The order of summaries: latest first.
pub open spec fn latest_first() -> spec_fn(SummaryView, SummaryView) -> bool {
    |a: SummaryView, b: SummaryView| instant_less(b.last_seen_raw, a.last_seen_raw)
}

// ---------------------------------------------------------------------
// What the summaries are
// ---------------------------------------------------------------------

/// The tracking tokens of the log, each once, in the order in which the
/// log first names them.
pub open spec fn tracking_ids(logs: Seq<LogEntry>) -> Seq<Seq<char>>
    decreases logs.len(),
{
    if logs.len() == 0 {
        Seq::empty()
    } else {
        let before = tracking_ids(logs.drop_last());
        if before.contains(logs.last().tracking_id@) {
            before
        } else {
            before.push(logs.last().tracking_id@)
        }
    }
}

/// The openings of one tracking token, in the order of the log.
pub open spec fn entries_of(logs: Seq<LogEntry>, id: Seq<char>) -> Seq<LogEntry>
    decreases logs.len(),
{
    if logs.len() == 0 {
        Seq::empty()
    } else {
        let before = entries_of(logs.drop_last(), id);
        if logs.last().tracking_id@ == id {
            before.push(logs.last())
        } else {
            before
        }
    }
}

/// The instant of an opening: what its timestamp names, or the epoch
/// where it names nothing.
pub open spec fn seen_at(timestamp: Seq<char>) -> Instant {
    match rfc3339_instant(timestamp) {
        Some(at) => at,
        None => Instant { seconds: 0, nanos: 0 },
    }
}

/// The summary of a recipient whose openings are `entries`, newest first.
pub open spec fn summary_of(id: Seq<char>, entries: Seq<LogEntry>) -> SummaryView {
    SummaryView {
        tracking_id: id,
        decoded_email: recipient_of(id),
        country: if entries.len() > 0 {
            entries[0].country@
        } else {
            Seq::empty()
        },
        open_count: entries.len() as usize,
        last_seen_raw: if entries.len() > 0 {
            seen_at(entries[0].timestamp@)
        } else {
            Instant { seconds: 0, nanos: 0 }
        },
        logs: entries,
    }
}

/// The filters of the dashboard.
pub struct Filters {
    pub recipient: Seq<char>,
    pub country: Seq<char>,
    pub min_opens: Seq<char>,
}

/// The least number of openings asked for: what the filter reads as a
/// number, and 0 where it does not.
pub open spec fn min_opens_of(filter: Seq<char>) -> nat {
    match parsed_unsigned(filter, usize::MAX as nat) {
        Some(count) => count,
        None => 0,
    }
}

/// Whether a summary passes the filters: it has the openings asked for,
/// its address holds the recipient filter, and its country holds the
/// country filter, case ignored.
pub open spec fn summary_passes(summary: SummaryView, filters: Filters) -> bool {
    &&& summary.logs.len() >= min_opens_of(filters.min_opens)
    &&& filters.recipient.len() == 0 || has_substring(summary.decoded_email, filters.recipient)
    &&& filters.country.len() == 0 || has_substring(
        lowercase_of(summary.country),
        lowercase_of(filters.country),
    )
}

/// The summary of one tracking token of the log.
pub open spec fn summary_for(logs: Seq<LogEntry>, id: Seq<char>) -> SummaryView {
    summary_of(id, stable_sorted(precedence::<LogEntry>(), entries_of(logs, id)))
}

/// The summaries of the given tracking tokens that pass the filters, in
/// the order of the tokens.
pub open spec fn passing_summaries(logs: Seq<LogEntry>, ids: Seq<Seq<char>>, filters: Filters) -> Seq<
    SummaryView,
>
    decreases ids.len(),
{
    if ids.len() == 0 {
        Seq::empty()
    } else {
        let before = passing_summaries(logs, ids.drop_last(), filters);
        let summary = summary_for(logs, ids.last());
        if summary_passes(summary, filters) {
            before.push(summary)
        } else {
            before
        }
    }
}

/// The summaries that the dashboard shows.
pub open spec fn aggregated(logs: Seq<LogEntry>, filters: Filters) -> Seq<SummaryView> {
    stable_sorted(latest_first(), passing_summaries(logs, tracking_ids(logs), filters))
}

/// The summaries that the dashboard shows stand latest first: none was
/// last seen later than one that stands before it.
pub proof fn lemma_summaries_are_latest_first(logs: Seq<LogEntry>, filters: Filters)
    ensures
        forall|i: int, j: int|
            #![trigger aggregated(logs, filters)[i], aggregated(logs, filters)[j]]
            0 <= i < j < aggregated(logs, filters).len() ==> !instant_less(
                aggregated(logs, filters)[i].last_seen_raw,
                aggregated(logs, filters)[j].last_seen_raw,
            ),
        aggregated(logs, filters).len() <= tracking_ids(logs).len(),
{
    let shown = passing_summaries(logs, tracking_ids(logs), filters);
    assert(is_strict_weak_order(latest_first()));
    lemma_sorted_is_ordered(latest_first(), shown);
    lemma_sorted_is_rearranged(latest_first(), shown);
    lemma_passing_summaries_are_few(logs, tracking_ids(logs), filters);
    let sorted = aggregated(logs, filters);
    assert forall|i: int, j: int| 0 <= i < j < sorted.len() implies !instant_less(
        sorted[i].last_seen_raw,
        sorted[j].last_seen_raw,
    ) by {
        assert(!latest_first()(sorted[j], sorted[i]));
    }
}

proof fn lemma_passing_summaries_are_few(logs: Seq<LogEntry>, ids: Seq<Seq<char>>, filters: Filters)
    ensures
        passing_summaries(logs, ids, filters).len() <= ids.len(),
    decreases ids.len(),
{
    if ids.len() > 0 {
        lemma_passing_summaries_are_few(logs, ids.drop_last(), filters);
    }
}

/// The openings of a summary stand newest first: none has a greater
/// timestamp than one that stands before it.
pub proof fn lemma_openings_are_newest_first(logs: Seq<LogEntry>, id: Seq<char>)
    ensures
        forall|i: int, j: int|
            #![trigger summary_for(logs, id).logs[i], summary_for(logs, id).logs[j]]
            0 <= i < j < summary_for(logs, id).logs.len() ==> !text_less(
                summary_for(logs, id).logs[i].timestamp@,
                summary_for(logs, id).logs[j].timestamp@,
            ),
        summary_for(logs, id).logs.len() == entries_of(logs, id).len(),
{
    let before = precedence::<LogEntry>();
    assert(is_strict_weak_order(before)) by {
        assert forall|a: LogEntry, b: LogEntry| #[trigger] before(a, b) implies !before(b, a) by {
            lemma_bytes_order_is_one_way(
                vstd::utf8::encode_utf8(a.timestamp@),
                vstd::utf8::encode_utf8(b.timestamp@),
            );
        }
        assert forall|a: LogEntry, b: LogEntry, c: LogEntry|
            !(#[trigger] before(a, b)) && !(#[trigger] before(b, c)) implies !before(a, c) by {
            lemma_bytes_order_carries_over(
                vstd::utf8::encode_utf8(c.timestamp@),
                vstd::utf8::encode_utf8(b.timestamp@),
                vstd::utf8::encode_utf8(a.timestamp@),
            );
        }
    }
    lemma_sorted_is_ordered(before, entries_of(logs, id));
    lemma_sorted_is_rearranged(before, entries_of(logs, id));
    let sorted = summary_for(logs, id).logs;
    assert forall|i: int, j: int| 0 <= i < j < sorted.len() implies !text_less(
        sorted[i].timestamp@,
        sorted[j].timestamp@,
    ) by {
        assert(!before(sorted[j], sorted[i]));
    }
}

proof fn lemma_unnamed_token_has_no_entries(logs: Seq<LogEntry>, id: Seq<char>)
    requires
        !tracking_ids(logs).contains(id),
    ensures
        entries_of(logs, id) == Seq::<LogEntry>::empty(),
    decreases logs.len(),
{
    if logs.len() > 0 {
        let before = tracking_ids(logs.drop_last());
        let last = logs.last().tracking_id@;
        if before.contains(last) {
            lemma_unnamed_token_has_no_entries(logs.drop_last(), id);
        } else {
            assert(before.push(last).last() == last);
            assert(last != id);
            assert forall|k: int| 0 <= k < before.len() implies before[k] != id by {
                assert(before.push(last)[k] == before[k]);
            }
            lemma_unnamed_token_has_no_entries(logs.drop_last(), id);
        }
    }
}

proof fn lemma_tracking_ids_are_distinct(logs: Seq<LogEntry>)
    ensures
        tracking_ids(logs).no_duplicates(),
    decreases logs.len(),
{
    if logs.len() > 0 {
        lemma_tracking_ids_are_distinct(logs.drop_last());
    }
}

// ---------------------------------------------------------------------
// Gathering them
// ---------------------------------------------------------------------

/// The openings of the log gathered by tracking token.
struct Groups {
    ids: Vec<String>,
    entries: Vec<Vec<LogEntry>>,
}

/// Gathers the openings by tracking token, the tokens in the order in
/// which the log first names them.
fn gather(logs: &Vec<LogEntry>) -> (groups: Groups)
    ensures
        texts(groups.ids@) == tracking_ids(logs@),
        groups.entries@.len() == groups.ids@.len(),
        forall|k: int|
            0 <= k < groups.ids@.len() ==> (#[trigger] groups.entries@[k])@ == entries_of(
                logs@,
                groups.ids@[k]@,
            ),
{
    let mut ids: Vec<String> = Vec::new();
    let mut entries: Vec<Vec<LogEntry>> = Vec::new();
    let mut i: usize = 0;
    proof {
        assert(logs@.take(0) =~= Seq::<LogEntry>::empty());
        assert(texts(ids@) =~= Seq::<Seq<char>>::empty());
    }
    while i < logs.len()
        invariant
            i <= logs.len(),
            texts(ids@) == tracking_ids(logs@.take(i as int)),
            entries@.len() == ids@.len(),
            forall|k: int|
                0 <= k < ids@.len() ==> (#[trigger] entries@[k])@ == entries_of(
                    logs@.take(i as int),
                    ids@[k]@,
                ),
        decreases logs.len() - i,
    {
        let ghost seen = logs@.take(i as int);
        let ghost next = logs@.take(i + 1);
        let ghost old_ids = ids@;
        let ghost old_entries = entries@;
        let log = &logs[i];
        proof {
            assert(next.drop_last() =~= seen);
            assert(next.last() == *log);
            lemma_tracking_ids_are_distinct(seen);
        }
        let mut j: usize = 0;
        while j < ids.len() && ids[j] != log.tracking_id
            invariant
                j <= ids@.len(),
                forall|k: int| 0 <= k < j ==> ids@[k]@ != log.tracking_id@,
            decreases ids.len() - j,
        {
            j += 1;
        }
        if j < ids.len() {
            proof {
                assert(texts(ids@)[j as int] == log.tracking_id@);
                assert(tracking_ids(seen).contains(log.tracking_id@));
            }
            entries[j].push(log.copy());
            proof {
                assert forall|k: int| 0 <= k < ids@.len() implies (#[trigger] entries@[k])@
                    == entries_of(next, ids@[k]@) by {
                    if k != j {
                        assert(entries@[k] == old_entries[k]);
                        assert(texts(ids@)[k] != texts(ids@)[j as int]);
                    }
                }
            }
        } else {
            proof {
                assert forall|k: int| 0 <= k < texts(ids@).len() implies texts(ids@)[k]
                    != log.tracking_id@ by {
                    assert(texts(ids@)[k] == ids@[k]@);
                }
                assert(!tracking_ids(seen).contains(log.tracking_id@));
                lemma_unnamed_token_has_no_entries(seen, log.tracking_id@);
            }
            let id = log.tracking_id.clone();
            let mut first: Vec<LogEntry> = Vec::new();
            first.push(log.copy());
            ids.push(id);
            entries.push(first);
            proof {
                assert(texts(ids@) =~= texts(old_ids).push(log.tracking_id@));
                assert forall|k: int| 0 <= k < ids@.len() implies (#[trigger] entries@[k])@
                    == entries_of(next, ids@[k]@) by {
                    if k < old_ids.len() {
                        assert(entries@[k] == old_entries[k]);
                        assert(ids@[k] == old_ids[k]);
                        assert(texts(old_ids)[k] == old_ids[k]@);
                    } else {
                        assert(entries@[k]@ =~= Seq::<LogEntry>::empty().push(*log));
                    }
                }
            }
        }
        i += 1;
    }
    proof {
        assert(logs@.take(logs.len() as int) =~= logs@);
    }
    Groups { ids, entries }
}

/// Summarises the openings of one recipient, which come newest first.
pub fn summarise(tracking_id: String, entries: Vec<LogEntry>) -> (summary: RecipientSummary)
    ensures
        summary@ == summary_of(tracking_id@, entries@),
{
    let decoded_email = decode_recipient(tracking_id.as_str());
    let (country, last_seen_raw) = if entries.len() > 0 {
        let newest = &entries[0];
        let at = match parse_rfc3339(newest.timestamp.as_str()) {
            Some(at) => at,
            None => Instant { seconds: 0, nanos: 0 },
        };
        (newest.country.clone(), at)
    } else {
        (String::new(), Instant { seconds: 0, nanos: 0 })
    };
    RecipientSummary {
        tracking_id,
        decoded_email,
        country,
        open_count: entries.len(),
        last_seen_raw,
        logs: entries,
    }
}

/// Reads the least number of openings from its filter.
pub fn min_opens(filter: &str) -> (count: usize)
    ensures
        count == min_opens_of(filter@),
{
    match parse_unsigned(filter, usize::MAX as u64) {
        Some(count) => count as usize,
        None => 0,
    }
}

/// Decides whether a summary passes the filters.
pub fn passes(
    summary: &RecipientSummary,
    least: usize,
    filter_recipient: &str,
    filter_country: &str,
) -> (yes: bool)
    ensures
        yes == (summary.logs@.len() >= least && (filter_recipient@.len() == 0 || has_substring(
            summary.decoded_email@,
            filter_recipient@,
        )) && (filter_country@.len() == 0 || has_substring(
            lowercase_of(summary.country@),
            lowercase_of(filter_country@),
        ))),
{
    if summary.logs.len() < least {
        return false;
    }
    if !filter_recipient.is_empty() && !contains(summary.decoded_email.as_str(), filter_recipient) {
        return false;
    }
    if !filter_country.is_empty() {
        let country = summary.country.as_str().to_lowercase();
        let wanted = filter_country.to_lowercase();
        if !contains(country.as_str(), wanted.as_str()) {
            return false;
        }
    }
    true
}

// ---------------------------------------------------------------------
// The page
// ---------------------------------------------------------------------

/// The state of the dashboard.
#[derive(Debug)]
pub struct DashboardState {
    pub logs: Vec<LogEntry>,
    pub focus: DashboardFocus,
    pub filter_recipient: String,
    pub filter_country: String,
    pub filter_min_opens: String,
    /// The row of the list that is highlighted.
    pub selected_row: Option<usize>,
    /// The tracking token of the summary whose details are shown, if any.
    pub selected_summary_id: Option<String>,
    pub filter_options: FilterOptions,
}

impl Default for DashboardState {
    /// An empty log without filters, with the recipient filter in focus.
    fn default() -> (state: DashboardState)
        ensures
            state.logs@.len() == 0,
            state.focus == DashboardFocus::FilterRecipient,
            state.filter_recipient@.len() == 0,
            state.filter_country@.len() == 0,
            state.filter_min_opens@.len() == 0,
            state.selected_row is None,
            state.selected_summary_id is None,
    {
        DashboardState {
            logs: Vec::new(),
            focus: DashboardFocus::FilterRecipient,
            filter_recipient: String::new(),
            filter_country: String::new(),
            filter_min_opens: String::new(),
            selected_row: None,
            selected_summary_id: None,
            filter_options: FilterOptions::default(),
        }
    }
}

impl DashboardState {
    /// The filters as sequences.
    pub open spec fn filters(&self) -> Filters {
        Filters {
            recipient: self.filter_recipient@,
            country: self.filter_country@,
            min_opens: self.filter_min_opens@,
        }
    }

    /// The summaries that the list shows.
    pub open spec fn shown(&self) -> Seq<SummaryView> {
        aggregated(self.logs@, self.filters())
    }

    /// Whether everything but the focus, the filters and the selection is
    /// as in `other`.
    pub open spec fn same_data(&self, other: &DashboardState) -> bool {
        &&& self.logs == other.logs
        &&& self.filter_options == other.filter_options
        &&& self.selected_summary_id == other.selected_summary_id
        &&& self.selected_row == other.selected_row
    }

    /// Whether `self` is `before` after one keystroke on the filter that
    /// has the focus: a character appended, or the last one erased. The
    /// filter for the number of openings takes numeric characters only;
    /// the list takes no keystroke, and nothing else changes.
    pub open spec fn edited_from(&self, before: &DashboardState, key: Option<char>) -> bool {
        &&& self.focus == before.focus
        &&& self.same_data(before)
        &&& self.filter_recipient@ == if before.focus == DashboardFocus::FilterRecipient {
            edited_text(before.filter_recipient@, key)
        } else {
            before.filter_recipient@
        }
        &&& self.filter_country@ == if before.focus == DashboardFocus::FilterCountry {
            edited_text(before.filter_country@, key)
        } else {
            before.filter_country@
        }
        &&& self.filter_min_opens@ == if before.focus == DashboardFocus::FilterMinOpens && (
        key matches Some(c) ==> numeric(c)) {
            edited_text(before.filter_min_opens@, key)
        } else {
            before.filter_min_opens@
        }
    }

    /// Moves the focus to the next element, or to the previous one. While
    /// a summary's details are shown the focus stays.
    pub fn cycle_focus(&mut self, forward: bool)
        ensures
            final(self).focus == if old(self).selected_summary_id is Some {
                old(self).focus
            } else if forward {
                old(self).focus.next()
            } else {
                old(self).focus.prev()
            },
            final(self).same_data(old(self)),
            final(self).filter_recipient == old(self).filter_recipient,
            final(self).filter_country == old(self).filter_country,
            final(self).filter_min_opens == old(self).filter_min_opens,
    {
        if self.selected_summary_id.is_some() {
            return;
        }
        self.focus = self.focus.step(forward);
    }

    /// Appends `c` to the filter that has the focus. The filter for the
    /// number of openings takes numeric characters only.
    pub fn handle_input(&mut self, c: char)
        ensures
            final(self).edited_from(old(self), Some(c)),
    {
        match self.focus {
            DashboardFocus::FilterRecipient => self.filter_recipient.push(c),
            DashboardFocus::FilterCountry => self.filter_country.push(c),
            DashboardFocus::FilterMinOpens => {
                if c.is_numeric() {
                    self.filter_min_opens.push(c)
                }
            },
            _ => {},
        }
    }

    /// Erases the last character of the filter that has the focus.
    pub fn handle_backspace(&mut self)
        ensures
            final(self).edited_from(old(self), None),
    {
        match self.focus {
            DashboardFocus::FilterRecipient => {
                let _ = self.filter_recipient.pop();
            },
            DashboardFocus::FilterCountry => {
                let _ = self.filter_country.pop();
            },
            DashboardFocus::FilterMinOpens => {
                let _ = self.filter_min_opens.pop();
            },
            _ => {},
        }
    }

    /// The summaries of the recipients that pass the filters, latest
    /// first.
    pub fn get_aggregated_logs(&self) -> (summaries: Vec<RecipientSummary>)
        ensures
            summary_views(summaries@) == self.shown(),
    {
        let groups = gather(&self.logs);
        let least = min_opens(self.filter_min_opens.as_str());
        let ids = groups.ids;
        let ghost all_ids = texts(ids@);
        let ghost all_entries = groups.entries@;
        let ghost filters = self.filters();
        let total = groups.entries.len();
        let mut passing: Vec<RecipientSummary> = Vec::new();
        let mut k: usize = 0;
        proof {
            assert(all_ids.take(0) =~= Seq::<Seq<char>>::empty());
        }
        for entries in it: groups.entries
            invariant
                k == it.index(),
                it.seq() == all_entries,
                all_entries.len() == total,
                total == ids@.len(),
                all_ids == texts(ids@),
                filters == self.filters(),
                least == min_opens_of(self.filter_min_opens@),
                forall|j: int|
                    0 <= j < ids@.len() ==> (#[trigger] all_entries[j])@ == entries_of(
                        self.logs@,
                        ids@[j]@,
                    ),
                summary_views(passing@) == passing_summaries(
                    self.logs@,
                    all_ids.take(k as int),
                    filters,
                ),
        {
            proof {
                assert(all_ids.take(k + 1).drop_last() =~= all_ids.take(k as int));
                assert(all_ids.take(k + 1).last() == ids@[k as int]@);
                assert(entries == all_entries[k as int]);
            }
            let sorted = sort_stable(entries);
            let summary = summarise(ids[k].clone(), sorted);
            assert(summary@ == summary_for(self.logs@, ids@[k as int]@));
            if passes(
                &summary,
                least,
                self.filter_recipient.as_str(),
                self.filter_country.as_str(),
            ) {
                let ghost before = passing@;
                passing.push(summary);
                assert(summary_views(passing@) =~= summary_views(before).push(summary@));
            }
            k += 1;
        }
        proof {
            assert(all_ids.take(k as int) =~= all_ids);
            lemma_sorted_maps(
                precedence::<RecipientSummary>(),
                latest_first(),
                |summary: RecipientSummary| summary@,
                passing@,
            );
        }
        sort_stable(passing)
    }

    /// The number of summaries that the list shows.
    pub fn shown_count(&self) -> (count: usize)
        ensures
            count == self.shown().len(),
    {
        let shown = self.get_aggregated_logs();
        assert(summary_views(shown@).len() == shown@.len());
        shown.len()
    }

    /// Moves the highlight one row down in the list.
    pub fn select_next(&mut self)
        ensures
            final(self).selected_row == Some(
                row_below(old(self).selected_row, old(self).shown().len()),
            ),
            final(self).logs == old(self).logs,
            final(self).focus == old(self).focus,
            final(self).filter_recipient == old(self).filter_recipient,
            final(self).filter_country == old(self).filter_country,
            final(self).filter_min_opens == old(self).filter_min_opens,
            final(self).selected_summary_id == old(self).selected_summary_id,
            final(self).filter_options == old(self).filter_options,
    {
        let count = self.shown_count();
        self.selected_row = Some(step_down(self.selected_row, count));
    }

    /// Moves the highlight one row up in the list.
    pub fn select_previous(&mut self)
        ensures
            final(self).selected_row == Some(
                row_above(old(self).selected_row, old(self).shown().len()),
            ),
            final(self).logs == old(self).logs,
            final(self).focus == old(self).focus,
            final(self).filter_recipient == old(self).filter_recipient,
            final(self).filter_country == old(self).filter_country,
            final(self).filter_min_opens == old(self).filter_min_opens,
            final(self).selected_summary_id == old(self).selected_summary_id,
            final(self).filter_options == old(self).filter_options,
    {
        let count = self.shown_count();
        self.selected_row = Some(step_up(self.selected_row, count));
    }

    /// Opens the details of the highlighted summary, if a row of the list
    /// is highlighted.
    pub fn open_selected(&mut self)
        ensures
            final(self).logs == old(self).logs,
            final(self).focus == old(self).focus,
            final(self).filter_recipient == old(self).filter_recipient,
            final(self).filter_country == old(self).filter_country,
            final(self).filter_min_opens == old(self).filter_min_opens,
            final(self).selected_row == old(self).selected_row,
            final(self).filter_options == old(self).filter_options,
            match old(self).selected_row {
                Some(row) if row < old(self).shown().len() => final(self).selected_summary_id
                    is Some && final(self).selected_summary_id->0@ == old(
                    self,
                ).shown()[row as int].tracking_id,
                _ => final(self).selected_summary_id == old(self).selected_summary_id,
            },
    {
        let id = match self.selected_row {
            Some(row) => {
                let shown = self.get_aggregated_logs();
                assert(summary_views(shown@).len() == shown@.len());
                if row < shown.len() {
                    assert(summary_views(shown@)[row as int] == shown@[row as int]@);
                    Some(shown[row].tracking_id.clone())
                } else {
                    None
                }
            },
            None => None,
        };
        match id {
            Some(id) => self.selected_summary_id = Some(id),
            None => {},
        }
    }
}

} // verus!
