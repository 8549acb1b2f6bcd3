//! The page of scheduled jobs: a list that can be filtered by recipient
//! and by status, and a detail view of one job.

use vstd::prelude::*;
use vstd::string::*;
use crate::configuration::edited_text;
use crate::enums::{JobStatus, ScheduledFocus};
use crate::models::ScheduledJob;
use crate::text::{contains, has_substring};

verus! {

/// The state of the page of scheduled jobs.
#[derive(Debug)]
pub struct ScheduledState {
    pub jobs: Vec<ScheduledJob>,
    pub focus: ScheduledFocus,
    pub filter_recipient: String,
    pub filter_status: Option<JobStatus>,
    /// The row of the filtered list that is highlighted.
    pub selected_row: Option<usize>,
    /// The job whose details are shown, if any.
    pub selected_job_id: Option<String>,
}

impl Default for ScheduledState {
    /// An empty list without filters, with the recipient filter in focus.
    fn default() -> (state: ScheduledState)
        ensures
            state.jobs@.len() == 0,
            state.focus == ScheduledFocus::FilterRecipient,
            state.filter_recipient@.len() == 0,
            state.filter_status is None,
            state.selected_row is None,
            state.selected_job_id is None,
    {
        ScheduledState {
            jobs: Vec::new(),
            focus: ScheduledFocus::FilterRecipient,
            filter_recipient: String::new(),
            filter_status: None,
            selected_row: None,
            selected_job_id: None,
        }
    }
}

/// The status filter that follows: none, pending, sent, failed, and none
/// again.
pub open spec fn next_status_filter(filter: Option<JobStatus>) -> Option<JobStatus> {
    match filter {
        None => Some(JobStatus::Pending),
        Some(JobStatus::Pending) => Some(JobStatus::Sent),
        Some(JobStatus::Sent) => Some(JobStatus::Failed),
        Some(JobStatus::Failed) => None,
    }
}

/// Whether a job passes the filters: its recipient holds the recipient
/// filter, and its status is the one asked for, if one is.
pub open spec fn job_passes(
    job: ScheduledJob,
    filter_recipient: Seq<char>,
    filter_status: Option<JobStatus>,
) -> bool {
    &&& filter_recipient.len() == 0 || has_substring(job.recipient@, filter_recipient)
    &&& match filter_status {
        None => true,
        Some(status) => job.status == status,
    }
}

/// The jobs that pass the filters, in order.
pub open spec fn filtered_jobs(
    jobs: Seq<ScheduledJob>,
    filter_recipient: Seq<char>,
    filter_status: Option<JobStatus>,
) -> Seq<ScheduledJob>
    decreases jobs.len(),
{
    if jobs.len() == 0 {
        Seq::empty()
    } else {
        let before = filtered_jobs(jobs.drop_last(), filter_recipient, filter_status);
        if job_passes(jobs.last(), filter_recipient, filter_status) {
            before.push(jobs.last())
        } else {
            before
        }
    }
}

/// The jobs that a list of references refers to.
pub open spec fn referred(jobs: Seq<&ScheduledJob>) -> Seq<ScheduledJob> {
    jobs.map_values(|job: &ScheduledJob| *job)
}

/// Whether `c` is a letter or a number of Unicode.
pub uninterp spec fn alphanumeric(c: char) -> bool;

/// `char::is_alphanumeric` tells whether a character is a letter or a
/// number.
pub assume_specification[ char::is_alphanumeric ](c: char) -> (yes: bool)
    ensures
        yes == alphanumeric(c),
;

/// The name of the folder that a job is downloaded to: its recipient,
/// with `_` in place of every character that is neither letter nor
/// number.
pub open spec fn folder_name_of(recipient: Seq<char>) -> Seq<char> {
    recipient.map_values(
        |c: char|
            if alphanumeric(c) {
                c
            } else {
                '_'
            },
    )
}

/// Names the folder that a job for `recipient` is downloaded to.
pub fn download_folder(recipient: &str) -> (name: String)
    ensures
        name@ == folder_name_of(recipient@),
{
    let mut name = String::new();
    for c in it: recipient.chars()
        invariant
            it.seq() == recipient@,
            name@ == folder_name_of(recipient@.take(it.index())),
    {
        if c.is_alphanumeric() {
            name.push(c);
        } else {
            name.push('_');
        }
        assert(name@ =~= folder_name_of(recipient@.take(it.index() + 1)));
    }
    assert(recipient@.take(recipient@.len() as int) =~= recipient@);
    name
}

/// The row below `row` in a list of `len` rows, the first row after the
/// last and where none was selected.
pub open spec fn row_below(row: Option<usize>, len: nat) -> usize {
    match row {
        Some(i) => if i + 1 >= len {
            0
        } else {
            (i + 1) as usize
        },
        None => 0,
    }
}

/// The row above `row` in a list of `len` rows, the last row before the
/// first, and the first where none was selected.
pub open spec fn row_above(row: Option<usize>, len: nat) -> usize {
    match row {
        Some(i) => if i == 0 {
            if len == 0 {
                0
            } else {
                (len - 1) as usize
            }
        } else {
            (i - 1) as usize
        },
        None => 0,
    }
}

/// Moves a highlight one row down, round to the first row.
pub fn step_down(row: Option<usize>, len: usize) -> (next: usize)
    ensures
        next == row_below(row, len as nat),
{
    match row {
        Some(i) => {
            if i >= len.saturating_sub(1) {
                0
            } else {
                i + 1
            }
        },
        None => 0,
    }
}

/// Moves a highlight one row up, round to the last row.
pub fn step_up(row: Option<usize>, len: usize) -> (next: usize)
    ensures
        next == row_above(row, len as nat),
{
    match row {
        Some(i) => {
            if i == 0 {
                len.saturating_sub(1)
            } else {
                i - 1
            }
        },
        None => 0,
    }
}

impl ScheduledState {
    /// The jobs that the list shows.
    pub open spec fn shown(&self) -> Seq<ScheduledJob> {
        filtered_jobs(self.jobs@, self.filter_recipient@, self.filter_status)
    }

    /// Moves the focus to the next element, or to the previous one. While
    /// a job's details are shown the focus stays.
    pub fn cycle_focus(&mut self, forward: bool)
        ensures
            final(self).focus == if old(self).selected_job_id is Some {
                old(self).focus
            } else if forward {
                old(self).focus.next()
            } else {
                old(self).focus.prev()
            },
            final(self).jobs == old(self).jobs,
            final(self).filter_recipient == old(self).filter_recipient,
            final(self).filter_status == old(self).filter_status,
            final(self).selected_row == old(self).selected_row,
            final(self).selected_job_id == old(self).selected_job_id,
    {
        if self.selected_job_id.is_some() {
            return;
        }
        self.focus = self.focus.step(forward);
    }

    /// Whether `self` is `before` after one keystroke: a character
    /// appended to the recipient filter, or its last one erased, if that
    /// filter has the focus. Nothing else changes.
    pub open spec fn edited_from(&self, before: &ScheduledState, key: Option<char>) -> bool {
        &&& self.filter_recipient@ == if before.focus == ScheduledFocus::FilterRecipient {
            edited_text(before.filter_recipient@, key)
        } else {
            before.filter_recipient@
        }
        &&& self.jobs == before.jobs
        &&& self.focus == before.focus
        &&& self.filter_status == before.filter_status
        &&& self.selected_row == before.selected_row
        &&& self.selected_job_id == before.selected_job_id
    }

    /// Appends `c` to the recipient filter if that has the focus.
    pub fn handle_input(&mut self, c: char)
        ensures
            final(self).edited_from(old(self), Some(c)),
    {
        match self.focus {
            ScheduledFocus::FilterRecipient => self.filter_recipient.push(c),
            _ => {},
        }
    }

    /// Erases the last character of the recipient filter if that has the
    /// focus.
    pub fn handle_backspace(&mut self)
        ensures
            final(self).edited_from(old(self), None),
    {
        match self.focus {
            ScheduledFocus::FilterRecipient => {
                let _ = self.filter_recipient.pop();
            },
            _ => {},
        }
    }

    /// Moves the status filter on: none, pending, sent, failed, none.
    pub fn toggle_status_filter(&mut self)
        ensures
            final(self).filter_status == next_status_filter(old(self).filter_status),
            final(self).jobs == old(self).jobs,
            final(self).focus == old(self).focus,
            final(self).filter_recipient == old(self).filter_recipient,
            final(self).selected_row == old(self).selected_row,
            final(self).selected_job_id == old(self).selected_job_id,
    {
        self.filter_status = match self.filter_status {
            None => Some(JobStatus::Pending),
            Some(JobStatus::Pending) => Some(JobStatus::Sent),
            Some(JobStatus::Sent) => Some(JobStatus::Failed),
            Some(JobStatus::Failed) => None,
        };
    }

    /// The jobs that pass the filters, in the order of the list.
    pub fn get_filtered_jobs(&self) -> (shown: Vec<&ScheduledJob>)
        ensures
            referred(shown@) == self.shown(),
    {
        let mut shown: Vec<&ScheduledJob> = Vec::new();
        let mut i: usize = 0;
        proof {
            assert(self.jobs@.take(0) =~= Seq::<ScheduledJob>::empty());
        }
        while i < self.jobs.len()
            invariant
                i <= self.jobs.len(),
                referred(shown@) == filtered_jobs(
                    self.jobs@.take(i as int),
                    self.filter_recipient@,
                    self.filter_status,
                ),
            decreases self.jobs.len() - i,
        {
            proof {
                assert(self.jobs@.take(i + 1).drop_last() =~= self.jobs@.take(i as int));
            }
            let job = &self.jobs[i];
            let matches_recipient = if self.filter_recipient.as_str().is_empty() {
                true
            } else {
                contains(job.recipient.as_str(), self.filter_recipient.as_str())
            };
            let matches_status = match self.filter_status {
                None => true,
                Some(status) => job.status == status,
            };
            if matches_recipient && matches_status {
                let ghost before = shown@;
                shown.push(job);
                assert(referred(shown@) =~= referred(before).push(*job));
            }
            i += 1;
        }
        proof {
            assert(self.jobs@.take(self.jobs.len() as int) =~= self.jobs@);
        }
        shown
    }

    /// The number of jobs that pass the filters.
    pub fn shown_count(&self) -> (count: usize)
        ensures
            count == self.shown().len(),
    {
        let shown = self.get_filtered_jobs();
        assert(referred(shown@).len() == shown@.len());
        shown.len()
    }

    /// Moves the highlight one row down in the shown list.
    pub fn select_next(&mut self)
        ensures
            final(self).selected_row == Some(
                row_below(old(self).selected_row, old(self).shown().len()),
            ),
            final(self).jobs == old(self).jobs,
            final(self).focus == old(self).focus,
            final(self).filter_recipient == old(self).filter_recipient,
            final(self).filter_status == old(self).filter_status,
            final(self).selected_job_id == old(self).selected_job_id,
    {
        let count = self.shown_count();
        self.selected_row = Some(step_down(self.selected_row, count));
    }

    /// Moves the highlight one row up in the shown list.
    pub fn select_previous(&mut self)
        ensures
            final(self).selected_row == Some(
                row_above(old(self).selected_row, old(self).shown().len()),
            ),
            final(self).jobs == old(self).jobs,
            final(self).focus == old(self).focus,
            final(self).filter_recipient == old(self).filter_recipient,
            final(self).filter_status == old(self).filter_status,
            final(self).selected_job_id == old(self).selected_job_id,
    {
        let count = self.shown_count();
        self.selected_row = Some(step_up(self.selected_row, count));
    }

    /// Opens the details of the highlighted job, if a row of the shown
    /// list is highlighted.
    pub fn open_selected(&mut self)
        ensures
            final(self).jobs == old(self).jobs,
            final(self).focus == old(self).focus,
            final(self).filter_recipient == old(self).filter_recipient,
            final(self).filter_status == old(self).filter_status,
            final(self).selected_row == old(self).selected_row,
            match old(self).selected_row {
                Some(row) if row < old(self).shown().len() => final(self).selected_job_id is Some
                    && final(self).selected_job_id->0@ == old(self).shown()[row as int].id@,
                _ => final(self).selected_job_id == old(self).selected_job_id,
            },
    {
        let id = match self.selected_row {
            Some(row) => {
                let shown = self.get_filtered_jobs();
                assert(referred(shown@).len() == shown@.len());
                if row < shown.len() {
                    assert(referred(shown@)[row as int] == *shown@[row as int]);
                    Some(shown[row].id.clone())
                } else {
                    None
                }
            },
            None => None,
        };
        match id {
            Some(id) => self.selected_job_id = Some(id),
            None => {},
        }
    }

    /// The position in the list of the job with this id, if there is one.
    pub fn find_job(&self, id: &str) -> (found: Option<usize>)
        ensures
            match found {
                Some(i) => i < self.jobs@.len() && self.jobs@[i as int].id@ == id@ && forall|
                    k: int,
                | 0 <= k < i ==> self.jobs@[k].id@ != id@,
                None => forall|k: int| 0 <= k < self.jobs@.len() ==> self.jobs@[k].id@ != id@,
            },
    {
        let wanted = id.to_owned();
        let mut i: usize = 0;
        while i < self.jobs.len()
            invariant
                i <= self.jobs.len(),
                wanted@ == id@,
                forall|k: int| 0 <= k < i ==> self.jobs@[k].id@ != id@,
            decreases self.jobs.len() - i,
        {
            if self.jobs[i].id == wanted {
                return Some(i);
            }
            i += 1;
        }
        None
    }
}

} // verus!
