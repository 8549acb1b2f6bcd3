//! The compose page: recipient, subject, attachments, body and the send
//! button.
//!
//! The attachments of the draft are edited as one text, in which the paths
//! stand separated by semicolons.

use vstd::prelude::*;
use vstd::string::*;
use crate::configuration::edited_text;
use crate::enums::ComposeField;
use crate::models::EmailDraft;
use crate::text::{join, joined, split, split_at, texts, trim, trimmed};

verus! {

/// The state of the compose page.
#[derive(Debug)]
pub struct ComposeState {
    pub field: ComposeField,
    pub draft: EmailDraft,
    /// The attachments as they are being typed.
    pub attachment_input: String,
}

/// What stands between two paths when a draft is opened.
pub const ATTACHMENT_SEPARATOR: &'static str = "; ";

/// The non-empty ones among the pieces after trimming, in order.
pub open spec fn trimmed_non_empty(pieces: Seq<Seq<char>>) -> Seq<Seq<char>>
    decreases pieces.len(),
{
    if pieces.len() == 0 {
        Seq::empty()
    } else {
        let before = trimmed_non_empty(pieces.drop_last());
        let piece = trimmed(pieces.last());
        if piece.len() == 0 {
            before
        } else {
            before.push(piece)
        }
    }
}

/// The paths that an attachment text stands for: its pieces between
/// semicolons, without the whitespace around each and without the empty
/// ones.
pub open spec fn attachments_of(input: Seq<char>) -> Seq<Seq<char>> {
    trimmed_non_empty(split_at(input, ';'))
}

/// An empty attachment text stands for no path.
pub proof fn lemma_no_text_no_attachments()
    ensures
        attachments_of(Seq::<char>::empty()) == Seq::<Seq<char>>::empty(),
{
    let pieces = split_at(Seq::<char>::empty(), ';');
    assert(pieces =~= seq![Seq::<char>::empty()]);
    assert(pieces.drop_last() =~= Seq::<Seq<char>>::empty());
    assert(trimmed(pieces.last()) =~= Seq::<char>::empty());
    assert(trimmed_non_empty(Seq::<Seq<char>>::empty()) =~= Seq::<Seq<char>>::empty());
}

/// Reads the paths from an attachment text.
pub fn parse_attachments(input: &str) -> (paths: Vec<String>)
    ensures
        texts(paths@) == attachments_of(input@),
{
    let pieces = split(input, ';');
    let ghost all = texts(pieces@);
    let mut paths: Vec<String> = Vec::new();
    let mut i: usize = 0;
    proof {
        assert(all.take(0) =~= Seq::<Seq<char>>::empty());
    }
    while i < pieces.len()
        invariant
            i <= pieces.len(),
            all == texts(pieces@),
            texts(paths@) == trimmed_non_empty(all.take(i as int)),
        decreases pieces.len() - i,
    {
        proof {
            assert(all.take(i + 1).drop_last() =~= all.take(i as int));
            assert(all.take(i + 1).last() == pieces@[i as int]@);
        }
        let piece = trim(pieces[i].as_str());
        if !piece.as_str().is_empty() {
            let ghost before = paths@;
            paths.push(piece);
            assert(texts(paths@) =~= texts(before).push(piece@));
        }
        i += 1;
    }
    proof {
        assert(all.take(pieces.len() as int) =~= all);
    }
    paths
}

impl ComposeState {
    /// The page for `draft`, with the recipient field active and the
    /// attachments of the draft joined by `"; "`.
    pub fn new(draft: EmailDraft) -> (state: ComposeState)
        ensures
            state.field == ComposeField::Recipient,
            state.draft == draft,
            state.attachment_input@ == joined(texts(draft.attachments@), ATTACHMENT_SEPARATOR@),
    {
        let attachment_input = join(&draft.attachments, ATTACHMENT_SEPARATOR);
        ComposeState { field: ComposeField::Recipient, draft, attachment_input }
    }

    /// Whether `self` is `before` with the attachments of the draft read
    /// anew from the attachment text, and nothing else changed.
    pub open spec fn synced_from(&self, before: &ComposeState) -> bool {
        &&& texts(self.draft.attachments@) == attachments_of(before.attachment_input@)
        &&& self.attachment_input == before.attachment_input
        &&& self.field == before.field
        &&& self.draft.recipient == before.draft.recipient
        &&& self.draft.subject == before.draft.subject
        &&& self.draft.body == before.draft.body
        &&& self.draft.scheduled_at == before.draft.scheduled_at
        &&& self.draft.schedule == before.draft.schedule
    }

    /// Replaces the attachments of the draft by the paths that the
    /// attachment text stands for.
    pub fn sync_attachments(&mut self)
        ensures
            final(self).synced_from(old(self)),
    {
        self.draft.attachments = parse_attachments(self.attachment_input.as_str());
    }

    /// Whether `self` is `before` after one keystroke on the active field:
    /// a character appended to the recipient, the subject or the
    /// attachment text, or the last one erased. The body and the send
    /// button take no keystroke, and nothing else changes.
    pub open spec fn edited_from(&self, before: &ComposeState, key: Option<char>) -> bool {
        &&& self.field == before.field
        &&& self.draft.recipient@ == if before.field == ComposeField::Recipient {
            edited_text(before.draft.recipient@, key)
        } else {
            before.draft.recipient@
        }
        &&& self.draft.subject@ == if before.field == ComposeField::Subject {
            edited_text(before.draft.subject@, key)
        } else {
            before.draft.subject@
        }
        &&& self.attachment_input@ == if before.field == ComposeField::Attachments {
            edited_text(before.attachment_input@, key)
        } else {
            before.attachment_input@
        }
        &&& self.draft.body == before.draft.body
        &&& self.draft.attachments == before.draft.attachments
        &&& self.draft.scheduled_at == before.draft.scheduled_at
        &&& self.draft.schedule == before.draft.schedule
    }

    /// Applies one keystroke to the active field.
    fn apply_key(&mut self, key: Option<char>)
        ensures
            final(self).edited_from(old(self), key),
    {
        match self.field {
            ComposeField::Recipient => edit(&mut self.draft.recipient, key),
            ComposeField::Subject => edit(&mut self.draft.subject, key),
            ComposeField::Attachments => edit(&mut self.attachment_input, key),
            ComposeField::Body => {},
            ComposeField::SendButton => {},
        }
    }

    /// Appends `c` to the recipient, the subject or the attachment text,
    /// whichever is active.
    pub fn handle_input(&mut self, c: char)
        ensures
            final(self).edited_from(old(self), Some(c)),
    {
        self.apply_key(Some(c));
    }

    /// Erases the last character of the recipient, the subject or the
    /// attachment text, whichever is active.
    pub fn handle_backspace(&mut self)
        ensures
            final(self).edited_from(old(self), None),
    {
        self.apply_key(None);
    }

    /// Moves the focus to the next field, or to the previous one.
    pub fn cycle_field(&mut self, forward: bool)
        ensures
            final(self).field == if forward {
                old(self).field.next()
            } else {
                old(self).field.prev()
            },
            final(self).draft == old(self).draft,
            final(self).attachment_input == old(self).attachment_input,
    {
        self.field = self.field.step(forward);
    }
}

/// Applies one keystroke to a text.
fn edit(text: &mut String, key: Option<char>)
    ensures
        final(text)@ == edited_text(old(text)@, key),
{
    match key {
        Some(c) => text.push(c),
        None => {
            let _ = text.pop();
        },
    }
}

} // verus!
