//! The configuration page: one text field for each setting.
//!
//! The addresses of the identity are edited as one text, joined by `", "`
//! and split again at every comma after each keystroke.

use vstd::prelude::*;
use vstd::string::*;
use crate::config::AppConfig;
use crate::enums::ConfigField;
use crate::models::IdentityView;
use crate::text::{join, joined, split, split_at, texts, trim, trimmed};

verus! {

/// The state of the configuration page.
#[derive(Debug)]
pub struct ConfigState {
    pub field: ConfigField,
    pub data: AppConfig,
}

/// The configuration page as character sequences.
pub struct ConfigView {
    pub field: ConfigField,
    pub identity: IdentityView,
    pub smtp_username: Seq<char>,
    pub smtp_app_password: Seq<char>,
    pub worker_url: Seq<char>,
    pub api_secret: Seq<char>,
}

impl View for ConfigState {
    type V = ConfigView;

    open spec fn view(&self) -> ConfigView {
        ConfigView {
            field: self.field,
            identity: self.data.identity@,
            smtp_username: self.data.smtp_username@,
            smtp_app_password: self.data.smtp_app_password@,
            worker_url: self.data.worker_url@,
            api_secret: self.data.api_secret@,
        }
    }
}

/// What stands between two addresses while they are edited.
pub const EMAIL_SEPARATOR: &'static str = ", ";

/// A text after its last character was erased, if it had one.
pub open spec fn without_last(text: Seq<char>) -> Seq<char> {
    if text.len() > 0 {
        text.drop_last()
    } else {
        text
    }
}

/// Each of the pieces without the whitespace around it.
pub open spec fn all_trimmed(pieces: Seq<Seq<char>>) -> Seq<Seq<char>> {
    pieces.map_values(|piece: Seq<char>| trimmed(piece))
}

/// The addresses that an edited text stands for: none for an empty text,
/// else its pieces between commas, each without the whitespace around it.
pub open spec fn emails_of(text: Seq<char>) -> Seq<Seq<char>> {
    if text.len() == 0 {
        Seq::empty()
    } else {
        all_trimmed(split_at(text, ','))
    }
}

/// The addresses after one keystroke on their joined text: a character
/// appended, or the last one erased.
pub open spec fn edited_emails(emails: Seq<Seq<char>>, key: Option<char>) -> Seq<Seq<char>> {
    let text = joined(emails, EMAIL_SEPARATOR@);
    emails_of(
        match key {
            Some(c) => text.push(c),
            None => without_last(text),
        },
    )
}

impl ConfigView {
    /// The page after one keystroke on the active field: a character
    /// appended, or the last one erased.
    pub open spec fn edited(self, key: Option<char>) -> ConfigView {
        let id = self.identity;
        match self.field {
            ConfigField::Name => ConfigView {
                identity: IdentityView { name: edited_text(id.name, key), ..id },
                ..self
            },
            ConfigField::Role => ConfigView {
                identity: IdentityView { role: edited_text(id.role, key), ..id },
                ..self
            },
            ConfigField::Department => ConfigView {
                identity: IdentityView { department: edited_text(id.department, key), ..id },
                ..self
            },
            ConfigField::Institution => ConfigView {
                identity: IdentityView { institution: edited_text(id.institution, key), ..id },
                ..self
            },
            ConfigField::Phone => ConfigView {
                identity: IdentityView { phone: edited_text(id.phone, key), ..id },
                ..self
            },
            ConfigField::Emails => ConfigView {
                identity: IdentityView { emails: edited_emails(id.emails, key), ..id },
                ..self
            },
            ConfigField::FooterColor => ConfigView {
                identity: IdentityView { footer_color: edited_text(id.footer_color, key), ..id },
                ..self
            },
            ConfigField::SmtpUser => ConfigView {
                smtp_username: edited_text(self.smtp_username, key),
                ..self
            },
            ConfigField::SmtpPass => ConfigView {
                smtp_app_password: edited_text(self.smtp_app_password, key),
                ..self
            },
            ConfigField::WorkerUrl => ConfigView {
                worker_url: edited_text(self.worker_url, key),
                ..self
            },
            ConfigField::ApiSecret => ConfigView {
                api_secret: edited_text(self.api_secret, key),
                ..self
            },
        }
    }
}

/// A text after one keystroke: a character appended, or the last one
/// erased.
pub open spec fn edited_text(text: Seq<char>, key: Option<char>) -> Seq<char> {
    match key {
        Some(c) => text.push(c),
        None => without_last(text),
    }
}

/// Applies one keystroke to a text.
fn edit_text(text: &mut String, key: Option<char>)
    ensures
        final(text)@ == edited_text(old(text)@, key),
{
    match key {
        Some(c) => text.push(c),
        None => {
            let _ = text.pop();
        },
    }
}

/// Applies one keystroke to the joined text of the addresses and reads the
/// addresses back from it.
pub fn edit_emails(emails: &Vec<String>, key: Option<char>) -> (edited: Vec<String>)
    ensures
        texts(edited@) == edited_emails(texts(emails@), key),
{
    let mut text = join(emails, EMAIL_SEPARATOR);
    edit_text(&mut text, key);
    if text.as_str().is_empty() {
        let edited: Vec<String> = Vec::new();
        assert(texts(edited@) =~= Seq::<Seq<char>>::empty());
        return edited;
    }
    let pieces = split(text.as_str(), ',');
    let ghost wanted = all_trimmed(texts(pieces@));
    let mut edited: Vec<String> = Vec::new();
    let mut i: usize = 0;
    while i < pieces.len()
        invariant
            i <= pieces.len(),
            edited@.len() == i,
            wanted == all_trimmed(texts(pieces@)),
            forall|k: int| 0 <= k < i ==> #[trigger] edited@[k]@ == wanted[k],
        decreases pieces.len() - i,
    {
        edited.push(trim(pieces[i].as_str()));
        i += 1;
    }
    assert(texts(edited@) =~= wanted);
    edited
}

impl ConfigState {
    /// The page for `data`, with the name field active.
    pub fn new(data: AppConfig) -> (state: ConfigState)
        ensures
            state.field == ConfigField::Name,
            state.data == data,
    {
        ConfigState { field: ConfigField::Name, data }
    }

    /// Appends `c` to the active field.
    pub fn handle_input(&mut self, c: char)
        ensures
            final(self)@ == old(self)@.edited(Some(c)),
    {
        self.apply_key(Some(c));
    }

    /// Erases the last character of the active field.
    pub fn handle_backspace(&mut self)
        ensures
            final(self)@ == old(self)@.edited(None),
    {
        self.apply_key(None);
    }

    /// Applies one keystroke to the active field.
    fn apply_key(&mut self, key: Option<char>)
        ensures
            final(self)@ == old(self)@.edited(key),
    {
        match self.field {
            ConfigField::Name => edit_text(&mut self.data.identity.name, key),
            ConfigField::Role => edit_text(&mut self.data.identity.role, key),
            ConfigField::Department => edit_text(&mut self.data.identity.department, key),
            ConfigField::Institution => edit_text(&mut self.data.identity.institution, key),
            ConfigField::Phone => edit_text(&mut self.data.identity.phone, key),
            ConfigField::Emails => match key {
                Some(c) => self.modify_emails(c, false),
                None => self.modify_emails(' ', true),
            },
            ConfigField::FooterColor => edit_text(&mut self.data.identity.footer_color, key),
            ConfigField::SmtpUser => edit_text(&mut self.data.smtp_username, key),
            ConfigField::SmtpPass => edit_text(&mut self.data.smtp_app_password, key),
            ConfigField::WorkerUrl => edit_text(&mut self.data.worker_url, key),
            ConfigField::ApiSecret => edit_text(&mut self.data.api_secret, key),
        }
    }

    /// Applies one keystroke to the addresses: erases the last character
    /// of their joined text, or appends `c` to it.
    fn modify_emails(&mut self, c: char, is_backspace: bool)
        ensures
            final(self)@ == (ConfigView {
                identity: IdentityView {
                    emails: edited_emails(
                        old(self)@.identity.emails,
                        if is_backspace {
                            None
                        } else {
                            Some(c)
                        },
                    ),
                    ..old(self)@.identity
                },
                ..old(self)@
            }),
    {
        let key = if is_backspace {
            None
        } else {
            Some(c)
        };
        self.data.identity.emails = edit_emails(&self.data.identity.emails, key);
    }

    /// Moves the focus to the next field, or to the previous one.
    pub fn cycle_field(&mut self, forward: bool)
        ensures
            final(self)@ == (ConfigView {
                field: if forward {
                    old(self)@.field.next()
                } else {
                    old(self)@.field.prev()
                },
                ..old(self)@
            }),
    {
        self.field = self.field.step(forward);
    }
}

} // verus!
