//! The settings of one user.

use vstd::prelude::*;
use vstd::string::*;
use crate::models::{IdentityView, UserIdentity};

verus! {

/// Identity, mail credentials and the address of the tracking service.
#[derive(Debug, Clone)]
pub struct AppConfig {
    pub identity: UserIdentity,
    pub smtp_username: String,
    pub smtp_app_password: String,
    pub worker_url: String,
    pub api_secret: String,
}

impl Default for AppConfig {
    /// The default identity and four empty settings.
    fn default() -> (config: AppConfig)
        ensures
            config.identity@ == (IdentityView {
                name: Seq::empty(),
                role: Seq::empty(),
                department: Seq::empty(),
                institution: Seq::empty(),
                phone: Seq::empty(),
                emails: Seq::empty(),
                footer_color: "#179299"@,
            }),
            config.smtp_username@.len() == 0,
            config.smtp_app_password@.len() == 0,
            config.worker_url@.len() == 0,
            config.api_secret@.len() == 0,
    {
        AppConfig {
            identity: UserIdentity::default(),
            smtp_username: String::new(),
            smtp_app_password: String::new(),
            worker_url: String::new(),
            api_secret: String::new(),
        }
    }
}

} // verus!
