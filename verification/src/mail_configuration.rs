//! The recipient of the notification e-mail and the account it is sent from.

use vstd::prelude::*;

verus! {

/// The recipient and the SMTP account of a notification e-mail.
#[derive(Clone, Debug, Default)]
pub struct MailConfiguration {
    pub to_name: String,
    pub to_email: String,
    pub smtp_server: String,
    pub smtp_username: String,
    pub smtp_password: String,
}

/// A mail configuration as plain character sequences.
pub struct MailConfigurationView {
    pub to_name: Seq<char>,
    pub to_email: Seq<char>,
    pub smtp_server: Seq<char>,
    pub smtp_username: Seq<char>,
    pub smtp_password: Seq<char>,
}

impl View for MailConfiguration {
    type V = MailConfigurationView;

    open spec fn view(&self) -> MailConfigurationView {
        MailConfigurationView {
            to_name: self.to_name@,
            to_email: self.to_email@,
            smtp_server: self.smtp_server@,
            smtp_username: self.smtp_username@,
            smtp_password: self.smtp_password@,
        }
    }
}

impl MailConfiguration {
    /// A configuration that holds the given values.
    pub fn new(
        to_name: String,
        to_email: String,
        smtp_server: String,
        smtp_username: String,
        smtp_password: String,
    ) -> (configuration: Self)
        ensures
            configuration@ == (MailConfigurationView {
                to_name: to_name@,
                to_email: to_email@,
                smtp_server: smtp_server@,
                smtp_username: smtp_username@,
                smtp_password: smtp_password@,
            }),
    {
        MailConfiguration { to_name, to_email, smtp_server, smtp_username, smtp_password }
    }
}

} // verus!
