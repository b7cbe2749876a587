//! The e-mail channel: what is sent, to whom, and through which server.

use vstd::prelude::*;
use vstd::string::*;
use crate::csp::csp_report_content::CspReportContent;
use crate::environment::ConfigurationError;
use crate::environment::Environment;
use crate::json::pretty_object;
use crate::json::EncodeError;
use crate::mail::mailer_configuration::settings_from;
use crate::mail::mailer_configuration::MailSettingsView;
use crate::mail::mailer_configuration::MailerConfiguration;

verus! {

/// The e-mail channel.
#[derive(Clone, Debug)]
pub struct Mailer {
    pub from_name: String,
    pub from_email: String,
    pub to_name: String,
    pub to_email: String,
    pub smtp_hostname: String,
    pub smtp_port: u16,
    pub smtp_username: Option<String>,
    pub smtp_password: Option<String>,
}

impl View for Mailer {
    type V = MailSettingsView;

    open spec fn view(&self) -> MailSettingsView {
        MailSettingsView {
            from_name: self.from_name@,
            from_email: self.from_email@,
            to_name: self.to_name@,
            to_email: self.to_email@,
            smtp_hostname: self.smtp_hostname@,
            smtp_port: self.smtp_port,
            smtp_username: self.smtp_username.deep_view(),
            smtp_password: self.smtp_password.deep_view(),
        }
    }
}

/// How a client proves who it is to the server.
#[derive(Clone, Copy, Debug, PartialEq, Eq, Structural)]
pub enum Mechanism {
    /// User name and password in one message.
    Plain,
    /// User name and password in two messages.
    Login,
}

/// The account that the client logs in with.
#[derive(Clone, Debug, PartialEq, Eq)]
pub struct Authentication {
    pub username: String,
    pub password: String,
    pub mechanism: Mechanism,
}

/// How to reach the SMTP server.
#[derive(Clone, Debug, PartialEq, Eq)]
pub struct TransportSettings {
    pub hostname: String,
    pub port: u16,
    /// Whether the connection is encrypted.
    pub encrypted: bool,
    /// The account to log in with; `None` to send without logging in.
    pub authentication: Option<Authentication>,
}

/// An account as plain character sequences.
pub struct AuthenticationView {
    pub username: Seq<char>,
    pub password: Seq<char>,
    pub mechanism: Mechanism,
}

/// Transport settings as plain character sequences.
pub struct TransportSettingsView {
    pub hostname: Seq<char>,
    pub port: u16,
    pub encrypted: bool,
    pub authentication: Option<AuthenticationView>,
}

impl View for Authentication {
    type V = AuthenticationView;

    open spec fn view(&self) -> AuthenticationView {
        AuthenticationView {
            username: self.username@,
            password: self.password@,
            mechanism: self.mechanism,
        }
    }
}

impl View for TransportSettings {
    type V = TransportSettingsView;

    open spec fn view(&self) -> TransportSettingsView {
        TransportSettingsView {
            hostname: self.hostname@,
            port: self.port,
            encrypted: self.encrypted,
            authentication: match self.authentication {
                Some(account) => Some(account@),
                None => None,
            },
        }
    }
}

/// A name with its address.
#[derive(Clone, Debug, PartialEq, Eq)]
pub struct Mailbox {
    pub address: String,
    pub name: String,
}

/// An e-mail before it is handed to the transport.
#[derive(Clone, Debug, PartialEq, Eq)]
pub struct EmailMessage {
    pub from: Mailbox,
    pub to: Mailbox,
    pub subject: String,
    pub body: String,
}

/// A mailbox as plain character sequences.
pub struct MailboxView {
    pub address: Seq<char>,
    pub name: Seq<char>,
}

/// An e-mail as plain character sequences.
pub struct EmailMessageView {
    pub from: MailboxView,
    pub to: MailboxView,
    pub subject: Seq<char>,
    pub body: Seq<char>,
}

impl View for Mailbox {
    type V = MailboxView;

    open spec fn view(&self) -> MailboxView {
        MailboxView { address: self.address@, name: self.name@ }
    }
}

impl View for EmailMessage {
    type V = EmailMessageView;

    open spec fn view(&self) -> EmailMessageView {
        EmailMessageView {
            from: self.from@,
            to: self.to@,
            subject: self.subject@,
            body: self.body@,
        }
    }
}

#[verifier::external_type_specification]
#[verifier::external_body]
pub struct ExEmail(lettre_email::Email);

#[verifier::external_type_specification]
#[verifier::external_body]
pub struct ExEmailError(lettre_email::error::Error);

/// Why no e-mail could be made of a report.
#[derive(Clone, Copy, Debug, PartialEq, Eq, Structural)]
pub enum MailError {
    /// The report could not be written as JSON.
    Encoding,
    /// The e-mail builder refused the message, as it does an address that it
    /// does not take for one.
    Rejected,
}

/// Runs `lettre_email::EmailBuilder` with the sender, the recipient, the
/// subject and the body of `message`.
///
/// Nothing is claimed of what it gives: the builder stamps the message with
/// the current date and a random identifier, and accepts or refuses the
/// addresses by rules of its own.
#[verifier::external_body]
fn build(message: &EmailMessage) -> (built: Result<lettre_email::Email, lettre_email::error::Error>) {
    lettre_email::EmailBuilder::new()
        .from((message.from.address.as_str(), message.from.name.as_str()))
        .to((message.to.address.as_str(), message.to.name.as_str()))
        .subject(message.subject.as_str())
        .body(message.body.as_str())
        .build()
}

/// The e-mail that announces a report whose JSON text is `json`.
pub open spec fn report_email(from: MailboxView, to: MailboxView, json: Seq<char>) -> EmailMessageView {
    EmailMessageView { from, to, subject: "[CSP] New report"@, body: "New report "@ + json }
}

/// Writes the e-mail that announces a report whose JSON text is `json`.
pub fn write_report_email(from: Mailbox, to: Mailbox, json: &str) -> (message: EmailMessage)
    ensures
        message@ == report_email(from@, to@, json@),
{
    EmailMessage {
        from,
        to,
        subject: "[CSP] New report".to_owned(),
        body: "New report ".to_owned().concat(json),
    }
}

impl MailSettingsView {
    /// The sender of the notifications.
    pub open spec fn sender(self) -> MailboxView {
        MailboxView { address: self.from_email, name: self.from_name }
    }

    /// The recipient of the notifications.
    pub open spec fn recipient(self) -> MailboxView {
        MailboxView { address: self.to_email, name: self.to_name }
    }

    /// The server is reached without encryption. The client logs in, with the
    /// plain mechanism, exactly when both a user name and a password are set.
    pub open spec fn transport(self) -> TransportSettingsView {
        TransportSettingsView {
            hostname: self.smtp_hostname,
            port: self.smtp_port,
            encrypted: false,
            authentication: match (self.smtp_username, self.smtp_password) {
                (Some(username), Some(password)) => Some(
                    AuthenticationView { username, password, mechanism: Mechanism::Plain },
                ),
                _ => None,
            },
        }
    }
}

impl Mailer {
    /// The channel that these settings describe.
    pub fn new(configuration: MailerConfiguration) -> (mailer: Mailer)
        ensures
            mailer@ == configuration@,
    {
        Mailer {
            from_name: configuration.from_name,
            from_email: configuration.from_email,
            to_name: configuration.to_name,
            to_email: configuration.to_email,
            smtp_hostname: configuration.smtp_hostname,
            smtp_port: configuration.smtp_port,
            smtp_username: configuration.smtp_username,
            smtp_password: configuration.smtp_password,
        }
    }

    /// Reads the channel's settings from the variables
    /// `MORBO_MAILER_FROM_NAME`, `MORBO_MAILER_FROM_EMAIL`,
    /// `MORBO_MAILER_TO_NAME`, `MORBO_MAILER_TO_EMAIL`,
    /// `MORBO_MAILER_SMTP_HOSTNAME`, `MORBO_MAILER_SMTP_PORT` and, where they
    /// are set, `MORBO_MAILER_SMTP_USERNAME` and `MORBO_MAILER_SMTP_PASSWORD`.
    pub fn load_from_env(environment: &Environment) -> (loaded: Result<Mailer, ConfigurationError>)
        ensures
            match settings_from(environment@, "MORBO_MAILER_"@) {
                Ok(settings) => loaded matches Ok(m) && m@ == settings,
                Err(error) => loaded matches Err(e) && e@ == error,
            },
    {
        match MailerConfiguration::load_with_prefix(environment, "MORBO_MAILER_") {
            Ok(configuration) => Ok(Mailer::new(configuration)),
            Err(error) => Err(error),
        }
    }

    /// How to reach the server that the e-mails go through.
    pub fn get_transport(&self) -> (settings: TransportSettings)
        ensures
            settings@ == self@.transport(),
    {
        let authentication = match (&self.smtp_username, &self.smtp_password) {
            (Some(username), Some(password)) => Some(
                Authentication {
                    username: username.clone(),
                    password: password.clone(),
                    mechanism: Mechanism::Plain,
                },
            ),
            _ => None,
        };
        TransportSettings {
            hostname: self.smtp_hostname.clone(),
            port: self.smtp_port,
            encrypted: false,
            authentication,
        }
    }

    /// The e-mail that announces a report whose JSON text is `json`.
    pub fn email_with_json(&self, json: &str) -> (message: EmailMessage)
        ensures
            message@ == report_email(self@.sender(), self@.recipient(), json@),
    {
        write_report_email(
            Mailbox { address: self.from_email.clone(), name: self.from_name.clone() },
            Mailbox { address: self.to_email.clone(), name: self.to_name.clone() },
            json,
        )
    }

    /// The e-mail that announces `report`; an error where the report cannot be
    /// written as JSON.
    pub fn compose(&self, report: &CspReportContent) -> (message: Result<EmailMessage, EncodeError>)
        ensures
            match pretty_object(report@.json_members()) {
                Some(json) => message matches Ok(m) && m@ == report_email(
                    self@.sender(),
                    self@.recipient(),
                    json,
                ),
                None => message is Err,
            },
    {
        match report.to_json_pretty() {
            Ok(json) => Ok(self.email_with_json(json.as_str())),
            Err(error) => Err(error),
        }
    }

    /// The e-mail that announces `report`, ready for the transport.
    ///
    /// Only where the report can be written as JSON is the builder asked, and
    /// then with the message that `compose` gives; what it makes of the
    /// message is its own affair.
    pub fn build_email(&self, report: &CspReportContent) -> (email: Result<
        lettre_email::Email,
        MailError,
    >)
        ensures
            pretty_object(report@.json_members()) is None <==> email matches Err(
                MailError::Encoding,
            ),
    {
        match self.compose(report) {
            Ok(message) => built_email(build(&message)),
            Err(_) => Err(MailError::Encoding),
        }
    }
}

/// What the caller gets of the builder's answer: the e-mail, or `Rejected`.
pub fn built_email(built: Result<lettre_email::Email, lettre_email::error::Error>) -> (email: Result<
    lettre_email::Email,
    MailError,
>)
    ensures
        match built {
            Ok(made) => email == Ok::<lettre_email::Email, MailError>(made),
            Err(_) => email == Err::<lettre_email::Email, MailError>(MailError::Rejected),
        },
{
    match built {
        Ok(made) => Ok(made),
        Err(_) => Err(MailError::Rejected),
    }
}

} // verus!
