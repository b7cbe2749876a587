//! Who sends the notification e-mail, who receives it, and through which server.

use vstd::prelude::*;
use crate::environment::lookup;
use crate::environment::parse_port;
use crate::environment::port_of;
use crate::environment::ConfigurationError;
use crate::environment::ConfigurationErrorView;
use crate::environment::Environment;

verus! {

/// Settings of the e-mail channel.
#[derive(Clone, Debug, Default)]
pub struct MailerConfiguration {
    pub from_name: String,
    pub from_email: String,
    pub to_name: String,
    pub to_email: String,
    pub smtp_hostname: String,
    pub smtp_port: u16,
    pub smtp_username: Option<String>,
    pub smtp_password: Option<String>,
}

/// Mail settings as plain character sequences.
pub struct MailSettingsView {
    pub from_name: Seq<char>,
    pub from_email: Seq<char>,
    pub to_name: Seq<char>,
    pub to_email: Seq<char>,
    pub smtp_hostname: Seq<char>,
    pub smtp_port: u16,
    pub smtp_username: Option<Seq<char>>,
    pub smtp_password: Option<Seq<char>>,
}

impl View for MailerConfiguration {
    type V = MailSettingsView;

    open spec fn view(&self) -> MailSettingsView {
        MailSettingsView {
            from_name: self.from_name@,
            from_email: self.from_email@,
            to_name: self.to_name@,
            to_email: self.to_email@,
            smtp_hostname: self.smtp_hostname@,
            smtp_port: self.smtp_port,
            smtp_username: self.smtp_username.deep_view(),
            smtp_password: self.smtp_password.deep_view(),
        }
    }
}

/// The first of the required variables that is not set, if any. The order is
/// sender name and address, recipient name and address, server name, port.
pub open spec fn first_missing(variables: Seq<(Seq<char>, Seq<char>)>, prefix: Seq<char>) -> Option<
    Seq<char>,
> {
    if lookup(variables, prefix + "FROM_NAME"@) is None {
        Some(prefix + "FROM_NAME"@)
    } else if lookup(variables, prefix + "FROM_EMAIL"@) is None {
        Some(prefix + "FROM_EMAIL"@)
    } else if lookup(variables, prefix + "TO_NAME"@) is None {
        Some(prefix + "TO_NAME"@)
    } else if lookup(variables, prefix + "TO_EMAIL"@) is None {
        Some(prefix + "TO_EMAIL"@)
    } else if lookup(variables, prefix + "SMTP_HOSTNAME"@) is None {
        Some(prefix + "SMTP_HOSTNAME"@)
    } else if lookup(variables, prefix + "SMTP_PORT"@) is None {
        Some(prefix + "SMTP_PORT"@)
    } else {
        None
    }
}

/// The mail settings that the variables whose names begin with `prefix` give.
///
/// The user name and the password are optional. Everything else is required,
/// and the port has to be a port number.
pub open spec fn settings_from(variables: Seq<(Seq<char>, Seq<char>)>, prefix: Seq<char>) -> Result<
    MailSettingsView,
    ConfigurationErrorView,
> {
    match first_missing(variables, prefix) {
        Some(name) => Err(ConfigurationErrorView::Missing(name)),
        None => {
            let port = lookup(variables, prefix + "SMTP_PORT"@)->0;
            match port_of(port) {
                None => Err(ConfigurationErrorView::InvalidPort(port)),
                Some(smtp_port) => Ok(
                    MailSettingsView {
                        from_name: lookup(variables, prefix + "FROM_NAME"@)->0,
                        from_email: lookup(variables, prefix + "FROM_EMAIL"@)->0,
                        to_name: lookup(variables, prefix + "TO_NAME"@)->0,
                        to_email: lookup(variables, prefix + "TO_EMAIL"@)->0,
                        smtp_hostname: lookup(variables, prefix + "SMTP_HOSTNAME"@)->0,
                        smtp_port,
                        smtp_username: lookup(variables, prefix + "SMTP_USERNAME"@),
                        smtp_password: lookup(variables, prefix + "SMTP_PASSWORD"@),
                    },
                ),
            }
        },
    }
}

impl MailerConfiguration {
    /// Reads the settings from the variables whose names begin with `prefix`.
    pub fn load_with_prefix(environment: &Environment, prefix: &str) -> (loaded: Result<
        MailerConfiguration,
        ConfigurationError,
    >)
        ensures
            match settings_from(environment@, prefix@) {
                Ok(settings) => loaded matches Ok(c) && c@ == settings,
                Err(error) => loaded matches Err(e) && e@ == error,
            },
    {
        let from_name = match environment.required(prefix, "FROM_NAME") {
            Ok(value) => value,
            Err(error) => return Err(error),
        };
        let from_email = match environment.required(prefix, "FROM_EMAIL") {
            Ok(value) => value,
            Err(error) => return Err(error),
        };
        let to_name = match environment.required(prefix, "TO_NAME") {
            Ok(value) => value,
            Err(error) => return Err(error),
        };
        let to_email = match environment.required(prefix, "TO_EMAIL") {
            Ok(value) => value,
            Err(error) => return Err(error),
        };
        let smtp_hostname = match environment.required(prefix, "SMTP_HOSTNAME") {
            Ok(value) => value,
            Err(error) => return Err(error),
        };
        let port = match environment.required(prefix, "SMTP_PORT") {
            Ok(value) => value,
            Err(error) => return Err(error),
        };
        let smtp_port = match parse_port(port.as_str()) {
            Some(number) => number,
            None => return Err(ConfigurationError::InvalidPort(port)),
        };
        let smtp_username = environment.optional(prefix, "SMTP_USERNAME");
        let smtp_password = environment.optional(prefix, "SMTP_PASSWORD");
        Ok(
            MailerConfiguration {
                from_name,
                from_email,
                to_name,
                to_email,
                smtp_hostname,
                smtp_port,
                smtp_username,
                smtp_password,
            },
        )
    }

    /// Reads the settings from the variables `MORBO_FROM_NAME`,
    /// `MORBO_FROM_EMAIL`, `MORBO_TO_NAME`, `MORBO_TO_EMAIL`,
    /// `MORBO_SMTP_HOSTNAME`, `MORBO_SMTP_PORT` and, where they are set,
    /// `MORBO_SMTP_USERNAME` and `MORBO_SMTP_PASSWORD`.
    pub fn load_from_env(environment: &Environment) -> (loaded: Result<
        MailerConfiguration,
        ConfigurationError,
    >)
        ensures
            match settings_from(environment@, "MORBO_"@) {
                Ok(settings) => loaded matches Ok(c) && c@ == settings,
                Err(error) => loaded matches Err(e) && e@ == error,
            },
    {
        MailerConfiguration::load_with_prefix(environment, "MORBO_")
    }
}

} // verus!
