//! Settings of the e-mail channel.

pub mod mailer_configuration;
