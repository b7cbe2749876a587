use morbo::args::Args;
use morbo::args::LogLevel;
use morbo::channel::mailer::built_email;
use morbo::channel::mailer::write_report_email;
use morbo::channel::mailer::Authentication;
use morbo::channel::mailer::EmailMessage;
use morbo::channel::mailer::MailError;
use morbo::channel::mailer::Mailbox;
use morbo::channel::mailer::Mailer;
use morbo::channel::mailer::Mechanism;
use morbo::channel::mailer::TransportSettings;
use morbo::channel::sentry::write_report_alert;
use morbo::channel::sentry::Alert;
use morbo::channel::sentry::Level;
use morbo::channel::sentry::Sentry;
use morbo::csp::csp_report::CspReport;
use morbo::csp::csp_report_content::CspReportContent;
use morbo::mail::mailer_configuration::MailerConfiguration;
use morbo::mail_configuration::MailConfiguration;

const JSON: &str = "{\n  \"blocked_uri\": \"https://evil.example/x.js\",\n  \"disposition\": null,\n  \"document_uri\": \"https://example.com\",\n  \"effective_directive\": null,\n  \"original_policy\": \"default-src 'self'\",\n  \"referrer\": \"https://example.com\",\n  \"script_sample\": null,\n  \"status_code\": null,\n  \"source_file\": null,\n  \"violated_directive\": \"script-src\"\n}";

fn report() -> CspReportContent {
    CspReportContent::default(
        "https://evil.example/x.js",
        "https://example.com",
        "default-src 'self'",
        "https://example.com",
        "script-src",
    )
}

fn configuration() -> MailerConfiguration {
    MailerConfiguration {
        from_name: String::from("CSP Collector"),
        from_email: String::from("csp@example.org"),
        to_name: String::from("Operator"),
        to_email: String::from("ops@example.org"),
        smtp_hostname: String::from("smtp.example.org"),
        smtp_port: 587,
        smtp_username: Some(String::from("user")),
        smtp_password: Some(String::from("secret")),
    }
}

fn mailbox(address: &str, name: &str) -> Mailbox {
    Mailbox { address: String::from(address), name: String::from(name) }
}

#[test]
fn max_level_prefers_debug_over_verbose() {
    let level = |verbose, debug| Args { port: 8080, verbose, debug }.max_level();
    assert_eq!(level(false, false), LogLevel::Warn);
    assert_eq!(level(true, false), LogLevel::Info);
    assert_eq!(level(false, true), LogLevel::Debug);
    assert_eq!(level(true, true), LogLevel::Debug);
}

#[test]
fn mail_configuration_holds_what_it_is_given() {
    let configuration = MailConfiguration::new(
        String::from("Operator"),
        String::from("ops@example.org"),
        String::from("smtp.example.org"),
        String::from("user"),
        String::from("secret"),
    );
    assert_eq!(configuration.to_name, "Operator");
    assert_eq!(configuration.to_email, "ops@example.org");
    assert_eq!(configuration.smtp_server, "smtp.example.org");
    assert_eq!(configuration.smtp_username, "user");
    assert_eq!(configuration.smtp_password, "secret");
}

#[test]
fn mailer_takes_over_its_configuration() {
    let mailer = Mailer::new(configuration());
    assert_eq!(mailer.from_name, "CSP Collector");
    assert_eq!(mailer.from_email, "csp@example.org");
    assert_eq!(mailer.to_name, "Operator");
    assert_eq!(mailer.to_email, "ops@example.org");
    assert_eq!(mailer.smtp_hostname, "smtp.example.org");
    assert_eq!(mailer.smtp_port, 587);
    assert_eq!(mailer.smtp_username, Some(String::from("user")));
    assert_eq!(mailer.smtp_password, Some(String::from("secret")));
}

#[test]
fn transport_logs_in_when_user_name_and_password_are_set() {
    let settings = Mailer::new(configuration()).get_transport();
    assert_eq!(
        settings,
        TransportSettings {
            hostname: String::from("smtp.example.org"),
            port: 587,
            encrypted: false,
            authentication: Some(Authentication {
                username: String::from("user"),
                password: String::from("secret"),
                mechanism: Mechanism::Plain,
            }),
        }
    );
}

#[test]
fn transport_does_not_log_in_without_both_user_name_and_password() {
    let expected = TransportSettings {
        hostname: String::from("smtp.example.org"),
        port: 587,
        encrypted: false,
        authentication: None,
    };
    let mut mailer = Mailer::new(configuration());
    mailer.smtp_password = None;
    assert_eq!(mailer.get_transport(), expected);
    mailer.smtp_username = None;
    assert_eq!(mailer.get_transport(), expected);
    mailer.smtp_password = Some(String::from("secret"));
    assert_eq!(mailer.get_transport(), expected);
}

#[test]
fn report_email_has_the_fixed_subject_and_the_json_in_its_body() {
    let message = write_report_email(mailbox("a@example.org", "A"), mailbox("b@example.org", "B"), "{}");
    assert_eq!(
        message,
        EmailMessage {
            from: mailbox("a@example.org", "A"),
            to: mailbox("b@example.org", "B"),
            subject: String::from("[CSP] New report"),
            body: String::from("New report {}"),
        }
    );
}

#[test]
fn mailer_composes_the_email_for_a_report() {
    let message = Mailer::new(configuration()).compose(&report()).unwrap();
    assert_eq!(message.from, mailbox("csp@example.org", "CSP Collector"));
    assert_eq!(message.to, mailbox("ops@example.org", "Operator"));
    assert_eq!(message.subject, "[CSP] New report");
    assert_eq!(message.body, format!("New report {}", JSON));
    assert_eq!(message, Mailer::new(configuration()).email_with_json(JSON));
}

#[test]
fn report_email_for_a_mail_configuration_comes_from_the_collector() {
    let configuration = MailConfiguration::new(
        String::from("Operator"),
        String::from("ops@example.org"),
        String::from("smtp.example.org"),
        String::from("user"),
        String::from("secret"),
    );
    let message = report().email_for(&configuration).unwrap();
    assert_eq!(message.from, mailbox("csp@example.org", "CSP Report"));
    assert_eq!(message.to, mailbox("ops@example.org", "Operator"));
    assert_eq!(message.subject, "[CSP] New report");
    assert_eq!(message.body, format!("New report {}", JSON));
}

#[test]
fn email_is_built_for_valid_addresses() {
    assert!(Mailer::new(configuration()).build_email(&report()).is_ok());
}

#[test]
fn email_with_an_invalid_address_is_rejected() {
    let mut mailer = Mailer::new(configuration());
    mailer.to_email = String::from("not an address");
    assert_eq!(mailer.build_email(&report()).err(), Some(MailError::Rejected));
}

#[test]
fn built_email_passes_the_email_on() {
    let email = Mailer::new(configuration()).build_email(&report()).unwrap();
    let copy = email.clone();
    assert_eq!(built_email(Ok(email)).ok(), Some(copy));
}

#[test]
fn report_alert_names_the_page_and_carries_the_json() {
    assert_eq!(
        write_report_alert("https://example.com", "{}"),
        Alert { message: String::from("CSP alert from https://example.com\n{}"), level: Level::Info }
    );
}

#[test]
fn sentry_composes_the_alert_for_a_report() {
    let sentry = Sentry { dsn: String::from("https://key@host/1") };
    let alert = sentry.compose(&report()).unwrap();
    assert_eq!(alert.level, Level::Info);
    assert_eq!(alert.message, format!("CSP alert from https://example.com\n{}", JSON));
}

#[test]
fn report_document_holds_one_report() {
    let document = CspReport { csp_report: report() };
    assert_eq!(document.csp_report.blocked_uri, "https://evil.example/x.js");
}
