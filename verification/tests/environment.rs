use morbo::channel::mailer::Mailer;
use morbo::channel::sentry::Sentry;
use morbo::environment::parse_port;
use morbo::environment::ConfigurationError;
use morbo::environment::Environment;
use morbo::mail::mailer_configuration::MailerConfiguration;

fn environment(variables: &[(&str, &str)]) -> Environment {
    Environment::new(
        variables.iter().map(|(name, value)| (name.to_string(), value.to_string())).collect(),
    )
}

fn mailer_variables(prefix: &str) -> Vec<(String, String)> {
    [
        ("FROM_NAME", "CSP Collector"),
        ("FROM_EMAIL", "csp@example.org"),
        ("TO_NAME", "Operator"),
        ("TO_EMAIL", "ops@example.org"),
        ("SMTP_HOSTNAME", "localhost"),
        ("SMTP_PORT", "1025"),
        ("SMTP_USERNAME", "user"),
        ("SMTP_PASSWORD", "secret"),
    ]
    .iter()
    .map(|(name, value)| (format!("{}{}", prefix, name), value.to_string()))
    .collect()
}

fn without(variables: Vec<(String, String)>, name: &str) -> Environment {
    Environment::new(variables.into_iter().filter(|(n, _)| n != name).collect())
}

#[test]
fn parse_port_reads_decimal_numbers() {
    assert_eq!(parse_port("0"), Some(0));
    assert_eq!(parse_port("25"), Some(25));
    assert_eq!(parse_port("8080"), Some(8080));
    assert_eq!(parse_port("65535"), Some(65535));
    assert_eq!(parse_port("00080"), Some(80));
    assert_eq!(parse_port("+587"), Some(587));
    assert_eq!(parse_port("0000000000000000000000000000000000000001"), Some(1));
}

#[test]
fn parse_port_refuses_everything_else() {
    assert_eq!(parse_port(""), None);
    assert_eq!(parse_port("+"), None);
    assert_eq!(parse_port("-1"), None);
    assert_eq!(parse_port("++1"), None);
    assert_eq!(parse_port("65536"), None);
    assert_eq!(parse_port("99999999999999999999999"), None);
    assert_eq!(parse_port(" 25"), None);
    assert_eq!(parse_port("25 "), None);
    assert_eq!(parse_port("2 5"), None);
    assert_eq!(parse_port("1_000"), None);
    assert_eq!(parse_port("0x19"), None);
    assert_eq!(parse_port("25.0"), None);
    assert_eq!(parse_port("٢٥"), None);
    assert_eq!(parse_port("2é"), None);
    assert_eq!(parse_port("655350"), None);
}

#[test]
fn parse_port_agrees_with_the_standard_parser() {
    let samples = [
        "", "+", "-", "0", "+0", "-0", "7", "65535", "65536", "+65535", "+65536", "070000", "12a",
        "a12", "1 2", "\t1", "１２", "4294967296", "18446744073709551617",
    ];
    for sample in samples {
        assert_eq!(parse_port(sample), sample.parse::<u16>().ok(), "{:?}", sample);
    }
}

#[test]
fn var_finds_the_first_value_of_a_name() {
    let env = environment(&[("A", "1"), ("B", "2"), ("A", "3")]);
    assert_eq!(env.var("A"), Some(&String::from("1")));
    assert_eq!(env.var("B"), Some(&String::from("2")));
    assert_eq!(env.var("C"), None);
    assert_eq!(env.var("a"), None);
    assert_eq!(env.var(""), None);
    assert_eq!(environment(&[]).var("A"), None);
}

#[test]
fn mailer_is_loaded_from_its_variables() {
    let mailer = Mailer::load_from_env(&Environment::new(mailer_variables("MORBO_MAILER_"))).unwrap();
    assert_eq!(mailer.from_name, "CSP Collector");
    assert_eq!(mailer.from_email, "csp@example.org");
    assert_eq!(mailer.to_name, "Operator");
    assert_eq!(mailer.to_email, "ops@example.org");
    assert_eq!(mailer.smtp_hostname, "localhost");
    assert_eq!(mailer.smtp_port, 1025);
    assert_eq!(mailer.smtp_username, Some(String::from("user")));
    assert_eq!(mailer.smtp_password, Some(String::from("secret")));
}

#[test]
fn mailer_does_not_read_the_configuration_variables() {
    let loaded = Mailer::load_from_env(&Environment::new(mailer_variables("MORBO_")));
    assert_eq!(
        loaded.err(),
        Some(ConfigurationError::Missing(String::from("MORBO_MAILER_FROM_NAME")))
    );
}

#[test]
fn mailer_configuration_is_loaded_from_its_variables() {
    let configuration =
        MailerConfiguration::load_from_env(&Environment::new(mailer_variables("MORBO_"))).unwrap();
    assert_eq!(configuration.from_name, "CSP Collector");
    assert_eq!(configuration.from_email, "csp@example.org");
    assert_eq!(configuration.to_name, "Operator");
    assert_eq!(configuration.to_email, "ops@example.org");
    assert_eq!(configuration.smtp_hostname, "localhost");
    assert_eq!(configuration.smtp_port, 1025);
    assert_eq!(configuration.smtp_username, Some(String::from("user")));
    assert_eq!(configuration.smtp_password, Some(String::from("secret")));
}

#[test]
fn configuration_can_be_loaded_under_any_prefix() {
    let configuration =
        MailerConfiguration::load_with_prefix(&Environment::new(mailer_variables("X_")), "X_")
            .unwrap();
    assert_eq!(configuration.smtp_port, 1025);
    assert_eq!(configuration.to_email, "ops@example.org");
}

#[test]
fn the_first_missing_variable_is_reported() {
    let names = ["FROM_NAME", "FROM_EMAIL", "TO_NAME", "TO_EMAIL", "SMTP_HOSTNAME", "SMTP_PORT"];
    for name in names {
        let full = format!("MORBO_{}", name);
        let loaded = MailerConfiguration::load_from_env(&without(mailer_variables("MORBO_"), &full));
        assert_eq!(loaded.err(), Some(ConfigurationError::Missing(full)));
    }
    let loaded = MailerConfiguration::load_from_env(&environment(&[("MORBO_SMTP_PORT", "x")]));
    assert_eq!(loaded.err(), Some(ConfigurationError::Missing(String::from("MORBO_FROM_NAME"))));
}

#[test]
fn user_name_and_password_are_optional() {
    let env = without(mailer_variables("MORBO_MAILER_"), "MORBO_MAILER_SMTP_USERNAME");
    let mailer = Mailer::load_from_env(&env).unwrap();
    assert_eq!(mailer.smtp_username, None);
    assert_eq!(mailer.smtp_password, Some(String::from("secret")));
    let env = without(mailer_variables("MORBO_MAILER_"), "MORBO_MAILER_SMTP_PASSWORD");
    let mailer = Mailer::load_from_env(&env).unwrap();
    assert_eq!(mailer.smtp_username, Some(String::from("user")));
    assert_eq!(mailer.smtp_password, None);
}

#[test]
fn a_port_that_is_no_number_is_reported() {
    let mut variables = without(mailer_variables("MORBO_MAILER_"), "MORBO_MAILER_SMTP_PORT").variables;
    variables.push((String::from("MORBO_MAILER_SMTP_PORT"), String::from("70000")));
    let loaded = Mailer::load_from_env(&Environment::new(variables));
    assert_eq!(loaded.err(), Some(ConfigurationError::InvalidPort(String::from("70000"))));
}

#[test]
fn sentry_is_loaded_from_its_variable() {
    let sentry =
        Sentry::load_from_env(&environment(&[("MORBO_SENTRY_DSN", "https://key@host/1")])).unwrap();
    assert_eq!(sentry.dsn, "https://key@host/1");
}

#[test]
fn sentry_needs_its_variable() {
    let loaded = Sentry::load_from_env(&environment(&[("MORBO_SENTRY", "x")]));
    assert_eq!(loaded.err(), Some(ConfigurationError::Missing(String::from("MORBO_SENTRY_DSN"))));
}

#[test]
fn required_and_optional_join_prefix_and_suffix() {
    let env = environment(&[("APP_NAME", "collector")]);
    assert_eq!(env.required("APP_", "NAME"), Ok(String::from("collector")));
    assert_eq!(env.optional("APP_", "NAME"), Some(String::from("collector")));
    assert_eq!(env.required("APP_", "PORT"), Err(ConfigurationError::Missing(String::from("APP_PORT"))));
    assert_eq!(env.optional("APP_", "PORT"), None);
    assert_eq!(env.optional("APP", "_NAME"), Some(String::from("collector")));
}
