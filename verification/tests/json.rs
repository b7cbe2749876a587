use morbo::csp::csp_report_content::CspReportContent;
use morbo::json::pretty;

fn member(name: &str, value: Option<&str>) -> (String, Option<String>) {
    (name.to_string(), value.map(|text| text.to_string()))
}

#[test]
fn pretty_prints_members_in_order_with_null_for_absent() {
    let text = pretty(vec![member("b", Some("x")), member("a", None)]).unwrap();
    assert_eq!(text, "{\n  \"b\": \"x\",\n  \"a\": null\n}");
}

#[test]
fn pretty_prints_the_empty_object() {
    assert_eq!(pretty(Vec::new()).unwrap(), "{}");
}

#[test]
fn pretty_escapes_strings() {
    let text = pretty(vec![member("k\"", Some("line\nbreak \\ \"q\" \u{1} é"))]).unwrap();
    assert_eq!(text, "{\n  \"k\\\"\": \"line\\nbreak \\\\ \\\"q\\\" \\u0001 é\"\n}");
}

#[test]
fn report_is_written_with_every_field_in_declaration_order() {
    let report = CspReportContent::default(
        "https://evil.example/x.js",
        "https://example.com",
        "default-src 'self'",
        "https://example.com",
        "script-src",
    );
    let expected = "{\n  \"blocked_uri\": \"https://evil.example/x.js\",\n  \"disposition\": null,\n  \"document_uri\": \"https://example.com\",\n  \"effective_directive\": null,\n  \"original_policy\": \"default-src 'self'\",\n  \"referrer\": \"https://example.com\",\n  \"script_sample\": null,\n  \"status_code\": null,\n  \"source_file\": null,\n  \"violated_directive\": \"script-src\"\n}";
    assert_eq!(report.to_json_pretty().unwrap(), expected);
}

#[test]
fn report_is_written_with_its_optional_fields() {
    let mut report = CspReportContent::default("b", "d", "o", "r", "v");
    report.disposition = Some(String::from("enforce"));
    report.effective_directive = Some(String::from("style-src-elem"));
    report.script_sample = Some(String::from("alert(\"x\")"));
    report.status_code = Some(String::from("200"));
    report.source_file = Some(String::from("https://example.com/a.js"));
    let expected = "{\n  \"blocked_uri\": \"b\",\n  \"disposition\": \"enforce\",\n  \"document_uri\": \"d\",\n  \"effective_directive\": \"style-src-elem\",\n  \"original_policy\": \"o\",\n  \"referrer\": \"r\",\n  \"script_sample\": \"alert(\\\"x\\\")\",\n  \"status_code\": \"200\",\n  \"source_file\": \"https://example.com/a.js\",\n  \"violated_directive\": \"v\"\n}";
    assert_eq!(report.to_json_pretty().unwrap(), expected);
}

#[test]
fn json_members_list_the_ten_fields() {
    let mut report = CspReportContent::default("b", "d", "o", "r", "v");
    report.status_code = Some(String::from("0"));
    let members = report.json_members();
    assert_eq!(
        members,
        vec![
            member("blocked_uri", Some("b")),
            member("disposition", None),
            member("document_uri", Some("d")),
            member("effective_directive", None),
            member("original_policy", Some("o")),
            member("referrer", Some("r")),
            member("script_sample", None),
            member("status_code", Some("0")),
            member("source_file", None),
            member("violated_directive", Some("v")),
        ]
    );
}
