use morbo::csp::csp_report_content::CspReportContent;

#[test]
fn it_is_in_blocked_uri_filters() {
    let blocked_uri = "mxjscall://";
    let csp_c = CspReportContent::default(blocked_uri, "", "", "", "");
    assert_eq!(true, csp_c.is_in_blocked_uri_filters());
}

#[test]
fn it_is_not_in_blocked_uri_filters() {
    let blocked_uri = "https://fonts.googleapis.com";
    let csp_c = CspReportContent::default(blocked_uri, "", "", "", "");
    assert_eq!(false, csp_c.is_in_blocked_uri_filters());
}

#[test]
fn it_is_in_original_policy_filters() {
    let original_policy = ".blackspider.com";
    let csp_c = CspReportContent::default("", "", original_policy, "", "");
    assert_eq!(true, csp_c.is_in_original_policy_filters());
}

#[test]
fn it_is_not_in_original_policy_filters() {
    let original_policy = "https://fonts.googleapis.com";
    let csp_c = CspReportContent::default("", "", original_policy, "", "");
    assert_eq!(false, csp_c.is_in_original_policy_filters());
}

#[test]
fn it_is_in_referrer_filters() {
    let referrer = "http://l.facebook.com";
    let csp_c = CspReportContent::default("", "", "", referrer, "");
    assert_eq!(true, csp_c.is_in_referrer_filters());
}

#[test]
fn it_is_not_in_referrer_filters() {
    let referrer = "https://fonts.googleapis.com";
    let csp_c = CspReportContent::default("", "", "", referrer, "");
    assert_eq!(false, csp_c.is_in_referrer_filters());
}

#[test]
fn it_is_in_script_sample_filters() {
    let script_sample = "var BlockAdBlock = function";
    let mut csp_c = CspReportContent::default("", "", "", "", "");
    csp_c.script_sample = Some(String::from(script_sample));
    assert_eq!(true, csp_c.is_in_script_sample_filters());
}

#[test]
fn it_is_not_in_script_sample_filters() {
    let script_sample = "console.log('Rust is great!');'";
    let mut csp_c = CspReportContent::default("", "", "", "", "");
    csp_c.script_sample = Some(String::from(script_sample));
    assert_eq!(false, csp_c.is_in_script_sample_filters());
}

#[test]
fn it_is_in_source_file_filters() {
    let source_file = "chromenull://";
    let mut csp_c = CspReportContent::default("", "", "", "", "");
    csp_c.source_file = Some(String::from(source_file));
    assert_eq!(true, csp_c.is_in_source_file_filters());
}

#[test]
fn it_is_not_in_source_file_filters() {
    let source_file = "fonts.googleapis.com";
    let mut csp_c = CspReportContent::default("", "", "", "", "");
    csp_c.source_file = Some(String::from(source_file));
    assert_eq!(false, csp_c.is_in_source_file_filters());
}
