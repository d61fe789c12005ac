use rust_rebar3_cmd::reporter::{
    failure_line, report_line, value_line, LookupFailure, LOOKUP_KEY,
};

fn found(value: &str) -> Result<String, LookupFailure> {
    Ok(String::from(value))
}

#[test]
fn lookup_key_is_path() {
    assert_eq!(LOOKUP_KEY, "PATH");
}

#[test]
fn present_value_is_labelled_and_quoted() {
    let line = report_line("PATH", &found("/usr/bin:/bin"));
    assert_eq!(line, "PATH: \"/usr/bin:/bin\"");
}

#[test]
fn present_value_under_the_fixed_key() {
    let line = report_line(LOOKUP_KEY, &found("/opt/tools/bin"));
    assert_eq!(line, "PATH: \"/opt/tools/bin\"");
}

#[test]
fn empty_value_is_reported_as_empty_quotes() {
    assert_eq!(report_line("PATH", &found("")), "PATH: \"\"");
}

#[test]
fn whitespace_and_control_characters_are_made_visible() {
    let line = report_line("LINES", &found("a\tb\nc\r"));
    assert_eq!(line, "LINES: \"a\\tb\\nc\\r\"");
    assert!(!line.contains('\n'));
    assert!(!line.contains('\t'));
}

#[test]
fn quotes_and_backslashes_in_a_value_are_escaped() {
    let line = report_line("GREETING", &found("say \"hi\" \\ bye"));
    assert_eq!(line, "GREETING: \"say \\\"hi\\\" \\\\ bye\"");
}

#[test]
fn spaces_inside_a_value_stay_inside_the_quotes() {
    let line = report_line("HOME", &found("/home/some user "));
    assert_eq!(line, "HOME: \"/home/some user \"");
}

#[test]
fn non_ascii_text_is_kept_as_it_is() {
    let line = report_line("CITY", &found("Zürich"));
    assert_eq!(line, "CITY: \"Zürich\"");
}

#[test]
fn quoted_value_differs_from_the_raw_value() {
    let line = report_line("PATH", &found("/bin"));
    assert_ne!(line, "PATH: /bin");
    assert!(line.ends_with("\"/bin\""));
}

#[test]
fn unset_key_is_reported_with_key_and_reason() {
    let outcome: Result<String, LookupFailure> = Err(LookupFailure::NotPresent);
    let line = report_line("PATH", &outcome);
    assert_eq!(line, "couldn't interpret PATH: environment variable not found");
}

#[test]
fn unset_key_line_names_the_key_and_holds_no_value() {
    let outcome: Result<String, LookupFailure> = Err(LookupFailure::NotPresent);
    let line = report_line("NO_SUCH_VARIABLE", &outcome);
    assert!(line.contains("NO_SUCH_VARIABLE"));
    assert!(!line.contains('"'));
    assert_eq!(line.len(), "NO_SUCH_VARIABLE".len() + 51);
    assert_eq!(&line[19..19 + "NO_SUCH_VARIABLE".len()], "NO_SUCH_VARIABLE");
}

#[test]
fn value_that_is_not_unicode_is_reported_with_its_rendering() {
    let outcome: Result<String, LookupFailure> =
        Err(LookupFailure::NotUnicode(String::from("\"fo\\x80o\"")));
    let line = report_line("PATH", &outcome);
    assert_eq!(
        line,
        "couldn't interpret PATH: environment variable was not valid unicode: \"fo\\x80o\""
    );
}

#[test]
fn every_outcome_gives_one_line_of_its_kind() {
    let outcomes: Vec<Result<String, LookupFailure>> = vec![
        found("/usr/bin"),
        found(""),
        found("couldn't interpret PATH: "),
        Err(LookupFailure::NotPresent),
        Err(LookupFailure::NotUnicode(String::from("\"\\xff\""))),
    ];
    for outcome in outcomes.iter() {
        let line = report_line("PATH", outcome);
        assert!(!line.contains('\n'));
        assert_eq!(outcome.is_ok(), line.starts_with("PATH: "));
        assert_eq!(outcome.is_err(), line.starts_with("couldn't interpret PATH: "));
    }
}

#[test]
fn line_kinds_stay_apart_for_a_key_that_repeats_the_opening() {
    let key = "couldn't interpret couldn't interpret ";
    let value_report = report_line(key, &found("x"));
    let failure_report = report_line(key, &Err(LookupFailure::NotPresent));
    let value_opening = format!("{}: ", key);
    let failure_opening = format!("couldn't interpret {}: ", key);
    assert!(value_report.starts_with(&value_opening));
    assert!(!value_report.starts_with(&failure_opening));
    assert!(failure_report.starts_with(&failure_opening));
    assert!(!failure_report.starts_with(&value_opening));
}

#[test]
fn different_values_give_different_lines() {
    assert_ne!(report_line("PATH", &found("/bin")), report_line("PATH", &found("/bin ")));
}

#[test]
fn value_line_joins_key_and_quoted_text() {
    assert_eq!(value_line("PATH", "\"/bin\""), "PATH: \"/bin\"");
    assert_eq!(value_line("", ""), ": ");
}

#[test]
fn failure_line_joins_opening_key_and_reason() {
    assert_eq!(
        failure_line("HOME", &LookupFailure::NotPresent),
        "couldn't interpret HOME: environment variable not found"
    );
    assert_eq!(
        failure_line("", &LookupFailure::NotUnicode(String::new())),
        "couldn't interpret : environment variable was not valid unicode: "
    );
}

#[test]
fn failures_are_described_in_words() {
    assert_eq!(LookupFailure::NotPresent.describe(), "environment variable not found");
    assert_eq!(
        LookupFailure::NotUnicode(String::from("\"\\xC3\"")).describe(),
        "environment variable was not valid unicode: \"\\xC3\""
    );
}
