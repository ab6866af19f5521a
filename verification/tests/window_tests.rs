use macro_runner::diag::Diagnostic;
use macro_runner::window::link_target_base;
use macro_runner::window::utility_outcome;

#[test]
fn successful_query_yields_trimmed_pid() {
    let r = utility_outcome(true, Some(0), Some(" 1234\n"));
    assert_eq!(r.unwrap(), "1234");
}

#[test]
fn reported_exit_code_becomes_diagnostic() {
    let r = utility_outcome(false, Some(3), Some("ignored"));
    assert_eq!(r.unwrap_err(), Diagnostic::UtilityExit { code: 3 });
}

#[test]
fn unreported_exit_code_becomes_diagnostic() {
    let r = utility_outcome(false, None, Some("ignored"));
    assert_eq!(r.unwrap_err(), Diagnostic::UtilityNoExitCode);
}

#[test]
fn non_text_output_becomes_diagnostic() {
    let r = utility_outcome(true, Some(0), None);
    assert_eq!(r.unwrap_err(), Diagnostic::UtilityOutputNotText);
}

#[test]
fn link_target_yields_executable_name() {
    let r = link_target_base(Some("/usr/lib/firefox/firefox"));
    assert_eq!(r.unwrap(), "firefox");
}

#[test]
fn non_text_link_target_becomes_diagnostic() {
    let r = link_target_base(None);
    assert_eq!(r.unwrap_err(), Diagnostic::NameNotText);
}

#[test]
fn link_target_without_base_name_becomes_diagnostic() {
    let r = link_target_base(Some("/usr/lib/"));
    assert_eq!(r.unwrap_err(), Diagnostic::NoBaseName);
    let r = link_target_base(Some(""));
    assert_eq!(r.unwrap_err(), Diagnostic::NoBaseName);
}
