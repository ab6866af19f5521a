use macro_runner::diag::Diagnostic;
use macro_runner::plan::plan_attempts;
use macro_runner::plan::Attempt;

const DIR: &str = "/opt/macros";

#[test]
fn specific_script_launched_when_present() {
    // A known executable identity with an existing by-exe script wins.
    let (first, second) = plan_attempts(
        DIR,
        "volume-up",
        Ok("firefox".to_string()),
        true,
        true,
        true,
    );
    assert_eq!(
        first,
        Attempt::Launch { script: "/opt/macros/by-exe/firefox/volume-up.sh".to_string() }
    );
    assert_eq!(
        second,
        Attempt::Launch { script: "/opt/macros/default/volume-up.sh".to_string() }
    );
}

#[test]
fn default_fallback_when_no_specific_directory() {
    // No by-exe directory for the focused executable: fall through to the
    // default script, and diagnose the missing directory by executable name.
    let (first, second) = plan_attempts(
        DIR,
        "volume-up",
        Ok("firefox".to_string()),
        false,
        false,
        true,
    );
    assert_eq!(
        first,
        Attempt::Fail { diag: Diagnostic::NoMacroDirectory { exe: "firefox".to_string() } }
    );
    assert_eq!(
        second,
        Attempt::Launch { script: "/opt/macros/default/volume-up.sh".to_string() }
    );
}

#[test]
fn default_fallback_when_window_resolution_fails() {
    // The utility exited with code 3: the specific attempt is skipped with
    // that diagnostic, and the default script for "volume-up" still launches.
    let (first, second) = plan_attempts(
        DIR,
        "volume-up",
        Err(Diagnostic::UtilityExit { code: 3 }),
        false,
        false,
        true,
    );
    match first {
        Attempt::Fail { diag } => {
            assert_eq!(diag.message(), "xdotool exited with error code 3");
        }
        Attempt::Launch { .. } => panic!("window failure must not launch the specific attempt"),
    }
    assert_eq!(
        second,
        Attempt::Launch { script: "/opt/macros/default/volume-up.sh".to_string() }
    );
}

#[test]
fn total_failure_reports_both_paths() {
    // Neither candidate exists: both attempts fail, one diagnostic naming the
    // missing specific script and one naming the missing default script.
    let (first, second) = plan_attempts(
        DIR,
        "volume-up",
        Ok("firefox".to_string()),
        true,
        false,
        false,
    );
    match first {
        Attempt::Fail { diag } => {
            assert_eq!(diag.message(), "No script: /opt/macros/by-exe/firefox/volume-up.sh");
        }
        Attempt::Launch { .. } => panic!("missing script must not launch"),
    }
    match second {
        Attempt::Fail { diag } => {
            assert_eq!(diag.message(), "No default script: /opt/macros/default/volume-up.sh");
        }
        Attempt::Launch { .. } => panic!("missing default script must not launch"),
    }
}

#[test]
fn missing_file_diagnosed_by_file_not_directory() {
    // The by-exe directory exists but lacks the script: the diagnostic names
    // the missing file's path, not the directory.
    let (first, _) = plan_attempts(
        DIR,
        "volume-up",
        Ok("firefox".to_string()),
        true,
        false,
        true,
    );
    assert_eq!(
        first,
        Attempt::Fail {
            diag: Diagnostic::NoScript {
                path: "/opt/macros/by-exe/firefox/volume-up.sh".to_string(),
            },
        }
    );
}

#[test]
fn repeated_resolution_plans_identically() {
    // Unchanged observations plan the same attempts: nothing persists between
    // invocations.
    let once = plan_attempts(DIR, "volume-up", Ok("firefox".to_string()), true, true, true);
    let again = plan_attempts(DIR, "volume-up", Ok("firefox".to_string()), true, true, true);
    assert_eq!(once, again);
    let once = plan_attempts(DIR, "volume-up", Err(Diagnostic::UtilityNoExitCode), false, false, false);
    let again = plan_attempts(DIR, "volume-up", Err(Diagnostic::UtilityNoExitCode), false, false, false);
    assert_eq!(once, again);
}
