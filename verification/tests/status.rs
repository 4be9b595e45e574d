use claude_cli::invocation::{InvocationOutcome, InvocationRequest};
use claude_cli::status::{
    find_account, is_authenticated, login_status_from, text_denies_login, AuthStatus, Probe,
    StepFailed, CLI_TIMEOUT_SECS,
};
use claude_cli::tool::Tool;

fn agent() -> Tool {
    Tool::new("agent".to_string(), "Agent".to_string())
}

fn completed(exit_success: bool, stdout: &str, stderr: &str) -> InvocationOutcome {
    InvocationOutcome::Completed {
        exit_success,
        stdout: stdout.to_string(),
        stderr: stderr.to_string(),
    }
}

fn spawn_failed(reason: &str, not_found: bool) -> InvocationOutcome {
    InvocationOutcome::SpawnFailed { reason: reason.to_string(), not_found }
}

fn check(version: InvocationOutcome, login: InvocationOutcome) -> AuthStatus {
    let tool = agent();
    let probe = Probe::start().advance(&tool, version);
    let probe = if probe.pending(&tool).is_some() { probe.advance(&tool, login) } else { probe };
    probe.status().unwrap()
}

fn well_formed(status: &AuthStatus) -> bool {
    (status.installed || (!status.authenticated && status.account.is_none()))
        && (status.step_failed.is_none() || status.error.is_some())
}

fn args_of(request: &InvocationRequest) -> Vec<&str> {
    request.args().iter().map(|a| a.as_str()).collect()
}

#[test]
fn the_timeout_is_ten_seconds() {
    assert_eq!(CLI_TIMEOUT_SECS, 10);
}

#[test]
fn step_tags() {
    assert_eq!(StepFailed::VersionCheck.tag(), "version_check");
    assert_eq!(StepFailed::VersionCheckTimeout.tag(), "version_check_timeout");
    assert_eq!(StepFailed::AuthCheck.tag(), "auth_check");
    assert_eq!(StepFailed::AuthCheckTimeout.tag(), "auth_check_timeout");
}

#[test]
fn the_probe_begins_with_the_version_query() {
    let probe = Probe::start();
    assert_eq!(probe, Probe::Version);
    let request = probe.pending(&agent()).unwrap();
    assert_eq!(request.command(), "agent");
    assert_eq!(args_of(&request), vec!["--version"]);
    assert_eq!(request.timeout_secs(), Some(10));
    assert_eq!(probe.status(), None);
}

#[test]
fn the_login_query_follows_a_version_that_was_told() {
    let probe = Probe::start().advance(&agent(), completed(true, "2.1.0 (Agent)\n", ""));
    assert_eq!(probe, Probe::Login);
    let request = probe.pending(&agent()).unwrap();
    assert_eq!(request.command(), "agent");
    assert_eq!(args_of(&request), vec!["auth", "status"]);
    assert_eq!(request.timeout_secs(), Some(10));
    assert_eq!(probe.status(), None);
}

#[test]
fn scenario_tool_absent() {
    let reason = "Failed to spawn agent process: No such file or directory (os error 2)";
    let probe = Probe::start().advance(&agent(), spawn_failed(reason, true));
    assert!(probe.pending(&agent()).is_none());
    assert_eq!(
        probe.status(),
        Some(AuthStatus {
            installed: false,
            authenticated: false,
            account: None,
            error: Some(reason.to_string()),
            step_failed: Some(StepFailed::VersionCheck),
        })
    );
}

#[test]
fn scenario_not_logged_in() {
    let status = check(completed(true, "2.1.0\n", ""), completed(true, "Not logged in.\n", ""));
    assert_eq!(
        status,
        AuthStatus {
            installed: true,
            authenticated: false,
            account: None,
            error: None,
            step_failed: None,
        }
    );
}

#[test]
fn scenario_authenticated() {
    let status = check(
        completed(true, "2.1.0\n", ""),
        completed(true, "Logged in as user@example.com\n", ""),
    );
    assert_eq!(
        status,
        AuthStatus {
            installed: true,
            authenticated: true,
            account: Some("Logged in as user@example.com".to_string()),
            error: None,
            step_failed: None,
        }
    );
}

#[test]
fn a_version_query_that_times_out_ends_the_probe() {
    let probe = Probe::start().advance(&agent(), InvocationOutcome::TimedOut);
    assert_eq!(
        probe.status(),
        Some(AuthStatus {
            installed: false,
            authenticated: false,
            account: None,
            error: Some("Agent CLI timed out after 10 seconds".to_string()),
            step_failed: Some(StepFailed::VersionCheckTimeout),
        })
    );
}

#[test]
fn a_version_query_that_fails_means_absent_without_error() {
    let probe = Probe::start().advance(&agent(), completed(false, "", "agent: unknown option\n"));
    assert!(probe.pending(&agent()).is_none());
    assert_eq!(
        probe.status(),
        Some(AuthStatus {
            installed: false,
            authenticated: false,
            account: None,
            error: None,
            step_failed: None,
        })
    );
}

#[test]
fn a_login_query_that_cannot_start_leaves_the_tool_installed() {
    let status = check(completed(true, "2.1.0\n", ""), spawn_failed("Failed to spawn agent process: busy", false));
    assert_eq!(
        status,
        AuthStatus {
            installed: true,
            authenticated: false,
            account: None,
            error: Some("Failed to spawn agent process: busy".to_string()),
            step_failed: Some(StepFailed::AuthCheck),
        }
    );
}

#[test]
fn a_login_query_that_times_out_leaves_the_tool_installed() {
    let status = check(completed(true, "2.1.0\n", ""), InvocationOutcome::TimedOut);
    assert_eq!(
        status,
        AuthStatus {
            installed: true,
            authenticated: false,
            account: None,
            error: Some("Agent CLI timed out after 10 seconds".to_string()),
            step_failed: Some(StepFailed::AuthCheckTimeout),
        }
    );
}

#[test]
fn a_login_query_that_fails_shows_no_login() {
    let status = check(completed(true, "2.1.0\n", ""), completed(false, "user@example.com\n", ""));
    assert_eq!(
        status,
        AuthStatus {
            installed: true,
            authenticated: false,
            account: None,
            error: None,
            step_failed: None,
        }
    );
}

#[test]
fn a_login_without_account_line_has_no_account() {
    let status = check(completed(true, "2.1.0\n", ""), completed(true, "Logged in\nPlan: pro\n", ""));
    assert_eq!(
        status,
        AuthStatus {
            installed: true,
            authenticated: true,
            account: None,
            error: None,
            step_failed: None,
        }
    );
}

#[test]
fn a_denial_on_the_error_stream_counts() {
    let status = check(
        completed(true, "2.1.0\n", ""),
        completed(true, "user@example.com\n", "warning: NO ACTIVE ACCOUNT\n"),
    );
    assert!(status.installed);
    assert!(!status.authenticated);
    assert_eq!(status.account, None);
    assert_eq!(status.error, None);
}

#[test]
fn a_finished_probe_stays_as_it_is() {
    let done = Probe::start().advance(&agent(), InvocationOutcome::TimedOut);
    let again = done.clone().advance(&agent(), completed(true, "user@example.com", ""));
    assert_eq!(again, done);
}

#[test]
fn the_probe_ends_within_two_runs() {
    let outcomes = vec![
        completed(true, "ok user@example.com\n", ""),
        completed(false, "", "bad\n"),
        spawn_failed("r", true),
        spawn_failed("r", false),
        InvocationOutcome::TimedOut,
    ];
    for version in &outcomes {
        for login in &outcomes {
            let probe = Probe::start().advance(&agent(), version.clone()).advance(&agent(), login.clone());
            assert!(probe.pending(&agent()).is_none());
            let status = probe.status().unwrap();
            assert!(well_formed(&status), "{:?}", status);
            assert_eq!(status.error.is_some(), status.step_failed.is_some());
            assert!(status.account.is_none() || status.authenticated);
        }
    }
}

#[test]
fn the_same_outcomes_give_the_same_status() {
    let version = completed(true, "2.1.0\n", "");
    let login = completed(true, "Account: user@example.com\nPlan: max\n", "");
    let first = check(version.clone(), login.clone());
    let second = check(version, login);
    assert_eq!(first, second);
    assert_eq!(first.account, Some("Account: user@example.com".to_string()));
}

#[test]
fn denial_phrases_in_any_case() {
    assert!(text_denies_login("Not logged in."));
    assert!(text_denies_login("error: NOT LOGGED IN"));
    assert!(text_denies_login("You have no active account"));
    assert!(text_denies_login("No Active Account found\n"));
    assert!(text_denies_login("first line\nnot logged in\nlast line"));
    assert!(!text_denies_login("Logged in as user@example.com"));
    assert!(!text_denies_login("not logged\nin"));
    assert!(!text_denies_login("no active accounts".strip_suffix("accounts").unwrap()));
    assert!(!text_denies_login(""));
}

#[test]
fn authentication_needs_success_and_no_denial() {
    assert!(is_authenticated(true, "Logged in as user@example.com", ""));
    assert!(is_authenticated(true, "", ""));
    assert!(!is_authenticated(false, "Logged in as user@example.com", ""));
    assert!(!is_authenticated(true, "Not logged in.", ""));
    assert!(!is_authenticated(true, "", "not logged in"));
    assert!(!is_authenticated(true, "No active account", ""));
    assert!(!is_authenticated(true, "", "NO ACTIVE ACCOUNT"));
    assert!(!is_authenticated(false, "not logged in", "no active account"));
}

#[test]
fn the_account_is_the_first_line_that_names_one() {
    assert_eq!(
        find_account("Logged in as user@example.com"),
        Some("Logged in as user@example.com".to_string())
    );
    assert_eq!(
        find_account("Agent status\n  account: work  \nuser@example.com\n"),
        Some("account: work".to_string())
    );
    assert_eq!(
        find_account("status ok\n\n\tme@example.com\r\naccount: other\n"),
        Some("me@example.com".to_string())
    );
    assert_eq!(find_account("@"), Some("@".to_string()));
    assert_eq!(find_account("x\n@\n"), Some("@".to_string()));
}

#[test]
fn no_account_where_no_line_names_one() {
    assert_eq!(find_account(""), None);
    assert_eq!(find_account("\n\n"), None);
    assert_eq!(find_account("Logged in\nPlan: pro\n"), None);
    assert_eq!(find_account("Account: work"), None);
    assert_eq!(find_account("acc\nount"), None);
}

#[test]
fn login_status_from_reads_a_completed_query() {
    assert_eq!(
        login_status_from(&agent(), completed(true, "Logged in as user@example.com\n", "")),
        AuthStatus {
            installed: true,
            authenticated: true,
            account: Some("Logged in as user@example.com".to_string()),
            error: None,
            step_failed: None,
        }
    );
}
