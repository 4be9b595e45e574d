//! Is the command-line tool installed, and is it logged in? Two runs
//! answer that, one after the other: the tool is asked for its version,
//! then for the state of its login. A [`Probe`] names the run to make
//! next and takes in how it ended; a run that fails or times out ends the
//! probe at once.

use crate::invocation::{texts, InvocationOutcome, InvocationRequest, OutcomeView, RequestView};
use crate::text::{
    chars_of, contains, contains_ignoring_case, first_line_len, has_substring,
    has_substring_ignoring_case, is_line, lemma_first_line_is_line, line_end, text_of, trim,
    trim_bounds,
};
use crate::tool::{Tool, ToolView};
use vstd::prelude::*;
use vstd::slice::slice_subrange;
use vstd::string::StringExecFns;

verus! {

/// Seconds allowed to each run of the probe.
pub const CLI_TIMEOUT_SECS: u64 = 10;

/// The run of the probe that went wrong, and whether it failed to start
/// or ran out of time.
#[derive(Debug, Clone, Copy, PartialEq, Eq, Structural)]
pub enum StepFailed {
    VersionCheck,
    VersionCheckTimeout,
    AuthCheck,
    AuthCheckTimeout,
}

impl StepFailed {
    /// The tag under which the step is reported.
    pub open spec fn tag_of(self) -> Seq<char> {
        match self {
            StepFailed::VersionCheck => "version_check"@,
            StepFailed::VersionCheckTimeout => "version_check_timeout"@,
            StepFailed::AuthCheck => "auth_check"@,
            StepFailed::AuthCheckTimeout => "auth_check_timeout"@,
        }
    }

    pub fn tag(&self) -> (tag: String)
        ensures
            tag@ == self.tag_of(),
    {
        match self {
            StepFailed::VersionCheck => "version_check".to_owned(),
            StepFailed::VersionCheckTimeout => "version_check_timeout".to_owned(),
            StepFailed::AuthCheck => "auth_check".to_owned(),
            StepFailed::AuthCheckTimeout => "auth_check_timeout".to_owned(),
        }
    }
}

/// What an [`AuthStatus`] stands for.
pub struct AuthStatusView {
    pub installed: bool,
    pub authenticated: bool,
    pub account: Option<Seq<char>>,
    pub error: Option<Seq<char>>,
    pub step_failed: Option<StepFailed>,
}

impl AuthStatusView {
    /// A tool that is not installed is not logged in and has no account,
    /// and a failed step is named only beside an error.
    pub open spec fn wf(self) -> bool {
        &&& !self.installed ==> !self.authenticated && self.account is None
        &&& self.step_failed is Some ==> self.error is Some
    }
}

/// What the probe found.
#[derive(Debug, Clone, PartialEq, Eq)]
pub struct AuthStatus {
    pub installed: bool,
    pub authenticated: bool,
    pub account: Option<String>,
    pub error: Option<String>,
    pub step_failed: Option<StepFailed>,
}

impl View for AuthStatus {
    type V = AuthStatusView;

    open spec fn view(&self) -> AuthStatusView {
        AuthStatusView {
            installed: self.installed,
            authenticated: self.authenticated,
            account: text_of(self.account),
            error: text_of(self.error),
            step_failed: self.step_failed,
        }
    }
}

/// Whether `text` says that nobody is logged in: it holds `not logged in`
/// or `no active account`, in any mix of upper and lower case.
pub open spec fn denies_login(text: Seq<char>) -> bool {
    ||| has_substring_ignoring_case(text, "not logged in"@)
    ||| has_substring_ignoring_case(text, "no active account"@)
}

/// Whether a completed login query shows a login: the process succeeded
/// and neither stream denies it.
pub open spec fn shows_login(exit_success: bool, stdout: Seq<char>, stderr: Seq<char>) -> bool {
    exit_success && !denies_login(stdout) && !denies_login(stderr)
}

/// Whether `line` names an account: it holds `@` or `account`.
pub open spec fn names_account(line: Seq<char>) -> bool {
    has_substring(line, "@"@) || has_substring(line, "account"@)
}

/// The first line of `text` that names an account, trimmed; `None` where
/// no line does. Lines are what line feeds separate.
pub open spec fn account_line(text: Seq<char>) -> Option<Seq<char>>
    decreases text.len(),
{
    let n = first_line_len(text);
    let line = text.take(n as int);
    if names_account(line) {
        Some(trim(line))
    } else if n >= text.len() {
        None
    } else {
        account_line(text.skip(n as int + 1))
    }
}

/// The error text of a run of `tool` that did not end in time.
pub open spec fn timeout_message(tool: ToolView) -> Seq<char> {
    tool.name + " CLI timed out after 10 seconds"@
}

/// The status of a probe that `step` ended with `error`.
pub open spec fn failure(installed: bool, error: Seq<char>, step: StepFailed) -> AuthStatusView {
    AuthStatusView {
        installed,
        authenticated: false,
        account: None,
        error: Some(error),
        step_failed: Some(step),
    }
}

/// The status of a tool that answered the version query with a failing
/// exit: it is taken as absent, which is no error.
pub open spec fn absent() -> AuthStatusView {
    AuthStatusView {
        installed: false,
        authenticated: false,
        account: None,
        error: None,
        step_failed: None,
    }
}

/// The status that the login query gives of an installed tool.
pub open spec fn login_status(tool: ToolView, outcome: OutcomeView) -> AuthStatusView {
    match outcome {
        OutcomeView::SpawnFailed { reason, .. } => failure(true, reason, StepFailed::AuthCheck),
        OutcomeView::TimedOut => failure(
            true,
            timeout_message(tool),
            StepFailed::AuthCheckTimeout,
        ),
        OutcomeView::Completed { exit_success, stdout, stderr } => {
            let authenticated = shows_login(exit_success, stdout, stderr);
            AuthStatusView {
                installed: true,
                authenticated,
                account: if authenticated {
                    account_line(stdout)
                } else {
                    None
                },
                error: None,
                step_failed: None,
            }
        },
    }
}

/// Where a probe stands.
pub enum ProbeView {
    /// The version query is to be made.
    Version,
    /// The tool is installed; the login query is to be made.
    Login,
    /// The probe is over.
    Done { status: AuthStatusView },
}

/// The probe after a run that ended in `outcome`. The version query ends
/// the probe unless it completed with success; the login query always
/// ends it; a probe that is over stays as it is.
pub open spec fn advance(probe: ProbeView, tool: ToolView, outcome: OutcomeView) -> ProbeView {
    match probe {
        ProbeView::Version => match outcome {
            OutcomeView::SpawnFailed { reason, .. } => ProbeView::Done {
                status: failure(false, reason, StepFailed::VersionCheck),
            },
            OutcomeView::TimedOut => ProbeView::Done {
                status: failure(false, timeout_message(tool), StepFailed::VersionCheckTimeout),
            },
            OutcomeView::Completed { exit_success, .. } => if exit_success {
                ProbeView::Login
            } else {
                ProbeView::Done { status: absent() }
            },
        },
        ProbeView::Login => ProbeView::Done { status: login_status(tool, outcome) },
        ProbeView::Done { .. } => probe,
    }
}

/// The run that asks `tool` for its version: its command with the
/// argument `--version`.
pub open spec fn version_request(tool: ToolView) -> RequestView {
    RequestView {
        command: tool.command,
        args: seq!["--version"@],
        timeout_secs: Some(CLI_TIMEOUT_SECS),
    }
}

/// The run that asks `tool` for the state of its login: its command with
/// the arguments `auth` and `status`.
pub open spec fn login_request(tool: ToolView) -> RequestView {
    RequestView {
        command: tool.command,
        args: seq!["auth"@, "status"@],
        timeout_secs: Some(CLI_TIMEOUT_SECS),
    }
}

/// The run that a probe waits for, if it is not over.
pub open spec fn pending(probe: ProbeView, tool: ToolView) -> Option<RequestView> {
    match probe {
        ProbeView::Version => Some(version_request(tool)),
        ProbeView::Login => Some(login_request(tool)),
        ProbeView::Done { .. } => None,
    }
}

/// The status that a whole probe gives: `version` is how the version
/// query ended, `login` how the login query ended. Where the version
/// query did not complete with success, `login` plays no part.
pub open spec fn status_of(
    tool: ToolView,
    version: OutcomeView,
    login: OutcomeView,
) -> AuthStatusView {
    match advance(ProbeView::Version, tool, version) {
        ProbeView::Done { status } => status,
        _ => login_status(tool, login),
    }
}

/// A probe is over after two runs at most, and its status is that of
/// [`status_of`]. The version query alone ends it unless it completed
/// with success.
pub proof fn law_probe_ends(tool: ToolView, version: OutcomeView, login: OutcomeView)
    ensures
        advance(advance(ProbeView::Version, tool, version), tool, login) == (ProbeView::Done {
            status: status_of(tool, version, login),
        }),
        !(version matches OutcomeView::Completed { exit_success, .. } && exit_success) ==> advance(
            ProbeView::Version,
            tool,
            version,
        ) is Done,
{
}

/// Whatever the two runs gave, the status is well formed; an account is
/// named only of a tool that is logged in; a tool that is logged in is
/// installed; and an error is reported exactly when a step is named as
/// failed.
pub proof fn law_status_well_formed(tool: ToolView, version: OutcomeView, login: OutcomeView)
    ensures
        status_of(tool, version, login).wf(),
        status_of(tool, version, login).account is Some ==> status_of(
            tool,
            version,
            login,
        ).authenticated,
        status_of(tool, version, login).authenticated ==> status_of(
            tool,
            version,
            login,
        ).installed,
        status_of(tool, version, login).error is Some <==> status_of(
            tool,
            version,
            login,
        ).step_failed is Some,
{
}

/// A probe repeated in unchanged surroundings gives the same status: the
/// status depends on nothing but the tool and how the two runs ended.
pub proof fn law_probe_repeatable(
    tool: ToolView,
    version: OutcomeView,
    login: OutcomeView,
    version_again: OutcomeView,
    login_again: OutcomeView,
)
    requires
        version_again == version,
        login_again == login,
    ensures
        status_of(tool, version_again, login_again) == status_of(tool, version, login),
        advance(advance(ProbeView::Version, tool, version_again), tool, login_again) == advance(
            advance(ProbeView::Version, tool, version),
            tool,
            login,
        ),
{
}

/// Whether the line of `text` from `start` up to `end` names an account
/// and no line before it does.
pub open spec fn is_first_account_line(text: Seq<char>, start: int, end: int) -> bool {
    &&& is_line(text, start, end)
    &&& names_account(text.subrange(start, end))
    &&& forall|s: int, e: int| #[trigger]
        is_line(text, s, e) && s < start ==> !names_account(text.subrange(s, e))
}

/// `account_line` is the trimmed text of the first line that names an
/// account, and `None` exactly where no line of the text names one.
pub proof fn law_account_line_is_first(text: Seq<char>)
    ensures
        match account_line(text) {
            Some(account) => exists|start: int, end: int| #[trigger]
                is_first_account_line(text, start, end) && account == trim(
                    text.subrange(start, end),
                ),
            None => forall|s: int, e: int| #[trigger]
                is_line(text, s, e) ==> !names_account(text.subrange(s, e)),
        },
{
    assert(text.skip(0) =~= text);
    lemma_account_line_from(text, 0);
}

proof fn lemma_account_line_from(text: Seq<char>, from: int)
    requires
        0 <= from <= text.len(),
        from == 0 || text[from - 1] == '\n',
        forall|s: int, e: int| #[trigger]
            is_line(text, s, e) && s < from ==> !names_account(text.subrange(s, e)),
    ensures
        match account_line(text.skip(from)) {
            Some(account) => exists|start: int, end: int| #[trigger]
                is_first_account_line(text, start, end) && account == trim(
                    text.subrange(start, end),
                ),
            None => forall|s: int, e: int| #[trigger]
                is_line(text, s, e) ==> !names_account(text.subrange(s, e)),
        },
    decreases text.len() - from,
{
    let rest = text.skip(from);
    let n = first_line_len(rest) as int;
    let end = from + n;
    lemma_first_line_is_line(rest);
    assert(rest.take(n) =~= text.subrange(from, end));
    assert forall|k: int| from <= k < end implies text[k] != '\n' by {
        assert(text[k] == rest[k - from]);
    }
    if end < text.len() {
        assert(text[end] == rest[n]);
    }
    assert(is_line(text, from, end));
    // Every line that begins before the end of this one is this one.
    assert forall|s: int, e: int| #[trigger] is_line(text, s, e) && from <= s <= end implies s
        == from && e == end by {
        if s > from {
            assert(text[s - 1] == '\n');
        }
        if e < end {
            assert(text[e] == '\n');
        }
        if e > end {
            assert(text[end] != '\n');
        }
    }
    if names_account(rest.take(n)) {
        assert(is_first_account_line(text, from, end));
    } else if n >= rest.len() {
    } else {
        assert(rest.skip(n + 1) =~= text.skip(end + 1));
        lemma_account_line_from(text, end + 1);
    }
}

/// Tells whether `text` says that nobody is logged in.
pub fn text_denies_login(text: &str) -> (denied: bool)
    ensures
        denied == denies_login(text@),
{
    let chars = chars_of(text);
    let logged_out = chars_of("not logged in");
    let no_account = chars_of("no active account");
    contains_ignoring_case(chars.as_slice(), logged_out.as_slice()) || contains_ignoring_case(
        chars.as_slice(),
        no_account.as_slice(),
    )
}

/// Tells whether a completed login query shows a login.
pub fn is_authenticated(exit_success: bool, stdout: &str, stderr: &str) -> (authenticated: bool)
    ensures
        authenticated == shows_login(exit_success, stdout@, stderr@),
{
    exit_success && !text_denies_login(stdout) && !text_denies_login(stderr)
}

/// Finds the account in the output of the login query.
pub fn find_account(stdout: &str) -> (account: Option<String>)
    ensures
        text_of(account) == account_line(stdout@),
{
    let chars = chars_of(stdout);
    let text = chars.as_slice();
    let at_sign = chars_of("@");
    let word = chars_of("account");
    let n: usize = text.len();
    let mut start: usize = 0;
    assert(text@.skip(0) =~= stdout@);
    loop
        invariant
            text@ == stdout@,
            n == text.len(),
            start <= n,
            at_sign@ == "@"@,
            word@ == "account"@,
            account_line(stdout@) == account_line(text@.skip(start as int)),
        decreases n - start,
    {
        let end = line_end(text, start);
        let line = slice_subrange(text, start, end);
        let ghost rest = text@.skip(start as int);
        assert(line@ =~= rest.take(end - start));
        if contains(line, at_sign.as_slice()) || contains(line, word.as_slice()) {
            let (a, b) = trim_bounds(line);
            assert(stdout@.subrange(start + a, start + b) =~= line@.subrange(a as int, b as int));
            return Some(stdout.substring_char(start + a, start + b).to_owned());
        }
        if end == n {
            return None;
        }
        assert(rest.skip(end - start + 1) =~= text@.skip(end + 1));
        start = end + 1;
    }
}

/// A probe: the version query, then the login query, then the status.
#[derive(Debug, Clone, PartialEq, Eq)]
pub enum Probe {
    Version,
    Login,
    Done { status: AuthStatus },
}

impl View for Probe {
    type V = ProbeView;

    open spec fn view(&self) -> ProbeView {
        match *self {
            Probe::Version => ProbeView::Version,
            Probe::Login => ProbeView::Login,
            Probe::Done { status } => ProbeView::Done { status: status@ },
        }
    }
}

fn timed_request(tool: &Tool, args: Vec<String>) -> (request: InvocationRequest)
    ensures
        request@ == (RequestView {
            command: tool@.command,
            args: texts(args@),
            timeout_secs: Some(CLI_TIMEOUT_SECS),
        }),
{
    InvocationRequest::new(tool.command().clone(), args, Some(CLI_TIMEOUT_SECS))
}

fn failed(installed: bool, error: String, step: StepFailed) -> (status: AuthStatus)
    ensures
        status@ == failure(installed, error@, step),
{
    AuthStatus {
        installed,
        authenticated: false,
        account: None,
        error: Some(error),
        step_failed: Some(step),
    }
}

fn timeout_text(tool: &Tool) -> (message: String)
    ensures
        message@ == timeout_message(tool@),
{
    tool.name().clone().concat(" CLI timed out after 10 seconds")
}

/// Reads the outcome of the login query.
pub fn login_status_from(tool: &Tool, outcome: InvocationOutcome) -> (status: AuthStatus)
    ensures
        status@ == login_status(tool@, outcome@),
        status@.wf(),
{
    match outcome {
        InvocationOutcome::SpawnFailed { reason, .. } => failed(true, reason, StepFailed::AuthCheck),
        InvocationOutcome::TimedOut => failed(
            true,
            timeout_text(tool),
            StepFailed::AuthCheckTimeout,
        ),
        InvocationOutcome::Completed { exit_success, stdout, stderr } => {
            let authenticated = is_authenticated(exit_success, stdout.as_str(), stderr.as_str());
            let account = if authenticated {
                find_account(stdout.as_str())
            } else {
                None
            };
            AuthStatus { installed: true, authenticated, account, error: None, step_failed: None }
        },
    }
}

impl Probe {
    /// A probe that has made no run yet.
    pub fn start() -> (probe: Self)
        ensures
            probe@ == ProbeView::Version,
    {
        Probe::Version
    }

    /// The run of `tool` to make next; `None` once the probe is over.
    pub fn pending(&self, tool: &Tool) -> (request: Option<InvocationRequest>)
        ensures
            match request {
                Some(r) => pending(self@, tool@) == Some(r@),
                None => pending(self@, tool@) is None,
            },
    {
        match self {
            Probe::Version => {
                let mut args: Vec<String> = Vec::new();
                args.push("--version".to_owned());
                assert(texts(args@) =~= version_request(tool@).args);
                Some(timed_request(tool, args))
            },
            Probe::Login => {
                let mut args: Vec<String> = Vec::new();
                args.push("auth".to_owned());
                args.push("status".to_owned());
                assert(texts(args@) =~= login_request(tool@).args);
                Some(timed_request(tool, args))
            },
            Probe::Done { .. } => None,
        }
    }

    /// Takes in how the pending run of `tool` ended.
    pub fn advance(self, tool: &Tool, outcome: InvocationOutcome) -> (next: Self)
        ensures
            next@ == advance(self@, tool@, outcome@),
    {
        match self {
            Probe::Version => match outcome {
                InvocationOutcome::SpawnFailed { reason, .. } => Probe::Done {
                    status: failed(false, reason, StepFailed::VersionCheck),
                },
                InvocationOutcome::TimedOut => Probe::Done {
                    status: failed(false, timeout_text(tool), StepFailed::VersionCheckTimeout),
                },
                InvocationOutcome::Completed { exit_success, .. } => if exit_success {
                    Probe::Login
                } else {
                    Probe::Done {
                        status: AuthStatus {
                            installed: false,
                            authenticated: false,
                            account: None,
                            error: None,
                            step_failed: None,
                        },
                    }
                },
            },
            Probe::Login => Probe::Done { status: login_status_from(tool, outcome) },
            Probe::Done { status } => Probe::Done { status },
        }
    }

    /// The status, once the probe is over; `None` before.
    pub fn status(self) -> (status: Option<AuthStatus>)
        ensures
            match status {
                Some(s) => self@ == (ProbeView::Done { status: s@ }),
                None => !(self@ is Done),
            },
    {
        match self {
            Probe::Done { status } => Some(status),
            _ => None,
        }
    }
}

} // verus!
