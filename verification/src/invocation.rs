//! One run of an external command: what is asked for, how it can end, and
//! the decisions taken while it runs.
//!
//! Starting the process, reading its pipes and watching the clock are the
//! caller's work. The caller reports each thing that happens as an
//! [`Event`]; an [`Invocation`] takes the events in, keeps what the two
//! output streams have produced, tells the caller what to do next
//! ([`Action`]) and ends in an [`InvocationOutcome`].

use vstd::prelude::*;
use vstd::string::StringExecFns;

verus! {

/// The views of a sequence of strings, in order.
pub open spec fn texts(items: Seq<String>) -> Seq<Seq<char>> {
    items.map_values(|item: String| item@)
}

/// What an [`InvocationRequest`] stands for.
pub struct RequestView {
    pub command: Seq<char>,
    pub args: Seq<Seq<char>>,
    pub timeout_secs: Option<u64>,
}

/// A command to run: its name, its arguments in order and, where the run
/// is bounded, the number of seconds it may take.
#[derive(Debug, Clone, PartialEq, Eq)]
pub struct InvocationRequest {
    command: String,
    args: Vec<String>,
    timeout_secs: Option<u64>,
}

impl View for InvocationRequest {
    type V = RequestView;

    closed spec fn view(&self) -> RequestView {
        RequestView {
            command: self.command@,
            args: texts(self.args@),
            timeout_secs: self.timeout_secs,
        }
    }
}

impl InvocationRequest {
    pub fn new(command: String, args: Vec<String>, timeout_secs: Option<u64>) -> (request: Self)
        ensures
            request@ == (RequestView {
                command: command@,
                args: texts(args@),
                timeout_secs: timeout_secs,
            }),
    {
        InvocationRequest { command, args, timeout_secs }
    }

    /// The name of the executable, to be found on the search path.
    pub fn command(&self) -> (command: &String)
        ensures
            command@ == self@.command,
    {
        &self.command
    }

    /// The arguments, in the order in which the command receives them.
    pub fn args(&self) -> (args: &Vec<String>)
        ensures
            texts(args@) == self@.args,
    {
        &self.args
    }

    /// The bound on the run in seconds; `None` where the run may take as
    /// long as it likes.
    pub fn timeout_secs(&self) -> (timeout_secs: Option<u64>)
        ensures
            timeout_secs == self@.timeout_secs,
    {
        self.timeout_secs
    }
}

/// What an [`InvocationOutcome`] stands for.
pub enum OutcomeView {
    Completed { exit_success: bool, stdout: Seq<char>, stderr: Seq<char> },
    SpawnFailed { reason: Seq<char>, not_found: bool },
    TimedOut,
}

/// How one run of a command ended.
#[derive(Debug, Clone, PartialEq, Eq)]
pub enum InvocationOutcome {
    /// The process ran and exited. Both streams were read to their end.
    Completed { exit_success: bool, stdout: String, stderr: String },
    /// The process could not be started. `not_found` tells a missing
    /// executable from the other reasons.
    SpawnFailed { reason: String, not_found: bool },
    /// The time allowed ran out before the process exited.
    TimedOut,
}

impl View for InvocationOutcome {
    type V = OutcomeView;

    open spec fn view(&self) -> OutcomeView {
        match *self {
            InvocationOutcome::Completed { exit_success, stdout, stderr } => OutcomeView::Completed {
                exit_success,
                stdout: stdout@,
                stderr: stderr@,
            },
            InvocationOutcome::SpawnFailed { reason, not_found } => OutcomeView::SpawnFailed {
                reason: reason@,
                not_found,
            },
            InvocationOutcome::TimedOut => OutcomeView::TimedOut,
        }
    }
}

/// The two output streams of a process.
#[derive(Debug, Clone, Copy, PartialEq, Eq, Structural)]
pub enum Stream {
    Stdout,
    Stderr,
}

/// What an [`Event`] stands for.
pub enum EventView {
    SpawnFailed { detail: Seq<char>, not_found: bool },
    Spawned,
    Line { stream: Stream, text: Seq<char> },
    EndOfStream { stream: Stream },
    Exited { success: bool },
    DeadlinePassed,
}

/// Something that happened to a run.
#[derive(Debug, Clone, PartialEq, Eq)]
pub enum Event {
    /// The operating system did not start the process. `detail` is its
    /// description of the failure.
    SpawnFailed { detail: String, not_found: bool },
    /// The process was started, with a pipe on each output stream.
    Spawned,
    /// A stream produced a line, its line feed included.
    Line { stream: Stream, text: String },
    /// A stream has nothing more to give.
    EndOfStream { stream: Stream },
    /// The process exited.
    Exited { success: bool },
    /// The time allowed to the run is over.
    DeadlinePassed,
}

impl View for Event {
    type V = EventView;

    open spec fn view(&self) -> EventView {
        match *self {
            Event::SpawnFailed { detail, not_found } => EventView::SpawnFailed {
                detail: detail@,
                not_found,
            },
            Event::Spawned => EventView::Spawned,
            Event::Line { stream, text } => EventView::Line { stream, text: text@ },
            Event::EndOfStream { stream } => EventView::EndOfStream { stream },
            Event::Exited { success } => EventView::Exited { success },
            Event::DeadlinePassed => EventView::DeadlinePassed,
        }
    }
}

/// What the caller of an [`Invocation`] has to do next.
#[derive(Debug, Clone, Copy, PartialEq, Eq, Structural)]
pub enum Action {
    /// Start the process and report `Spawned` or `SpawnFailed`.
    Spawn,
    /// Wait for a line or the end of every stream marked `true`, for all
    /// of them at once, and report whichever comes first.
    Read { stdout: bool, stderr: bool },
    /// Wait for the process to exit and report `Exited`.
    AwaitExit,
    /// Nothing: the run is over and its outcome can be taken.
    Finish,
}

/// Where a run stands.
pub enum Progress {
    /// The process has not been started.
    Launching,
    /// The process runs. `stdout` and `stderr` hold what each stream has
    /// produced so far; a stream is open until its end was reported.
    Draining { stdout: Seq<char>, stderr: Seq<char>, stdout_open: bool, stderr_open: bool },
    /// The run is over.
    Finished { outcome: OutcomeView },
}

/// What an [`Invocation`] stands for: the command that is run, whether
/// the run is bounded in time, and where it stands.
pub struct InvocationView {
    pub command: Seq<char>,
    pub bounded: bool,
    pub progress: Progress,
}

/// The reason given for a failed spawn of `command`, from the operating
/// system's description of the failure.
pub open spec fn spawn_failure_reason(command: Seq<char>, detail: Seq<char>) -> Seq<char> {
    "Failed to spawn "@ + command + " process: "@ + detail
}

/// What is reported when the pipe of `stream` cannot be had from a
/// started process.
pub open spec fn capture_failure_of(stream: Stream) -> Seq<char> {
    match stream {
        Stream::Stdout => "Failed to capture stdout"@,
        Stream::Stderr => "Failed to capture stderr"@,
    }
}

/// What is reported when waiting for the exit of the process of
/// `command` fails, from the operating system's description of the
/// failure.
pub open spec fn wait_failure_of(command: Seq<char>, detail: Seq<char>) -> Seq<char> {
    "Failed to wait for "@ + command + " process: "@ + detail
}

/// A run of `command` whose process was not started yet.
pub open spec fn fresh(command: Seq<char>, bounded: bool) -> InvocationView {
    InvocationView { command, bounded, progress: Progress::Launching }
}

/// Where a run of `command` stands after `event`. An event that cannot
/// happen where the run stands leaves it as it is: any event once the
/// run is over, the deadline of a run that has none, a line of a stream
/// that has ended, the exit of a process not yet started or with a stream
/// still open.
pub open spec fn advance(
    command: Seq<char>,
    bounded: bool,
    progress: Progress,
    event: EventView,
) -> Progress {
    match progress {
        Progress::Finished { .. } => progress,
        Progress::Launching => match event {
            EventView::DeadlinePassed => if bounded {
                Progress::Finished { outcome: OutcomeView::TimedOut }
            } else {
                progress
            },
            EventView::SpawnFailed { detail, not_found } => Progress::Finished {
                outcome: OutcomeView::SpawnFailed {
                    reason: spawn_failure_reason(command, detail),
                    not_found,
                },
            },
            EventView::Spawned => Progress::Draining {
                stdout: Seq::empty(),
                stderr: Seq::empty(),
                stdout_open: true,
                stderr_open: true,
            },
            _ => progress,
        },
        Progress::Draining { stdout, stderr, stdout_open, stderr_open } => match event {
            EventView::DeadlinePassed => if bounded {
                Progress::Finished { outcome: OutcomeView::TimedOut }
            } else {
                progress
            },
            EventView::Line { stream: Stream::Stdout, text } => if stdout_open {
                Progress::Draining { stdout: stdout + text, stderr, stdout_open, stderr_open }
            } else {
                progress
            },
            EventView::Line { stream: Stream::Stderr, text } => if stderr_open {
                Progress::Draining { stdout, stderr: stderr + text, stdout_open, stderr_open }
            } else {
                progress
            },
            EventView::EndOfStream { stream: Stream::Stdout } => Progress::Draining {
                stdout,
                stderr,
                stdout_open: false,
                stderr_open,
            },
            EventView::EndOfStream { stream: Stream::Stderr } => Progress::Draining {
                stdout,
                stderr,
                stdout_open,
                stderr_open: false,
            },
            EventView::Exited { success } => if !stdout_open && !stderr_open {
                Progress::Finished {
                    outcome: OutcomeView::Completed { exit_success: success, stdout, stderr },
                }
            } else {
                progress
            },
            _ => progress,
        },
    }
}

/// The run after `event`: the same command under the same bound, where
/// [`advance`] puts it.
pub open spec fn step(run: InvocationView, event: EventView) -> InvocationView {
    InvocationView {
        command: run.command,
        bounded: run.bounded,
        progress: advance(run.command, run.bounded, run.progress, event),
    }
}

/// What the caller has to do where the run stands. While both streams
/// are open both are to be read at once, never one after the other.
pub open spec fn action_of(run: InvocationView) -> Action {
    match run.progress {
        Progress::Launching => Action::Spawn,
        Progress::Draining { stdout_open, stderr_open, .. } => if stdout_open || stderr_open {
            Action::Read { stdout: stdout_open, stderr: stderr_open }
        } else {
            Action::AwaitExit
        },
        Progress::Finished { .. } => Action::Finish,
    }
}

/// The outcome of a run that is over.
pub open spec fn outcome_of(run: InvocationView) -> Option<OutcomeView> {
    match run.progress {
        Progress::Finished { outcome } => Some(outcome),
        _ => None,
    }
}

/// The run after each of `events` in turn.
pub open spec fn run_all(run: InvocationView, events: Seq<EventView>) -> InvocationView
    decreases events.len(),
{
    if events.len() == 0 {
        run
    } else {
        step(run_all(run, events.drop_last()), events.last())
    }
}

/// Whether the end of `stream` is among `events`.
pub open spec fn ended(events: Seq<EventView>, stream: Stream) -> bool {
    exists|i: int| 0 <= i < events.len() && events[i] == (EventView::EndOfStream { stream })
}

/// The lines of `stream` among `events` that come before the end of that
/// stream, one after the other.
pub open spec fn captured(events: Seq<EventView>, stream: Stream) -> Seq<char>
    decreases events.len(),
{
    if events.len() == 0 {
        Seq::empty()
    } else {
        let before = captured(events.drop_last(), stream);
        match events.last() {
            EventView::Line { stream: from, text } => if from == stream && !ended(
                events.drop_last(),
                stream,
            ) {
                before + text
            } else {
                before
            },
            _ => before,
        }
    }
}

/// Whether `event` reports a line or the end of a stream.
pub open spec fn is_read(event: EventView) -> bool {
    event is Line || event is EndOfStream
}

/// A run that is over stays as it is, whatever is reported to it.
pub proof fn law_outcome_is_final(run: InvocationView, events: Seq<EventView>)
    requires
        outcome_of(run) is Some,
    ensures
        run_all(run, events) == run,
    decreases events.len(),
{
    if events.len() > 0 {
        law_outcome_is_final(run, events.drop_last());
    }
}

/// When the deadline passes on a bounded run that is not over, the run
/// times out, and nothing reported afterwards turns that into another
/// outcome.
pub proof fn law_deadline_times_out(run: InvocationView, later: Seq<EventView>)
    requires
        run.bounded,
        outcome_of(run) is None,
    ensures
        outcome_of(run_all(step(run, EventView::DeadlinePassed), later)) == Some(
            OutcomeView::TimedOut,
        ),
{
    law_outcome_is_final(step(run, EventView::DeadlinePassed), later);
}

/// A run without a bound never times out.
pub proof fn law_unbounded_never_times_out(command: Seq<char>, events: Seq<EventView>)
    ensures
        !run_all(fresh(command, false), events).bounded,
        outcome_of(run_all(fresh(command, false), events)) != Some(OutcomeView::TimedOut),
    decreases events.len(),
{
    if events.len() > 0 {
        law_unbounded_never_times_out(command, events.drop_last());
    }
}

/// A spawn that fails ends the run at once, and the outcome says that the
/// executable was not found exactly when the failure was reported so.
pub proof fn law_spawn_failure_ends_run(
    command: Seq<char>,
    bounded: bool,
    detail: Seq<char>,
    not_found: bool,
)
    ensures
        outcome_of(step(fresh(command, bounded), EventView::SpawnFailed { detail, not_found }))
            == Some(
            OutcomeView::SpawnFailed { reason: spawn_failure_reason(command, detail), not_found },
        ),
{
}

/// A run completes in one way only: the process exits after both streams
/// have ended, and the outcome carries all that the streams had produced.
pub proof fn law_completed_only_when_drained(run: InvocationView, event: EventView)
    requires
        outcome_of(run) is None,
        outcome_of(step(run, event)) matches Some(o) && o is Completed,
    ensures
        event is Exited,
        run.progress matches Progress::Draining { stdout, stderr, stdout_open, stderr_open }
            && !stdout_open && !stderr_open && outcome_of(step(run, event)) == Some(
            OutcomeView::Completed { exit_success: event->success, stdout, stderr },
        ),
{
}

/// Nothing that a stream produces is lost, in whatever order the lines
/// of the two streams arrive: after any sequence of lines and ends of
/// stream, a started run holds for each stream its lines up to its end,
/// in the order of their arrival, and the stream is open if and only if
/// its end has not arrived.
pub proof fn law_capture_keeps_every_line(
    command: Seq<char>,
    bounded: bool,
    reads: Seq<EventView>,
)
    requires
        forall|i: int| 0 <= i < reads.len() ==> is_read(#[trigger] reads[i]),
    ensures
        run_all(step(fresh(command, bounded), EventView::Spawned), reads) == (InvocationView {
            command,
            bounded,
            progress: Progress::Draining {
                stdout: captured(reads, Stream::Stdout),
                stderr: captured(reads, Stream::Stderr),
                stdout_open: !ended(reads, Stream::Stdout),
                stderr_open: !ended(reads, Stream::Stderr),
            },
        }),
    decreases reads.len(),
{
    if reads.len() > 0 {
        let before = reads.drop_last();
        law_capture_keeps_every_line(command, bounded, before);
        lemma_ended_after(before, reads.last(), Stream::Stdout);
        lemma_ended_after(before, reads.last(), Stream::Stderr);
        assert(before.push(reads.last()) =~= reads);
    } else {
        assert(captured(reads, Stream::Stdout) =~= Seq::<char>::empty());
        assert(captured(reads, Stream::Stderr) =~= Seq::<char>::empty());
    }
}

/// Where both streams have ended and the process then exits, the run
/// completes with every line of each stream, in order, and with the exit
/// status that was reported.
pub proof fn law_completed_holds_all_output(
    command: Seq<char>,
    bounded: bool,
    reads: Seq<EventView>,
    success: bool,
)
    requires
        forall|i: int| 0 <= i < reads.len() ==> is_read(#[trigger] reads[i]),
        ended(reads, Stream::Stdout),
        ended(reads, Stream::Stderr),
    ensures
        outcome_of(
            step(
                run_all(step(fresh(command, bounded), EventView::Spawned), reads),
                EventView::Exited { success },
            ),
        ) == Some(
            OutcomeView::Completed {
                exit_success: success,
                stdout: captured(reads, Stream::Stdout),
                stderr: captured(reads, Stream::Stderr),
            },
        ),
{
    law_capture_keeps_every_line(command, bounded, reads);
}

proof fn lemma_ended_after(before: Seq<EventView>, event: EventView, stream: Stream)
    ensures
        ended(before.push(event), stream) <==> ended(before, stream) || event == (
            EventView::EndOfStream { stream }
        ),
{
    let all = before.push(event);
    let end = EventView::EndOfStream { stream };
    if ended(before, stream) {
        let i = choose|i: int| 0 <= i < before.len() && before[i] == end;
        assert(all[i] == end);
    }
    if event == end {
        assert(all[before.len() as int] == end);
    }
    if ended(all, stream) {
        let i = choose|i: int| 0 <= i < all.len() && all[i] == end;
        if i < before.len() {
            assert(before[i] == end);
        }
    }
}

/// The message for a pipe that a started process does not offer. No
/// outcome describes this failure: the caller gives up the run with the
/// message.
pub fn capture_failure(stream: Stream) -> (message: String)
    ensures
        message@ == capture_failure_of(stream),
{
    match stream {
        Stream::Stdout => "Failed to capture stdout".to_owned(),
        Stream::Stderr => "Failed to capture stderr".to_owned(),
    }
}

/// The message for a failed wait on the exit of the process of
/// `command`. No outcome describes this failure: the caller gives up the
/// run with the message.
pub fn wait_failure(command: &str, detail: &str) -> (message: String)
    ensures
        message@ == wait_failure_of(command@, detail@),
{
    "Failed to wait for ".to_owned().concat(command).concat(" process: ").concat(detail)
}

enum Stage {
    Launching,
    Draining { stdout: String, stderr: String, stdout_open: bool, stderr_open: bool },
    Finished { outcome: InvocationOutcome },
}

impl Stage {
    spec fn progress(self) -> Progress {
        match self {
            Stage::Launching => Progress::Launching,
            Stage::Draining { stdout, stderr, stdout_open, stderr_open } => Progress::Draining {
                stdout: stdout@,
                stderr: stderr@,
                stdout_open,
                stderr_open,
            },
            Stage::Finished { outcome } => Progress::Finished { outcome: outcome@ },
        }
    }

    fn advance(self, command: &str, bounded: bool, event: Event) -> (next: Stage)
        ensures
            next.progress() == advance(command@, bounded, self.progress(), event@),
    {
        match self {
            Stage::Finished { outcome } => Stage::Finished { outcome },
            Stage::Launching => match event {
                Event::DeadlinePassed => if bounded {
                    Stage::Finished { outcome: InvocationOutcome::TimedOut }
                } else {
                    Stage::Launching
                },
                Event::SpawnFailed { detail, not_found } => {
                    let reason = "Failed to spawn ".to_owned().concat(command).concat(
                        " process: ",
                    ).concat(detail.as_str());
                    Stage::Finished { outcome: InvocationOutcome::SpawnFailed { reason, not_found } }
                },
                Event::Spawned => Stage::Draining {
                    stdout: String::new(),
                    stderr: String::new(),
                    stdout_open: true,
                    stderr_open: true,
                },
                _ => Stage::Launching,
            },
            Stage::Draining { stdout, stderr, stdout_open, stderr_open } => match event {
                Event::DeadlinePassed => if bounded {
                    Stage::Finished { outcome: InvocationOutcome::TimedOut }
                } else {
                    Stage::Draining { stdout, stderr, stdout_open, stderr_open }
                },
                Event::Line { stream: Stream::Stdout, text } => {
                    let stdout = if stdout_open {
                        stdout.concat(text.as_str())
                    } else {
                        stdout
                    };
                    Stage::Draining { stdout, stderr, stdout_open, stderr_open }
                },
                Event::Line { stream: Stream::Stderr, text } => {
                    let stderr = if stderr_open {
                        stderr.concat(text.as_str())
                    } else {
                        stderr
                    };
                    Stage::Draining { stdout, stderr, stdout_open, stderr_open }
                },
                Event::EndOfStream { stream: Stream::Stdout } => Stage::Draining {
                    stdout,
                    stderr,
                    stdout_open: false,
                    stderr_open,
                },
                Event::EndOfStream { stream: Stream::Stderr } => Stage::Draining {
                    stdout,
                    stderr,
                    stdout_open,
                    stderr_open: false,
                },
                Event::Exited { success } => if !stdout_open && !stderr_open {
                    Stage::Finished {
                        outcome: InvocationOutcome::Completed {
                            exit_success: success,
                            stdout,
                            stderr,
                        },
                    }
                } else {
                    Stage::Draining { stdout, stderr, stdout_open, stderr_open }
                },
                _ => Stage::Draining { stdout, stderr, stdout_open, stderr_open },
            },
        }
    }
}

/// One run of a command, from before its start to its outcome.
pub struct Invocation {
    command: String,
    bounded: bool,
    stage: Stage,
}

impl View for Invocation {
    type V = InvocationView;

    closed spec fn view(&self) -> InvocationView {
        InvocationView {
            command: self.command@,
            bounded: self.bounded,
            progress: self.stage.progress(),
        }
    }
}

impl Invocation {
    /// A run of `request` that has not started. It is bounded where the
    /// request names a timeout.
    pub fn start(request: &InvocationRequest) -> (run: Self)
        ensures
            run@ == fresh(request@.command, request@.timeout_secs is Some),
    {
        Invocation {
            command: request.command().clone(),
            bounded: request.timeout_secs().is_some(),
            stage: Stage::Launching,
        }
    }

    /// Takes in `event`.
    pub fn step(self, event: Event) -> (next: Self)
        ensures
            next@ == step(self@, event@),
    {
        let stage = self.stage.advance(self.command.as_str(), self.bounded, event);
        Invocation { command: self.command, bounded: self.bounded, stage }
    }

    /// What the caller has to do next.
    pub fn action(&self) -> (action: Action)
        ensures
            action == action_of(self@),
    {
        match &self.stage {
            Stage::Launching => Action::Spawn,
            Stage::Draining { stdout_open, stderr_open, .. } => if *stdout_open || *stderr_open {
                Action::Read { stdout: *stdout_open, stderr: *stderr_open }
            } else {
                Action::AwaitExit
            },
            Stage::Finished { .. } => Action::Finish,
        }
    }

    /// The outcome, once the run is over; `None` before.
    pub fn outcome(self) -> (outcome: Option<InvocationOutcome>)
        ensures
            match outcome {
                Some(o) => outcome_of(self@) == Some(o@),
                None => outcome_of(self@) is None,
            },
    {
        match self.stage {
            Stage::Finished { outcome } => Some(outcome),
            _ => None,
        }
    }
}

} // verus!
