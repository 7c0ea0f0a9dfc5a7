//! The executor role: drives scenario playback and response matching.
//!
//! For each scenario file, in listed order, it loads the commands (files
//! that are missing or unparsable are skipped), and for each command
//! sleeps for its delay, hands the payload to the runner with streaming
//! enabled, and — when a reply is expected — waits under the command's
//! time budget, recomputed from the wall clock at every poll.  The first
//! transport error observed during a wait aborts the whole run.

use vstd::prelude::*;
use crate::interaction::command::{Command, Destination};
use crate::threads::clock::now_millis;
use crate::threads::itc::{Endpoints, Event, sleep_for_millis};

verus! {

/// What loading one scenario file yielded.
#[derive(Debug)]
pub enum LoadOutcome {
    /// The path does not name a regular file.
    NotAFile,
    /// The file exists but could not be parsed as a scenario.
    ParseFailed,
    /// The scenario's commands, in file order.
    Parsed(Vec<Command>),
}

/// The executor's source of scenarios; the surrounding program implements
/// it over the file system, tests over canned data.
pub trait ScenarioProvider {
    /// Fetches and parses the scenario file named by `path`.
    fn load(&mut self, path: &String) -> (r: LoadOutcome);
}

/// How one command's execution ended.
#[derive(Clone, Copy, Debug, PartialEq, Eq, Structural)]
pub enum CommandOutcome {
    /// The payload was handed to the runner and no reply was expected.
    Sent,
    /// A reply matched `expect_prefix` and equalled `expect_exact`.
    Matched,
    /// A reply matched `expect_prefix` but differed from `expect_exact`.
    PrefixOnly,
    /// The time budget ran out with no qualifying reply.
    TimedOut,
    /// A transport error was observed during the wait.
    Fatal,
}

/// How the executor judges one event received while waiting for a reply.
#[derive(Clone, Copy, Debug, PartialEq, Eq, Structural)]
pub enum ReplyVerdict {
    /// A frame matching the prefix and equal to the exact reply.
    Matched,
    /// A frame matching the prefix but not equal to the exact reply.
    PrefixOnly,
    /// A frame without the prefix, or an event the wait ignores.
    Irrelevant,
    /// A transport error: the whole run must stop.
    Fatal,
}

/// Whether `data` begins with `prefix`.
pub open spec fn spec_starts_with(data: Seq<u8>, prefix: Seq<u8>) -> bool {
    prefix.len() <= data.len() && data.subrange(0, prefix.len() as int) == prefix
}

/// The verdict the wait loop owes an event, given the expected prefix and
/// exact reply.
pub open spec fn spec_classify(prefix: Seq<u8>, exact: Seq<u8>, event: &Event) -> ReplyVerdict {
    match event {
        Event::DataReceived { data, .. } => if spec_starts_with(data@, prefix) {
            if data@ == exact {
                ReplyVerdict::Matched
            } else {
                ReplyVerdict::PrefixOnly
            }
        } else {
            ReplyVerdict::Irrelevant
        },
        Event::SendError => ReplyVerdict::Fatal,
        Event::ReceiveError => ReplyVerdict::Fatal,
        _ => ReplyVerdict::Irrelevant,
    }
}

/// Exec mirror of [`spec_starts_with`].
fn bytes_starts_with(data: &Vec<u8>, prefix: &Vec<u8>) -> (r: bool)
    ensures
        r == spec_starts_with(data@, prefix@),
{
    if prefix.len() > data.len() {
        return false;
    }
    let mut i: usize = 0;
    while i < prefix.len()
        invariant
            i <= prefix@.len(),
            prefix@.len() <= data@.len(),
            forall|k: int| 0 <= k < i ==> data@[k] == prefix@[k],
        decreases prefix@.len() - i,
    {
        if data[i] != prefix[i] {
            assert(data@.subrange(0, prefix@.len() as int)[i as int] != prefix@[i as int]);
            return false;
        }
        i = i + 1;
    }
    assert(data@.subrange(0, prefix@.len() as int) =~= prefix@);
    true
}

/// Byte-for-byte equality of two vectors.
fn bytes_eq(a: &Vec<u8>, b: &Vec<u8>) -> (r: bool)
    ensures
        r == (a@ == b@),
{
    if a.len() != b.len() {
        return false;
    }
    let mut i: usize = 0;
    while i < a.len()
        invariant
            i <= a@.len(),
            a@.len() == b@.len(),
            forall|k: int| 0 <= k < i ==> a@[k] == b@[k],
        decreases a@.len() - i,
    {
        if a[i] != b[i] {
            return false;
        }
        i = i + 1;
    }
    assert(a@ =~= b@);
    true
}

/// Judges one event received during a wait.
pub fn classify_reply(expect_prefix: &Vec<u8>, expect_exact: &Vec<u8>, event: &Event) -> (r:
    ReplyVerdict)
    ensures
        r == spec_classify(expect_prefix@, expect_exact@, event),
{
    match event {
        Event::DataReceived { data, .. } => {
            if bytes_starts_with(data, expect_prefix) {
                if bytes_eq(data, expect_exact) {
                    ReplyVerdict::Matched
                } else {
                    ReplyVerdict::PrefixOnly
                }
            } else {
                ReplyVerdict::Irrelevant
            }
        },
        Event::SendError => ReplyVerdict::Fatal,
        Event::ReceiveError => ReplyVerdict::Fatal,
        _ => ReplyVerdict::Irrelevant,
    }
}

/// A whole-second count as milliseconds, saturating at the largest
/// representable value.
pub open spec fn spec_millis_of_secs(secs: u64) -> u64 {
    if secs > u64::MAX / 1000 {
        u64::MAX
    } else {
        (secs * 1000) as u64
    }
}

/// Exec mirror of [`spec_millis_of_secs`].
fn millis_of_secs(secs: u64) -> (r: u64)
    ensures
        r == spec_millis_of_secs(secs),
{
    if secs > u64::MAX / 1000 {
        u64::MAX
    } else {
        secs * 1000
    }
}

/// Milliseconds elapsed from `start` to `now`, clamped to zero when the
/// clock ran backwards and saturating on overflow.
fn elapsed_millis(start: i64, now: i64) -> (r: u64)
    ensures
        start <= now && now - start <= i64::MAX ==> r == now - start,
        start <= now && now - start > i64::MAX ==> r == u64::MAX,
        now < start ==> r == 0,
{
    if now < start {
        return 0;
    }
    match now.checked_sub(start) {
        Some(d) => d as u64,
        None => u64::MAX,
    }
}

/// The ordered pair a command's dispatch hands the runner: the payload,
/// then the order to start streaming, so that bytes arriving before the
/// send are not captured.
pub fn start_sequence(data: Vec<u8>) -> (r: Vec<Event>)
    ensures
        r@.len() == 2,
        r@[0] == (Event::SendData { data }),
        r@[1] == Event::StartStream,
{
    vec![Event::SendData { data }, Event::StartStream]
}

/// Executes one command: sleep for its delay, hand `[SendData,
/// StartStream]` to the runner, and — only when a reply is expected — wait
/// under the command's time budget.  A command that expects no reply never
/// waits.
pub fn run_command(command: Command, runner_channels: &Endpoints) -> (r: CommandOutcome)
    ensures
        command@.expect_prefix.len() == 0 ==> r == CommandOutcome::Sent,
        command@.expect_prefix.len() > 0 ==> r != CommandOutcome::Sent,
{
    let Command { command: destination, description: _ } = command;
    let Destination::Connection { send, expect_prefix, expect_exact, timeout, delay } =
        destination;
    let data = send.into_data();

    sleep_for_millis(millis_of_secs(delay));

    // A failed handoff is not fatal here: the wait below judges what the
    // runner reports.
    let _ = runner_channels.send_all(start_sequence(data), "runner".to_owned());

    if expect_prefix.len() == 0 {
        return CommandOutcome::Sent;
    }

    let timeout_ms = millis_of_secs(timeout);
    let start = now_millis();
    let mut outcome = CommandOutcome::TimedOut;
    // The wait is bounded by the time budget; the fuel bound is formal
    // only.
    let mut fuel: u64 = u64::MAX;
    while fuel > 0
        invariant_except_break
            outcome == CommandOutcome::TimedOut,
        ensures
            outcome != CommandOutcome::Sent,
        decreases fuel,
    {
        fuel = fuel - 1;
        let elapsed = elapsed_millis(start, now_millis());
        if elapsed >= timeout_ms {
            break;
        }
        let remaining = timeout_ms - elapsed;
        match runner_channels.receive_timeout(remaining) {
            Ok(message) => {
                match classify_reply(&expect_prefix, &expect_exact, &message.event) {
                    ReplyVerdict::Matched => {
                        outcome = CommandOutcome::Matched;
                        break;
                    },
                    ReplyVerdict::PrefixOnly => {
                        outcome = CommandOutcome::PrefixOnly;
                        break;
                    },
                    ReplyVerdict::Fatal => {
                        outcome = CommandOutcome::Fatal;
                        break;
                    },
                    ReplyVerdict::Irrelevant => {},
                }
            },
            Err(_) => {},
        }
    }
    outcome
}

/// How one scenario's playback ended: the per-command outcomes in order,
/// and whether a transport error aborted it.
#[derive(Debug)]
pub struct ScenarioRun {
    pub outcomes: Vec<CommandOutcome>,
    pub aborted: bool,
}

/// Plays one scenario's commands in order, stopping at the first command
/// whose wait observed a transport error.
#[verifier::loop_isolation(false)]
pub fn run_scenario(commands: Vec<Command>, runner_channels: &Endpoints) -> (r: ScenarioRun)
    ensures
        !r.aborted ==> r.outcomes@.len() == commands@.len(),
        r.aborted ==> 0 < r.outcomes@.len() <= commands@.len(),
        forall|i: int|
            0 <= i < r.outcomes@.len() ==> (r.outcomes@[i] == CommandOutcome::Fatal <==> (
            r.aborted && i == r.outcomes@.len() - 1)),
        forall|i: int|
            0 <= i < r.outcomes@.len() ==> (r.outcomes@[i] == CommandOutcome::Sent
                <==> commands@[i]@.expect_prefix.len() == 0),
{
    let ghost commands_view = commands@;
    let mut outcomes: Vec<CommandOutcome> = Vec::new();
    let mut remaining = commands;
    while remaining.len() > 0
        invariant
            outcomes@.len() + remaining@.len() == commands_view.len(),
            forall|i: int|
                0 <= i < remaining@.len() ==> remaining@[i] == commands_view[outcomes@.len()
                    + i],
            forall|i: int| 0 <= i < outcomes@.len() ==> outcomes@[i] != CommandOutcome::Fatal,
            forall|i: int|
                0 <= i < outcomes@.len() ==> (outcomes@[i] == CommandOutcome::Sent
                    <==> commands_view[i]@.expect_prefix.len() == 0),
        decreases remaining@.len(),
    {
        let command = remaining.remove(0);
        let outcome = run_command(command, runner_channels);
        outcomes.push(outcome);
        if let CommandOutcome::Fatal = outcome {
            return ScenarioRun { outcomes, aborted: true };
        }
    }
    ScenarioRun { outcomes, aborted: false }
}

/// One entry of a session report: what became of one listed scenario.
#[derive(Debug)]
pub enum ScenarioOutcome {
    /// The path named no regular file; the scenario was skipped.
    SkippedMissing,
    /// The file could not be parsed; the scenario was skipped.
    SkippedUnparsable,
    /// The scenario ran.
    Ran(ScenarioRun),
}

/// How a whole session went: one entry per scenario reached, and whether a
/// transport error aborted the run.
#[derive(Debug)]
pub struct SessionReport {
    pub entries: Vec<ScenarioOutcome>,
    pub aborted: bool,
}

/// Role entry: plays every listed scenario in order against the runner,
/// skipping files that are missing or unparsable, aborting everything on
/// the first transport error, and finally handing the runner a
/// `StopRunning`.
#[verifier::loop_isolation(false)]
pub fn thread<P: ScenarioProvider>(provider: &mut P, scenarios: Vec<String>, runner_channels:
    Endpoints) -> (r: SessionReport)
    ensures
        !r.aborted ==> r.entries@.len() == scenarios@.len(),
        r.aborted ==> 0 < r.entries@.len() <= scenarios@.len(),
        forall|i: int|
            0 <= i < r.entries@.len() ==> ((#[trigger] r.entries@[i]
                matches ScenarioOutcome::Ran(run) && run.aborted) <==> (r.aborted && i
                == r.entries@.len() - 1)),
{
    let ghost scenarios_view = scenarios@;
    let mut entries: Vec<ScenarioOutcome> = Vec::new();
    let mut remaining = scenarios;
    let mut aborted = false;
    while remaining.len() > 0 && !aborted
        invariant
            entries@.len() + remaining@.len() == scenarios_view.len(),
            aborted ==> entries@.len() > 0,
            forall|i: int|
                0 <= i < entries@.len() ==> ((#[trigger] entries@[i]
                    matches ScenarioOutcome::Ran(run) && run.aborted) <==> (aborted && i
                    == entries@.len() - 1)),
        decreases remaining@.len(),
    {
        let scenario = remaining.remove(0);
        match provider.load(&scenario) {
            LoadOutcome::NotAFile => {
                entries.push(ScenarioOutcome::SkippedMissing);
            },
            LoadOutcome::ParseFailed => {
                entries.push(ScenarioOutcome::SkippedUnparsable);
            },
            LoadOutcome::Parsed(commands) => {
                let run = run_scenario(commands, &runner_channels);
                aborted = run.aborted;
                entries.push(ScenarioOutcome::Ran(run));
            },
        }
    }
    let _ = runner_channels.send(Event::StopRunning, "runner".to_owned());
    SessionReport { entries, aborted }
}

} // verus!
