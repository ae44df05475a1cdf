//! The decisions of an acquisition thread. The thread itself belongs to
//! the driver: it polls its stop channel, reads from its transport and
//! sleeps. What it does with the outcome of each of these is decided here:
//! which commands go to the dispatch loop, and how the thread goes on.

use vstd::prelude::*;
use vstd::string::StringExecFns;

use crate::commander::Command;
use crate::commander::CommandView;

verus! {

/// The pause between two polls of a hardware transport, in milliseconds.
pub const HARDWARE_POLL_MS: u64 = 10;

/// The pause between two passes over a file or standard input, in
/// milliseconds.
pub const STREAM_POLL_MS: u64 = 100;

/// What one attempt to read from a serial port came to.
#[derive(Debug)]
pub enum ReadOutcome {
    /// The read returned these bytes, possibly none.
    Bytes(Vec<u8>),
    /// Nothing arrived within the timeout.
    TimedOut,
    /// The pipe is broken: the cable was unplugged.
    BrokenPipe,
    /// Any other failure, with its message.
    Failed(String),
}

/// What the contracts say of a [`ReadOutcome`].
pub enum ReadOutcomeView {
    Bytes(Seq<u8>),
    TimedOut,
    BrokenPipe,
    Failed(Seq<char>),
}

impl DeepView for ReadOutcome {
    type V = ReadOutcomeView;

    open spec fn deep_view(&self) -> ReadOutcomeView {
        match *self {
            ReadOutcome::Bytes(bytes) => ReadOutcomeView::Bytes(bytes@),
            ReadOutcome::TimedOut => ReadOutcomeView::TimedOut,
            ReadOutcome::BrokenPipe => ReadOutcomeView::BrokenPipe,
            ReadOutcome::Failed(text) => ReadOutcomeView::Failed(text@),
        }
    }
}

/// What one attempt to read a line from a file or from standard input
/// came to.
#[derive(Debug)]
pub enum LineOutcome {
    /// The read returned these bytes, up to and with a newline if there
    /// was one; none at the end of the input.
    Bytes(Vec<u8>),
    /// The read failed.
    Failed,
}

/// What the contracts say of a [`LineOutcome`].
pub enum LineOutcomeView {
    Bytes(Seq<u8>),
    Failed,
}

impl DeepView for LineOutcome {
    type V = LineOutcomeView;

    open spec fn deep_view(&self) -> LineOutcomeView {
        match *self {
            LineOutcome::Bytes(bytes) => LineOutcomeView::Bytes(bytes@),
            LineOutcome::Failed => LineOutcomeView::Failed,
        }
    }
}

/// How an acquisition thread goes on.
#[derive(Clone, Copy, Debug, PartialEq, Eq, Structural)]
pub enum Next {
    /// Sleep this many milliseconds, then poll the stop channel again.
    Sleep(u64),
    /// Poll the stop channel again at once.
    Poll,
    /// Read again at once, without polling the stop channel.
    ReadOn,
    /// Leave the loop and end the thread.
    Exit,
}

/// What an acquisition thread does after an event: the commands it sends
/// to the dispatch loop, in order, and how it goes on.
#[derive(Debug)]
pub struct Reaction {
    pub commands: Vec<Command>,
    pub next: Next,
}

/// What the contracts say of a [`Reaction`].
pub struct ReactionView {
    pub commands: Seq<CommandView>,
    pub next: Next,
}

impl DeepView for Reaction {
    type V = ReactionView;

    open spec fn deep_view(&self) -> ReactionView {
        ReactionView { commands: self.commands.deep_view(), next: self.next }
    }
}

/// The stop channel asks the thread to end: it delivered `false`.
pub open spec fn spec_stop_requested(signal: Option<bool>) -> bool {
    signal == Some(false)
}

/// What follows a read that returned bytes: bytes are forwarded, none are
/// not, and the thread sleeps either way.
pub open spec fn forward(id: u32, bytes: Seq<u8>, pause: u64) -> ReactionView {
    ReactionView {
        commands: if bytes.len() > 0 {
            seq![CommandView::ParseLogBytes(id, bytes)]
        } else {
            Seq::empty()
        },
        next: Next::Sleep(pause),
    }
}

/// What follows a read that failed for a reason that may pass: the user
/// is told and the thread polls on.
pub open spec fn report(text: Seq<char>) -> ReactionView {
    ReactionView {
        commands: seq![CommandView::PrintMessage("Error reading port "@ + text)],
        next: Next::Poll,
    }
}

/// What a thread on a serial port does after a read. A timeout is
/// expected. A broken pipe is fatal: the thread asks for its own disconnect
/// and for a fresh look at the probes, tells the user, and ends. Any other
/// failure is reported and the thread polls on.
pub open spec fn uart_reaction(id: u32, outcome: ReadOutcomeView) -> ReactionView {
    match outcome {
        ReadOutcomeView::Bytes(bytes) => forward(id, bytes, HARDWARE_POLL_MS),
        ReadOutcomeView::TimedOut => ReactionView { commands: Seq::empty(), next: Next::Poll },
        ReadOutcomeView::BrokenPipe => ReactionView {
            commands: seq![
                CommandView::DisconnectLogSource(id),
                CommandView::RefreshProbeInfo,
                CommandView::PrintMessage("Serial port connection error"@),
            ],
            next: Next::Exit,
        },
        ReadOutcomeView::Failed(text) => report(text),
    }
}

/// What a thread on an RTT channel does after a read: bytes are
/// forwarded, a failure is reported and the thread polls on.
pub open spec fn rtt_reaction(id: u32, outcome: Result<Seq<u8>, Seq<char>>) -> ReactionView {
    match outcome {
        Ok(bytes) => forward(id, bytes, HARDWARE_POLL_MS),
        Err(text) => report(text),
    }
}

/// What a thread on an RTT channel does after it tried to attach to the
/// control block: where that failed it tells the user once and ends, with
/// no second try.
pub open spec fn rtt_attach_reaction(failure: Option<Seq<char>>) -> ReactionView {
    match failure {
        Some(text) => ReactionView {
            commands: seq![CommandView::PrintMessage("Attach region error: "@ + text)],
            next: Next::Exit,
        },
        None => ReactionView { commands: Seq::empty(), next: Next::Poll },
    }
}

/// What a thread on a file or on standard input does after a read. A line
/// is forwarded and the next one is read at once. At the end of the input,
/// and after a failure, this pass is over: the thread sleeps and polls on,
/// so that a file that grows is followed.
pub open spec fn stream_reaction(id: u32, outcome: LineOutcomeView) -> ReactionView {
    match outcome {
        LineOutcomeView::Bytes(bytes) => if bytes.len() > 0 {
            ReactionView {
                commands: seq![CommandView::ParseLogBytes(id, bytes)],
                next: Next::ReadOn,
            }
        } else {
            ReactionView { commands: Seq::empty(), next: Next::Sleep(STREAM_POLL_MS) }
        },
        LineOutcomeView::Failed => ReactionView {
            commands: Seq::empty(),
            next: Next::Sleep(STREAM_POLL_MS),
        },
    }
}

/// What the user is told when a file is opened for streaming.
pub open spec fn stream_greeting(path: Seq<char>, found: bool) -> CommandView {
    if found {
        CommandView::PrintMessage("Streaming from `"@ + path + "`"@)
    } else {
        CommandView::PrintMessage("`"@ + path + "` does not exist"@)
    }
}

/// Tells whether what the stop channel delivered asks the thread to end.
#[verifier::when_used_as_spec(spec_stop_requested)]
pub fn stop_requested(signal: Option<bool>) -> (r: bool)
    ensures
        r == spec_stop_requested(signal),
{
    match signal {
        Some(go_on) => !go_on,
        None => false,
    }
}

/// The reaction to a read that returned bytes.
fn forward_bytes(id: u32, bytes: Vec<u8>, pause: u64) -> (r: Reaction)
    ensures
        r.deep_view() == forward(id, bytes@, pause),
{
    let mut commands: Vec<Command> = Vec::new();
    if bytes.len() > 0 {
        commands.push(Command::ParseLogBytes(id, bytes));
    }
    let r = Reaction { commands, next: Next::Sleep(pause) };
    assert(r.deep_view().commands =~= forward(id, bytes@, pause).commands);
    r
}

/// The reaction to a read that failed for a reason that may pass.
fn report_failure(text: String) -> (r: Reaction)
    ensures
        r.deep_view() == report(text@),
{
    let mut message = String::from_str("Error reading port ");
    message.append(text.as_str());
    let mut commands: Vec<Command> = Vec::new();
    commands.push(Command::PrintMessage(message));
    let r = Reaction { commands, next: Next::Poll };
    assert(r.deep_view().commands =~= report(text@).commands);
    r
}

/// Decides what a thread on a serial port does after a read.
pub fn uart_react(id: u32, outcome: ReadOutcome) -> (r: Reaction)
    ensures
        r.deep_view() == uart_reaction(id, outcome.deep_view()),
{
    match outcome {
        ReadOutcome::Bytes(bytes) => forward_bytes(id, bytes, HARDWARE_POLL_MS),
        ReadOutcome::TimedOut => {
            let r = Reaction { commands: Vec::new(), next: Next::Poll };
            assert(r.deep_view().commands =~= Seq::empty());
            r
        },
        ReadOutcome::BrokenPipe => {
            let mut commands: Vec<Command> = Vec::new();
            commands.push(Command::DisconnectLogSource(id));
            commands.push(Command::RefreshProbeInfo);
            commands.push(Command::PrintMessage(String::from_str("Serial port connection error")));
            let r = Reaction { commands, next: Next::Exit };
            assert(r.deep_view().commands =~= uart_reaction(id, outcome.deep_view()).commands);
            r
        },
        ReadOutcome::Failed(text) => report_failure(text),
    }
}

/// Decides what a thread on an RTT channel does after a read.
pub fn rtt_react(id: u32, outcome: Result<Vec<u8>, String>) -> (r: Reaction)
    ensures
        r.deep_view() == rtt_reaction(
            id,
            match outcome {
                Ok(bytes) => Ok(bytes@),
                Err(text) => Err(text@),
            },
        ),
{
    match outcome {
        Ok(bytes) => forward_bytes(id, bytes, HARDWARE_POLL_MS),
        Err(text) => report_failure(text),
    }
}

/// Decides what a thread on an RTT channel does after it tried to attach
/// to the control block; `failure` holds the message of the error, if
/// there was one.
pub fn rtt_attach_react(failure: Option<String>) -> (r: Reaction)
    ensures
        r.deep_view() == rtt_attach_reaction(failure.deep_view()),
{
    match failure {
        Some(text) => {
            let mut message = String::from_str("Attach region error: ");
            message.append(text.as_str());
            let mut commands: Vec<Command> = Vec::new();
            commands.push(Command::PrintMessage(message));
            let r = Reaction { commands, next: Next::Exit };
            assert(r.deep_view().commands =~= rtt_attach_reaction(failure.deep_view()).commands);
            r
        },
        None => {
            let r = Reaction { commands: Vec::new(), next: Next::Poll };
            assert(r.deep_view().commands =~= Seq::empty());
            r
        },
    }
}

/// Decides what a thread on a file or on standard input does after a
/// read.
pub fn stream_react(id: u32, outcome: LineOutcome) -> (r: Reaction)
    ensures
        r.deep_view() == stream_reaction(id, outcome.deep_view()),
{
    match outcome {
        LineOutcome::Bytes(bytes) => {
            if bytes.len() > 0 {
                let mut commands: Vec<Command> = Vec::new();
                commands.push(Command::ParseLogBytes(id, bytes));
                let r = Reaction { commands, next: Next::ReadOn };
                assert(r.deep_view().commands =~= stream_reaction(
                    id,
                    outcome.deep_view(),
                ).commands);
                r
            } else {
                let r = Reaction { commands: Vec::new(), next: Next::Sleep(STREAM_POLL_MS) };
                assert(r.deep_view().commands =~= Seq::empty());
                r
            }
        },
        LineOutcome::Failed => {
            let r = Reaction { commands: Vec::new(), next: Next::Sleep(STREAM_POLL_MS) };
            assert(r.deep_view().commands =~= Seq::empty());
            r
        },
    }
}

/// Makes the message for the user when a file is opened for streaming.
pub fn stream_greet(path: &str, found: bool) -> (r: Command)
    ensures
        r.deep_view() == stream_greeting(path@, found),
{
    if found {
        let mut message = String::from_str("Streaming from `");
        message.append(path);
        message.append("`");
        Command::PrintMessage(message)
    } else {
        let mut message = String::from_str("`");
        message.append(path);
        message.append("` does not exist");
        Command::PrintMessage(message)
    }
}

} // verus!
