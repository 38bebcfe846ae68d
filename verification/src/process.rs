//! The tracked child process: which one is supervised, and how it is ended.
//! The caller spawns and kills; the supervisor keeps the one handle, hands
//! it to a single terminator at a time, and says what a kill's outcome
//! means.

use crate::error::{StopError, StopErrorView};
use crate::text::{decimal_digits, push_decimal, texts};
use vstd::prelude::*;
use vstd::string::*;

verus! {

/// The identifier of a child process.
#[derive(Clone, Copy, Debug, PartialEq, Eq, Structural)]
pub struct ProcessHandle {
    pub pid: u32,
}

/// The kind of operating system that the supervisor runs on.
#[derive(Clone, Copy, Debug, PartialEq, Eq, Structural)]
pub enum Platform {
    Windows,
    MacOs,
    Linux,
}

/// A program with its arguments.
#[derive(Debug)]
pub struct CommandLine {
    pub program: String,
    pub args: Vec<String>,
}

/// A command line as a mathematical value.
pub ghost struct CommandLineView {
    pub program: Seq<char>,
    pub args: Seq<Seq<char>>,
}

impl View for CommandLine {
    type V = CommandLineView;

    open spec fn view(&self) -> CommandLineView {
        CommandLineView { program: self.program@, args: texts(self.args@) }
    }
}

/// The command that ends process `handle` at once, without a grace period.
pub open spec fn kill_command_text(platform: Platform, handle: ProcessHandle) -> CommandLineView {
    match platform {
        Platform::Windows => CommandLineView {
            program: "taskkill"@,
            args: seq!["/F"@, "/PID"@, decimal_digits(handle.pid as nat)],
        },
        _ => CommandLineView {
            program: "kill"@,
            args: seq!["-9"@, decimal_digits(handle.pid as nat)],
        },
    }
}

/// The command that ends process `handle` at once, without a grace period.
pub fn kill_command(platform: Platform, handle: ProcessHandle) -> (r: CommandLine)
    ensures
        r@ == kill_command_text(platform, handle),
{
    let mut number = String::new();
    push_decimal(&mut number, handle.pid as u64);
    assert(number@ =~= decimal_digits(handle.pid as nat));
    let mut args: Vec<String> = Vec::new();
    match platform {
        Platform::Windows => {
            args.push(String::from_str("/F"));
            args.push(String::from_str("/PID"));
            args.push(number);
            assert(texts(args@) =~= kill_command_text(platform, handle).args);
            CommandLine { program: String::from_str("taskkill"), args }
        },
        _ => {
            args.push(String::from_str("-9"));
            args.push(number);
            assert(texts(args@) =~= kill_command_text(platform, handle).args);
            CommandLine { program: String::from_str("kill"), args }
        },
    }
}

/// What came of the attempt to end a process.
#[derive(Debug)]
pub enum KillOutcome {
    /// The process was ended.
    Killed,
    /// The process was no longer there to be ended.
    AlreadyExited,
    /// The operating system's call itself failed; its reason.
    Failed(String),
}

/// A kill's outcome as a mathematical value.
pub ghost enum KillOutcomeView {
    Killed,
    AlreadyExited,
    Failed(Seq<char>),
}

impl View for KillOutcome {
    type V = KillOutcomeView;

    open spec fn view(&self) -> KillOutcomeView {
        match self {
            KillOutcome::Killed => KillOutcomeView::Killed,
            KillOutcome::AlreadyExited => KillOutcomeView::AlreadyExited,
            KillOutcome::Failed(reason) => KillOutcomeView::Failed(reason@),
        }
    }
}

impl KillOutcomeView {
    /// Whether the process is gone afterwards. A process that had already
    /// exited counts as stopped.
    pub open spec fn stopped(self) -> bool {
        !(self is Failed)
    }

    /// What the stop came to.
    pub open spec fn verdict(self) -> Result<(), StopErrorView> {
        match self {
            KillOutcomeView::Failed(reason) => Err(StopErrorView::KillFailed(reason)),
            _ => Ok(()),
        }
    }
}

/// The right to end one tracked process, given to one terminator.
#[derive(Clone, Copy, Debug, PartialEq, Eq, Structural)]
pub struct StopTicket {
    handle: ProcessHandle,
    generation: u64,
}

impl StopTicket {
    /// The process to end.
    pub closed spec fn target(self) -> ProcessHandle {
        self.handle
    }

    /// The generation of the handle when the ticket was given out.
    pub closed spec fn issued_at(self) -> u64 {
        self.generation
    }

    /// The process to end.
    pub fn handle(&self) -> (r: ProcessHandle)
        ensures
            r == self.target(),
    {
        self.handle
    }
}

/// The generation that follows `generation`.
pub open spec fn next_generation(generation: u64) -> u64 {
    if generation == u64::MAX {
        0
    } else {
        (generation + 1) as u64
    }
}

/// The tracked process as a mathematical value.
pub ghost struct ProcessModel {
    /// The supervised process, if there is one.
    pub current: Option<ProcessHandle>,
    /// Counts the handles that have been tracked.
    pub generation: u64,
}

impl ProcessModel {
    /// Nothing tracked, nothing ever tracked.
    pub open spec fn initial() -> ProcessModel {
        ProcessModel { current: None, generation: 0 }
    }

    /// After `handle` has taken the place of whatever was tracked.
    pub open spec fn track(self, handle: ProcessHandle) -> ProcessModel {
        ProcessModel { current: Some(handle), generation: next_generation(self.generation) }
    }

    /// After the tracked handle, if any, has been taken out for a
    /// terminator.
    pub open spec fn claim(self) -> ProcessModel {
        ProcessModel { current: None, ..self }
    }

    /// After a terminator has reported back. A process that is gone stays
    /// untracked. One that could not be ended is tracked again, unless
    /// another handle has been tracked since the ticket was given out.
    pub open spec fn settle(self, ticket: StopTicket, outcome: KillOutcomeView) -> ProcessModel {
        if !outcome.stopped() && self.current is None && self.generation == ticket.issued_at() {
            ProcessModel { current: Some(ticket.target()), ..self }
        } else {
            self
        }
    }
}

/// Keeps the handle of the one supervised process.
#[derive(Debug)]
pub struct ProcessSupervisor {
    current: Option<ProcessHandle>,
    generation: u64,
}

impl View for ProcessSupervisor {
    type V = ProcessModel;

    closed spec fn view(&self) -> ProcessModel {
        ProcessModel { current: self.current, generation: self.generation }
    }
}

impl ProcessSupervisor {
    /// A supervisor that tracks nothing.
    pub fn new() -> (r: Self)
        ensures
            r@ == ProcessModel::initial(),
    {
        ProcessSupervisor { current: None, generation: 0 }
    }

    /// The tracked process, if there is one.
    pub fn current(&self) -> (r: Option<ProcessHandle>)
        ensures
            r == self@.current,
    {
        self.current
    }

    /// Tracks `handle` in place of whatever was tracked, and hands back the
    /// handle that it displaced, so that no process is orphaned unseen.
    pub fn track(&mut self, handle: ProcessHandle) -> (displaced: Option<ProcessHandle>)
        ensures
            final(self)@ == old(self)@.track(handle),
            displaced == old(self)@.current,
    {
        let displaced = self.current;
        self.current = Some(handle);
        self.generation = if self.generation == u64::MAX {
            0
        } else {
            self.generation + 1
        };
        displaced
    }

    /// Takes the tracked handle out for one terminator. Whoever asks while
    /// nothing is tracked, a second terminator included, gets `NotFound`.
    pub fn claim(&mut self) -> (r: Result<StopTicket, StopError>)
        ensures
            match r {
                Ok(ticket) => {
                    &&& old(self)@.current == Some(ticket.target())
                    &&& ticket.issued_at() == old(self)@.generation
                    &&& final(self)@ == old(self)@.claim()
                },
                Err(e) => {
                    &&& old(self)@.current is None
                    &&& e@ == StopErrorView::NotFound
                    &&& final(self)@ == old(self)@
                },
            },
    {
        match self.current {
            Some(handle) => {
                self.current = None;
                Ok(StopTicket { handle, generation: self.generation })
            },
            None => Err(StopError::NotFound),
        }
    }

    /// Takes in what came of the kill that a ticket stood for. The stop
    /// succeeds when the process is gone, whether it was ended or had exited
    /// before; it fails with the operating system's reason otherwise.
    pub fn settle(&mut self, ticket: StopTicket, outcome: KillOutcome) -> (r: Result<
        (),
        StopError,
    >)
        ensures
            final(self)@ == old(self)@.settle(ticket, outcome@),
            match r {
                Ok(_) => outcome@.verdict() == Ok::<(), StopErrorView>(()),
                Err(e) => outcome@.verdict() == Err::<(), StopErrorView>(e@),
            },
    {
        match outcome {
            KillOutcome::Failed(reason) => {
                if self.current.is_none() && self.generation == ticket.generation {
                    self.current = Some(ticket.handle);
                }
                Err(StopError::KillFailed(reason))
            },
            _ => Ok(()),
        }
    }
}

/// The command that shows `url` in the user's browser.
pub open spec fn open_command_text(platform: Platform, url: Seq<char>) -> CommandLineView {
    match platform {
        Platform::MacOs => CommandLineView { program: "open"@, args: seq![url] },
        Platform::Windows => CommandLineView {
            program: "cmd"@,
            args: seq!["/c"@, "start"@, url],
        },
        Platform::Linux => CommandLineView { program: "xdg-open"@, args: seq![url] },
    }
}

/// The command that shows `url` in the user's browser.
pub fn open_command(platform: Platform, url: &str) -> (r: CommandLine)
    ensures
        r@ == open_command_text(platform, url@),
{
    let mut args: Vec<String> = Vec::new();
    match platform {
        Platform::MacOs => {
            args.push(String::from_str(url));
            assert(texts(args@) =~= open_command_text(platform, url@).args);
            CommandLine { program: String::from_str("open"), args }
        },
        Platform::Windows => {
            args.push(String::from_str("/c"));
            args.push(String::from_str("start"));
            args.push(String::from_str(url));
            assert(texts(args@) =~= open_command_text(platform, url@).args);
            CommandLine { program: String::from_str("cmd"), args }
        },
        Platform::Linux => {
            args.push(String::from_str(url));
            assert(texts(args@) =~= open_command_text(platform, url@).args);
            CommandLine { program: String::from_str("xdg-open"), args }
        },
    }
}

} // verus!
