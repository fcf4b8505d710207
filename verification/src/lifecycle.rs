//! The lifecycle controller: what each command does, one step at a time.
//!
//! A command runs as a sequence of [`Phase`]s. In each phase the controller
//! asks for one [`Action`]; the caller performs it and answers with an
//! [`Event`], which moves the controller to its next phase. The last phase
//! holds the command's outcome. The controller touches neither files nor
//! processes, so every decision it takes can be stated and proved here.

use vstd::prelude::*;
use vstd::string::StringExecFns;
use crate::marker::{marker_pid, parse_marker};

verus! {

/// The nominal capacity of the disk image that `create` provisions, in GiB.
pub const DISK_SIZE_GB: u32 = 2;

/// What the user asks for.
#[derive(Clone, Copy, Debug, PartialEq, Eq)]
pub enum Command {
    Create,
    Start,
    Stop,
    Destroy,
}

/// What the files say of the machine. A marker does not imply that the
/// process it records is alive.
#[derive(Clone, Copy, Debug, PartialEq, Eq)]
pub enum VmState {
    /// Neither disk image nor marker.
    NoDisk,
    /// A disk image and no marker.
    DiskOnly,
    /// A marker, whatever else there is.
    MarkerPresent,
}

/// The external programs that the controller relies on.
#[derive(Clone, Copy, Debug, PartialEq, Eq)]
pub enum Tool {
    /// Allocates the disk image.
    ImageAllocator,
    /// Runs the virtual machine.
    Emulator,
    /// Lists a process by its id.
    ProcessTable,
    /// Sends the termination signal.
    Signaller,
}

/// Why a command did nothing, or stopped short.
#[derive(Clone, Copy, Debug, PartialEq, Eq)]
pub enum Failure {
    /// `create`: the disk image is already there.
    AlreadyExists,
    /// `start`: there is no disk image to boot from.
    MissingDisk,
    /// `start`: a marker is present.
    AlreadyRunning,
    /// `stop`: there is no marker, or none that can be read.
    NoMarker,
    /// `stop`: the marker records no process that the process table lists.
    StaleMarker,
    /// An external program failed: the allocator did not allocate the disk
    /// image; the emulator could not be launched or waited for; the process
    /// table could not be asked; the signaller could not be run. That the
    /// signaller ran and reported a failure is no failure of `stop`.
    ExternalToolFailure(Tool),
}

/// What a command achieved.
#[derive(Clone, Copy, Debug, PartialEq, Eq)]
pub enum Success {
    /// `create`: the disk image was allocated.
    Created,
    /// `start`: the emulator ran as process `pid`, and has exited since.
    Started { pid: u32 },
    /// `stop`: the signaller was run on process `pid`, once, and then the
    /// marker was removed. Whether the process has exited is not known.
    Stopped { pid: u32 },
    /// `destroy`: disk image and marker were removed. `stop` tells how the
    /// attempt to stop the machine first went: the process id that the
    /// signaller was run on, or why it was run on none.
    Destroyed { stop: Result<u32, Failure> },
}

/// One thing for the caller to do.
#[derive(Clone, Copy, Debug, PartialEq, Eq)]
pub enum Action {
    /// Tell whether the disk image exists. Answer: [`Event::Presence`].
    ProbeDisk,
    /// Tell whether the marker exists. Answer: [`Event::Presence`].
    ProbeMarker,
    /// Allocate a disk image of `size_gb` GiB. Answer: [`Event::Completed`],
    /// with `true` if the image was allocated.
    AllocateImage { size_gb: u32 },
    /// Delete the disk image, ignoring errors. Answer: [`Event::Done`].
    RemoveDisk,
    /// Launch the emulator on the caller's standard streams. Answer:
    /// [`Event::Spawned`].
    SpawnEmulator,
    /// Write the marker so that it records `pid`, replacing any earlier
    /// content. Answer: [`Event::Done`].
    WriteMarker { pid: u32 },
    /// Wait until the emulator process `pid` exits. Answer:
    /// [`Event::Completed`], with `true` once it has exited.
    AwaitEmulator { pid: u32 },
    /// Read the marker. Answer: [`Event::MarkerContent`].
    ReadMarker,
    /// Ask the process table for process `pid`. Answer:
    /// [`Event::ProcessReport`].
    QueryProcess { pid: u32 },
    /// Run the signaller on process `pid`, once, to send it the termination
    /// signal. Answer: [`Event::Signalled`].
    Terminate { pid: u32 },
    /// Delete the marker, ignoring errors. Answer: [`Event::Done`].
    RemoveMarker,
    /// Nothing more: report the outcome.
    Finish(Result<Success, Failure>),
}

/// What came of an action.
#[derive(Debug, PartialEq, Eq)]
pub enum Event {
    /// Whether the file that was probed exists.
    Presence(bool),
    /// Whether the external program did what it was run for.
    Completed(bool),
    /// The process id of the emulator, or `None` if it could not be launched.
    Spawned(Option<u32>),
    /// The content of the marker, or `None` if there is no marker or it
    /// cannot be read.
    MarkerContent(Option<Vec<u8>>),
    /// What the process table printed, or `None` if it could not be asked.
    ProcessReport(Option<Vec<u8>>),
    /// Whether the signaller reported success, or `None` if it could not be
    /// run at all.
    Signalled(Option<bool>),
    /// The action was carried out; it has nothing to tell.
    Done,
}

/// Where a command stands.
#[derive(Clone, Copy, Debug, PartialEq, Eq)]
pub enum Phase {
    /// `create`: finding out whether the disk image exists.
    CheckingDisk,
    /// `create`: allocating the disk image.
    Allocating,
    /// `create`: removing what a failed allocation may have left behind.
    Discarding,
    /// `start`: finding out whether a marker exists.
    CheckingMarker,
    /// `start`: finding out whether the disk image exists.
    LocatingDisk,
    /// `start`: launching the emulator.
    Launching,
    /// `start`: writing the marker for the emulator process.
    Recording { pid: u32 },
    /// `start`: waiting for the emulator process to exit.
    Attached { pid: u32 },
    /// `stop`, or `destroy` if `purge`: reading the marker.
    Reading { purge: bool },
    /// `stop`, or `destroy` if `purge`: asking whether the recorded process
    /// is alive.
    Querying { pid: u32, purge: bool },
    /// `stop`, or `destroy` if `purge`: signalling the recorded process.
    Signalling { pid: u32, purge: bool },
    /// `stop`, or `destroy` if `purge`: removing the marker of the process
    /// that was signalled.
    Clearing { pid: u32, purge: bool },
    /// `destroy`: removing the disk image.
    WipingDisk { stop: Result<u32, Failure> },
    /// `destroy`: removing the marker.
    WipingMarker { stop: Result<u32, Failure> },
    /// The command is over, with this outcome.
    Finished(Result<Success, Failure>),
}

/// Whether the process table's answer lists the process asked for: it does
/// if and only if it printed anything.
pub open spec fn process_listed(report: Seq<u8>) -> bool {
    report.len() > 0
}

impl Command {
    /// The command that `word` names: one of `create`, `start`, `stop` and
    /// `destroy`, written exactly so.
    pub open spec fn named(word: Seq<char>) -> Option<Command> {
        if word == "create"@ {
            Some(Command::Create)
        } else if word == "start"@ {
            Some(Command::Start)
        } else if word == "stop"@ {
            Some(Command::Stop)
        } else if word == "destroy"@ {
            Some(Command::Destroy)
        } else {
            None
        }
    }

    /// Reads a command from the word that the user gave.
    pub fn parse(word: &str) -> (command: Option<Command>)
        ensures
            command == Command::named(word@),
    {
        let word = String::from_str(word);
        if word == String::from_str("create") {
            Some(Command::Create)
        } else if word == String::from_str("start") {
            Some(Command::Start)
        } else if word == String::from_str("stop") {
            Some(Command::Stop)
        } else if word == String::from_str("destroy") {
            Some(Command::Destroy)
        } else {
            None
        }
    }

    /// Each of the four words names its own command.
    pub proof fn lemma_words()
        ensures
            Command::named("create"@) == Some(Command::Create),
            Command::named("start"@) == Some(Command::Start),
            Command::named("stop"@) == Some(Command::Stop),
            Command::named("destroy"@) == Some(Command::Destroy),
    {
        reveal_strlit("create");
        reveal_strlit("start");
        reveal_strlit("stop");
        reveal_strlit("destroy");
        assert("start"@.len() == 5 && "stop"@.len() == 4 && "destroy"@.len() == 7 && "create"@.len()
            == 6);
        assert("destroy"@[0] == 'd' && "create"@[0] == 'c');
    }
}

impl VmState {
    /// The state that the presence of the two files amounts to.
    pub open spec fn of(disk_present: bool, marker_present: bool) -> VmState {
        if marker_present {
            VmState::MarkerPresent
        } else if disk_present {
            VmState::DiskOnly
        } else {
            VmState::NoDisk
        }
    }

    /// Derives the state from the presence of the two files.
    pub fn observe(disk_present: bool, marker_present: bool) -> (state: VmState)
        ensures
            state == VmState::of(disk_present, marker_present),
    {
        if marker_present {
            VmState::MarkerPresent
        } else if disk_present {
            VmState::DiskOnly
        } else {
            VmState::NoDisk
        }
    }
}

impl Phase {
    /// The phase in which `command` starts.
    pub open spec fn initial(command: Command) -> Phase {
        match command {
            Command::Create => Phase::CheckingDisk,
            Command::Start => Phase::CheckingMarker,
            Command::Stop => Phase::Reading { purge: false },
            Command::Destroy => Phase::Reading { purge: true },
        }
    }

    /// The phase that follows the attempt to stop the machine: `stop` ends
    /// with its result, `destroy` goes on to remove the files whatever the
    /// result.
    pub open spec fn halted(stop: Result<u32, Failure>, purge: bool) -> Phase {
        if purge {
            Phase::WipingDisk { stop }
        } else {
            match stop {
                Ok(pid) => Phase::Finished(Ok(Success::Stopped { pid })),
                Err(failure) => Phase::Finished(Err(failure)),
            }
        }
    }

    /// The action that this phase waits for.
    pub open spec fn pending(self) -> Action {
        match self {
            Phase::CheckingDisk => Action::ProbeDisk,
            Phase::Allocating => Action::AllocateImage { size_gb: DISK_SIZE_GB },
            Phase::Discarding => Action::RemoveDisk,
            Phase::CheckingMarker => Action::ProbeMarker,
            Phase::LocatingDisk => Action::ProbeDisk,
            Phase::Launching => Action::SpawnEmulator,
            Phase::Recording { pid } => Action::WriteMarker { pid },
            Phase::Attached { pid } => Action::AwaitEmulator { pid },
            Phase::Reading { .. } => Action::ReadMarker,
            Phase::Querying { pid, .. } => Action::QueryProcess { pid },
            Phase::Signalling { pid, .. } => Action::Terminate { pid },
            Phase::Clearing { .. } => Action::RemoveMarker,
            Phase::WipingDisk { .. } => Action::RemoveDisk,
            Phase::WipingMarker { .. } => Action::RemoveMarker,
            Phase::Finished(outcome) => Action::Finish(outcome),
        }
    }

    /// The phase that `event` leads to, or `None` if `event` is no answer to
    /// the pending action.
    pub open spec fn after(self, event: Event) -> Option<Phase> {
        match (self, event) {
            (Phase::CheckingDisk, Event::Presence(present)) => Some(
                if present {
                    Phase::Finished(Err(Failure::AlreadyExists))
                } else {
                    Phase::Allocating
                },
            ),
            (Phase::Allocating, Event::Completed(ran)) => Some(
                if ran {
                    Phase::Finished(Ok(Success::Created))
                } else {
                    Phase::Discarding
                },
            ),
            (Phase::Discarding, Event::Done) => Some(
                Phase::Finished(Err(Failure::ExternalToolFailure(Tool::ImageAllocator))),
            ),
            (Phase::CheckingMarker, Event::Presence(present)) => Some(
                if present {
                    Phase::Finished(Err(Failure::AlreadyRunning))
                } else {
                    Phase::LocatingDisk
                },
            ),
            (Phase::LocatingDisk, Event::Presence(present)) => Some(
                if present {
                    Phase::Launching
                } else {
                    Phase::Finished(Err(Failure::MissingDisk))
                },
            ),
            (Phase::Launching, Event::Spawned(launched)) => Some(
                match launched {
                    Some(pid) => Phase::Recording { pid },
                    None => Phase::Finished(Err(Failure::ExternalToolFailure(Tool::Emulator))),
                },
            ),
            (Phase::Recording { pid }, Event::Done) => Some(Phase::Attached { pid }),
            (Phase::Attached { pid }, Event::Completed(ran)) => Some(
                if ran {
                    Phase::Finished(Ok(Success::Started { pid }))
                } else {
                    Phase::Finished(Err(Failure::ExternalToolFailure(Tool::Emulator)))
                },
            ),
            (Phase::Reading { purge }, Event::MarkerContent(content)) => Some(
                match content {
                    None => Phase::halted(Err(Failure::NoMarker), purge),
                    Some(bytes) => match marker_pid(bytes@) {
                        Some(pid) => Phase::Querying { pid, purge },
                        None => Phase::halted(Err(Failure::StaleMarker), purge),
                    },
                },
            ),
            (Phase::Querying { pid, purge }, Event::ProcessReport(answer)) => Some(
                match answer {
                    None => Phase::halted(
                        Err(Failure::ExternalToolFailure(Tool::ProcessTable)),
                        purge,
                    ),
                    Some(report) => if process_listed(report@) {
                        Phase::Signalling { pid, purge }
                    } else {
                        Phase::halted(Err(Failure::StaleMarker), purge)
                    },
                },
            ),
            (Phase::Signalling { pid, purge }, Event::Signalled(report)) => Some(
                match report {
                    Some(_) => Phase::Clearing { pid, purge },
                    None => Phase::halted(
                        Err(Failure::ExternalToolFailure(Tool::Signaller)),
                        purge,
                    ),
                },
            ),
            (Phase::Clearing { pid, purge }, Event::Done) => Some(Phase::halted(Ok(pid), purge)),
            (Phase::WipingDisk { stop }, Event::Done) => Some(Phase::WipingMarker { stop }),
            (Phase::WipingMarker { stop }, Event::Done) => Some(
                Phase::Finished(Ok(Success::Destroyed { stop })),
            ),
            _ => None,
        }
    }

    /// Starts `command`.
    pub fn begin(command: Command) -> (phase: Phase)
        ensures
            phase == Phase::initial(command),
    {
        match command {
            Command::Create => Phase::CheckingDisk,
            Command::Start => Phase::CheckingMarker,
            Command::Stop => Phase::Reading { purge: false },
            Command::Destroy => Phase::Reading { purge: true },
        }
    }

    /// The action to perform next.
    pub fn next_action(&self) -> (action: Action)
        ensures
            action == self.pending(),
    {
        match *self {
            Phase::CheckingDisk | Phase::LocatingDisk => Action::ProbeDisk,
            Phase::Allocating => Action::AllocateImage { size_gb: DISK_SIZE_GB },
            Phase::Discarding | Phase::WipingDisk { .. } => Action::RemoveDisk,
            Phase::CheckingMarker => Action::ProbeMarker,
            Phase::Launching => Action::SpawnEmulator,
            Phase::Recording { pid } => Action::WriteMarker { pid },
            Phase::Attached { pid } => Action::AwaitEmulator { pid },
            Phase::Reading { .. } => Action::ReadMarker,
            Phase::Querying { pid, .. } => Action::QueryProcess { pid },
            Phase::Signalling { pid, .. } => Action::Terminate { pid },
            Phase::Clearing { .. } | Phase::WipingMarker { .. } => Action::RemoveMarker,
            Phase::Finished(outcome) => Action::Finish(outcome),
        }
    }

    /// The outcome of the command, once it is over.
    pub fn outcome(&self) -> (outcome: Option<Result<Success, Failure>>)
        ensures
            outcome == match *self {
                Phase::Finished(result) => Some(result),
                _ => None,
            },
    {
        match *self {
            Phase::Finished(result) => Some(result),
            _ => None,
        }
    }

    fn halt(stop: Result<u32, Failure>, purge: bool) -> (phase: Phase)
        ensures
            phase == Phase::halted(stop, purge),
    {
        if purge {
            Phase::WipingDisk { stop }
        } else {
            match stop {
                Ok(pid) => Phase::Finished(Ok(Success::Stopped { pid })),
                Err(failure) => Phase::Finished(Err(failure)),
            }
        }
    }

    /// Takes the answer to the pending action and moves on. An `event` that
    /// is no answer to the pending action is refused with `None`.
    pub fn advance(self, event: Event) -> (next: Option<Phase>)
        ensures
            next == self.after(event),
    {
        match self {
            Phase::CheckingDisk => match event {
                Event::Presence(true) => Some(Phase::Finished(Err(Failure::AlreadyExists))),
                Event::Presence(false) => Some(Phase::Allocating),
                _ => None,
            },
            Phase::Allocating => match event {
                Event::Completed(true) => Some(Phase::Finished(Ok(Success::Created))),
                Event::Completed(false) => Some(Phase::Discarding),
                _ => None,
            },
            Phase::Discarding => match event {
                Event::Done => Some(
                    Phase::Finished(Err(Failure::ExternalToolFailure(Tool::ImageAllocator))),
                ),
                _ => None,
            },
            Phase::CheckingMarker => match event {
                Event::Presence(true) => Some(Phase::Finished(Err(Failure::AlreadyRunning))),
                Event::Presence(false) => Some(Phase::LocatingDisk),
                _ => None,
            },
            Phase::LocatingDisk => match event {
                Event::Presence(true) => Some(Phase::Launching),
                Event::Presence(false) => Some(Phase::Finished(Err(Failure::MissingDisk))),
                _ => None,
            },
            Phase::Launching => match event {
                Event::Spawned(Some(pid)) => Some(Phase::Recording { pid }),
                Event::Spawned(None) => Some(
                    Phase::Finished(Err(Failure::ExternalToolFailure(Tool::Emulator))),
                ),
                _ => None,
            },
            Phase::Recording { pid } => match event {
                Event::Done => Some(Phase::Attached { pid }),
                _ => None,
            },
            Phase::Attached { pid } => match event {
                Event::Completed(true) => Some(Phase::Finished(Ok(Success::Started { pid }))),
                Event::Completed(false) => Some(
                    Phase::Finished(Err(Failure::ExternalToolFailure(Tool::Emulator))),
                ),
                _ => None,
            },
            Phase::Reading { purge } => match event {
                Event::MarkerContent(None) => Some(Phase::halt(Err(Failure::NoMarker), purge)),
                Event::MarkerContent(Some(bytes)) => match parse_marker(bytes.as_slice()) {
                    Some(pid) => Some(Phase::Querying { pid, purge }),
                    None => Some(Phase::halt(Err(Failure::StaleMarker), purge)),
                },
                _ => None,
            },
            Phase::Querying { pid, purge } => match event {
                Event::ProcessReport(None) => Some(
                    Phase::halt(Err(Failure::ExternalToolFailure(Tool::ProcessTable)), purge),
                ),
                Event::ProcessReport(Some(report)) => if report.len() > 0 {
                    Some(Phase::Signalling { pid, purge })
                } else {
                    Some(Phase::halt(Err(Failure::StaleMarker), purge))
                },
                _ => None,
            },
            Phase::Signalling { pid, purge } => match event {
                Event::Signalled(Some(_)) => Some(Phase::Clearing { pid, purge }),
                Event::Signalled(None) => Some(
                    Phase::halt(Err(Failure::ExternalToolFailure(Tool::Signaller)), purge),
                ),
                _ => None,
            },
            Phase::Clearing { pid, purge } => match event {
                Event::Done => Some(Phase::halt(Ok(pid), purge)),
                _ => None,
            },
            Phase::WipingDisk { stop } => match event {
                Event::Done => Some(Phase::WipingMarker { stop }),
                _ => None,
            },
            Phase::WipingMarker { stop } => match event {
                Event::Done => Some(Phase::Finished(Ok(Success::Destroyed { stop }))),
                _ => None,
            },
            Phase::Finished(_) => None,
        }
    }
}

} // verus!
