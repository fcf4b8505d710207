//! A model of the files and processes that the controller works on, and the
//! laws that the controller obeys in it.
//!
//! The model says what each [`Action`] does and how it may be answered.
//! Probes report what is there. Reading the marker gives its content, or
//! fails, and a marker that cannot be read is answered like one that is not
//! there. A removal removes. The allocator either allocates the disk image
//! or fails, and what it leaves behind when it fails is open. The signaller
//! issues the signal whenever it runs, whatever it reports, and the process
//! may or may not exit. While the controller waits for the emulator, anything
//! may happen: other commands run in that time.

use vstd::prelude::*;
use crate::lifecycle::{
    process_listed, Action, Command, Event, Failure, Phase, Success, Tool, VmState, DISK_SIZE_GB,
};
use crate::marker::{lemma_marker_round_trip, marker_content, marker_pid};

verus! {

/// A disk image.
pub struct Image {
    /// Its nominal capacity in GiB.
    pub capacity_gb: nat,
    /// What it holds.
    pub data: Seq<u8>,
}

/// The files and processes at one moment, with a record of what was done to
/// the processes.
pub struct World {
    /// The disk image, if there is one.
    pub disk: Option<Image>,
    /// The content of the marker, if there is one.
    pub marker: Option<Seq<u8>>,
    /// The ids of the processes that the process table lists.
    pub alive: Set<u32>,
    /// The ids of the emulator processes launched so far, oldest first.
    pub launched: Seq<u32>,
    /// The process ids that the signaller was run on so far, oldest first:
    /// one entry for each signal issued, whether or not it was delivered.
    pub signalled: Seq<u32>,
}

/// An event together with the world that it left behind.
pub struct Step {
    pub event: Event,
    pub world: World,
}

impl World {
    /// The state that the files of this world amount to.
    pub open spec fn state(self) -> VmState {
        VmState::of(self.disk is Some, self.marker is Some)
    }
}

/// Whether performing `action` in the world `before` can be answered with
/// `event` and leave the world `after`.
pub open spec fn responds(before: World, action: Action, event: Event, after: World) -> bool {
    match action {
        Action::ProbeDisk => event == Event::Presence(before.disk is Some) && after == before,
        Action::ProbeMarker => event == Event::Presence(before.marker is Some) && after == before,
        Action::AllocateImage { size_gb } => match event {
            Event::Completed(true) => {
                &&& after.disk is Some
                &&& after.disk->0.capacity_gb == size_gb
                &&& after == World { disk: after.disk, ..before }
            },
            Event::Completed(false) => after == World { disk: after.disk, ..before },
            _ => false,
        },
        Action::RemoveDisk => event == Event::Done && after == World { disk: None, ..before },
        Action::SpawnEmulator => match event {
            Event::Spawned(Some(pid)) => {
                &&& !before.alive.contains(pid)
                &&& after == World {
                    alive: before.alive.insert(pid),
                    launched: before.launched.push(pid),
                    ..before
                }
            },
            Event::Spawned(None) => after == before,
            _ => false,
        },
        Action::WriteMarker { pid } => {
            &&& event == Event::Done
            &&& after == World { marker: Some(marker_content(pid)), ..before }
        },
        Action::AwaitEmulator { pid } => match event {
            Event::Completed(ran) => ran ==> !after.alive.contains(pid),
            _ => false,
        },
        Action::ReadMarker => match event {
            Event::MarkerContent(Some(bytes)) => before.marker == Some(bytes@) && after == before,
            Event::MarkerContent(None) => after == before,
            _ => false,
        },
        Action::QueryProcess { pid } => match event {
            Event::ProcessReport(Some(report)) => {
                &&& process_listed(report@) <==> before.alive.contains(pid)
                &&& after == before
            },
            Event::ProcessReport(None) => after == before,
            _ => false,
        },
        Action::Terminate { pid } => match event {
            Event::Signalled(Some(_)) => {
                &&& after.alive == before.alive || after.alive == before.alive.remove(pid)
                &&& after == World {
                    alive: after.alive,
                    signalled: before.signalled.push(pid),
                    ..before
                }
            },
            Event::Signalled(None) => after == before,
            _ => false,
        },
        Action::RemoveMarker => event == Event::Done && after == World { marker: None, ..before },
        Action::Finish(_) => false,
    }
}

/// Whether the controller, in `phase` and in the world `world`, can go
/// through `steps` and then stand in the phase `last` and the world `end`.
pub open spec fn reaches(phase: Phase, world: World, steps: Seq<Step>, last: Phase, end: World) -> bool
    decreases steps.len(),
{
    if steps.len() == 0 {
        last == phase && end == world
    } else {
        let first = steps.first();
        &&& responds(world, phase.pending(), first.event, first.world)
        &&& match phase.after(first.event) {
            Some(next) => reaches(next, first.world, steps.drop_first(), last, end),
            None => false,
        }
    }
}

/// Whether `command`, given in the world `world`, can go through `steps` and
/// end with `outcome` in the world `end`.
pub open spec fn runs(
    command: Command,
    world: World,
    steps: Seq<Step>,
    outcome: Result<Success, Failure>,
    end: World,
) -> bool {
    reaches(Phase::initial(command), world, steps, Phase::Finished(outcome), end)
}

/// The largest number of actions that the controller can still ask for.
pub open spec fn remaining(phase: Phase) -> nat {
    match phase {
        Phase::CheckingDisk => 3,
        Phase::Allocating => 2,
        Phase::Discarding => 1,
        Phase::CheckingMarker => 5,
        Phase::LocatingDisk => 4,
        Phase::Launching => 3,
        Phase::Recording { .. } => 2,
        Phase::Attached { .. } => 1,
        Phase::Reading { .. } => 6,
        Phase::Querying { .. } => 5,
        Phase::Signalling { .. } => 4,
        Phase::Clearing { .. } => 3,
        Phase::WipingDisk { .. } => 2,
        Phase::WipingMarker { .. } => 1,
        Phase::Finished(_) => 0,
    }
}

/// The controller accepts every answer that the model can give to the action
/// it asked for.
pub proof fn lemma_answers_accepted(phase: Phase, before: World, event: Event, after: World)
    requires
        responds(before, phase.pending(), event, after),
    ensures
        phase.after(event) is Some,
{
}

/// Every step brings the controller closer to the end: no command asks for
/// more than six actions.
pub proof fn lemma_commands_end(phase: Phase, world: World, steps: Seq<Step>, last: Phase, end: World)
    requires
        reaches(phase, world, steps, last, end),
    ensures
        steps.len() + remaining(last) <= remaining(phase) <= 6,
    decreases steps.len(),
{
    if steps.len() > 0 {
        let first = steps.first();
        let next = phase.after(first.event).unwrap();
        lemma_commands_end(next, first.world, steps.drop_first(), last, end);
    }
}

/// `create` refuses to touch a disk image that exists: it probes, reports
/// `AlreadyExists`, and leaves the world as it found it.
pub proof fn lemma_create_refuses_existing_disk(
    world: World,
    steps: Seq<Step>,
    outcome: Result<Success, Failure>,
    end: World,
)
    requires
        runs(Command::Create, world, steps, outcome, end),
        world.disk is Some,
    ensures
        outcome == Err::<Success, Failure>(Failure::AlreadyExists),
        end == world,
        steps.len() == 1,
{
    reveal_with_fuel(reaches, 3);
}

/// Where there is no disk image, `create` either allocates one of the
/// nominal capacity, or reports that the allocator failed and leaves no disk
/// image behind. Nothing else changes.
pub proof fn lemma_create_provisions(
    world: World,
    steps: Seq<Step>,
    outcome: Result<Success, Failure>,
    end: World,
)
    requires
        runs(Command::Create, world, steps, outcome, end),
        world.disk is None,
    ensures
        end == (World { disk: end.disk, ..world }),
        match outcome {
            Ok(Success::Created) => end.disk is Some && end.disk->0.capacity_gb == DISK_SIZE_GB,
            Err(Failure::ExternalToolFailure(Tool::ImageAllocator)) => end.disk is None,
            _ => false,
        },
{
    reveal_with_fuel(reaches, 5);
}

/// A second `create` after a successful one is refused and changes nothing.
pub proof fn lemma_create_twice(
    world: World,
    first: Seq<Step>,
    between: World,
    second: Seq<Step>,
    outcome: Result<Success, Failure>,
    end: World,
)
    requires
        runs(Command::Create, world, first, Ok(Success::Created), between),
        runs(Command::Create, between, second, outcome, end),
    ensures
        outcome == Err::<Success, Failure>(Failure::AlreadyExists),
        end == between,
{
    if world.disk is Some {
        lemma_create_refuses_existing_disk(world, first, Ok(Success::Created), between);
    } else {
        lemma_create_provisions(world, first, Ok(Success::Created), between);
    }
    lemma_create_refuses_existing_disk(between, second, outcome, end);
}

/// With neither disk image nor marker, `start` reports `MissingDisk`: it
/// launches nothing and writes no marker.
pub proof fn lemma_start_needs_disk(
    world: World,
    steps: Seq<Step>,
    outcome: Result<Success, Failure>,
    end: World,
)
    requires
        runs(Command::Start, world, steps, outcome, end),
        world.state() == VmState::NoDisk,
    ensures
        outcome == Err::<Success, Failure>(Failure::MissingDisk),
        end == world,
{
    reveal_with_fuel(reaches, 4);
}

/// Where a marker exists, `start` reports `AlreadyRunning` and leaves the
/// world as it found it, whether or not the recorded process is alive.
pub proof fn lemma_start_refuses_marker(
    world: World,
    steps: Seq<Step>,
    outcome: Result<Success, Failure>,
    end: World,
)
    requires
        runs(Command::Start, world, steps, outcome, end),
        world.marker is Some,
    ensures
        outcome == Err::<Success, Failure>(Failure::AlreadyRunning),
        end == world,
        steps.len() == 1,
{
    reveal_with_fuel(reaches, 3);
}

/// When `start` comes to wait for the emulator, it has launched exactly one
/// process, from the state `DiskOnly`, and the marker records the id of that
/// process and nothing else.
pub proof fn lemma_start_records_pid(world: World, steps: Seq<Step>, pid: u32, end: World)
    requires
        reaches(Phase::initial(Command::Start), world, steps, Phase::Attached { pid }, end),
    ensures
        world.state() == VmState::DiskOnly,
        end.state() == VmState::MarkerPresent,
        end.marker == Some(marker_content(pid)),
        marker_pid(end.marker->0) == Some(pid),
        end.launched == world.launched.push(pid),
        end.alive == world.alive.insert(pid),
        end.disk == world.disk,
        end.signalled == world.signalled,
{
    reveal_with_fuel(reaches, 6);
    lemma_marker_round_trip(pid);
}

/// From the state `DiskOnly`, `start` launches the emulator. Where that
/// fails, nothing has changed. Otherwise `start` writes the marker, which then
/// records exactly the process id that the launch returned, and waits; it
/// succeeds once the process has exited.
pub proof fn lemma_start_outcomes(
    world: World,
    steps: Seq<Step>,
    outcome: Result<Success, Failure>,
    end: World,
)
    requires
        runs(Command::Start, world, steps, outcome, end),
        world.state() == VmState::DiskOnly,
    ensures
        steps.len() == 3 || steps.len() == 5,
        steps.len() == 3 ==> {
            &&& outcome == Err::<Success, Failure>(Failure::ExternalToolFailure(Tool::Emulator))
            &&& end == world
        },
        steps.len() == 5 ==> {
            &&& steps[2].event matches Event::Spawned(Some(pid))
            &&& steps[3].world.marker == Some(marker_content(pid))
            &&& steps[3].world.launched == world.launched.push(pid)
            &&& match outcome {
                Ok(Success::Started { pid: started }) => started == pid && !end.alive.contains(pid),
                Err(Failure::ExternalToolFailure(Tool::Emulator)) => true,
                _ => false,
            }
        },
{
    reveal_with_fuel(reaches, 7);
    if steps.len() >= 5 {
        let rest = steps.drop_first().drop_first();
        assert(rest[0] == steps[2]);
        assert(rest.drop_first()[0] == steps[3]);
    }
}

/// Whether nothing but the process table differs between two worlds.
pub open spec fn undisturbed(before: World, after: World) -> bool {
    after == (World { alive: after.alive, ..before })
}

/// Where nothing else touches the files while `start` waits for the emulator
/// that it launched, `start` returns in the state `MarkerPresent`, with a
/// marker that records exactly the process id of that one launch, and with
/// the disk image as it was.
pub proof fn lemma_start_leaves_marker(
    world: World,
    steps: Seq<Step>,
    outcome: Result<Success, Failure>,
    end: World,
)
    requires
        runs(Command::Start, world, steps, outcome, end),
        world.state() == VmState::DiskOnly,
        steps.len() == 5,
        undisturbed(steps[3].world, end),
    ensures
        steps[2].event matches Event::Spawned(Some(pid)) && {
            &&& end.marker == Some(marker_content(pid))
            &&& marker_pid(end.marker->0) == Some(pid)
            &&& end.launched == world.launched.push(pid)
        },
        end.state() == VmState::MarkerPresent,
        end.disk == world.disk,
        end.signalled == world.signalled,
{
    reveal_with_fuel(reaches, 7);
    let rest = steps.drop_first().drop_first();
    assert(rest[0] == steps[2]);
    assert(rest.drop_first()[0] == steps[3]);
    if let Event::Spawned(Some(pid)) = steps[2].event {
        lemma_marker_round_trip(pid);
    }
}

/// Without a marker, `stop` reports `NoMarker` and changes nothing.
pub proof fn lemma_stop_needs_marker(
    world: World,
    steps: Seq<Step>,
    outcome: Result<Success, Failure>,
    end: World,
)
    requires
        runs(Command::Stop, world, steps, outcome, end),
        world.marker is None,
    ensures
        outcome == Err::<Success, Failure>(Failure::NoMarker),
        end == world,
        steps.len() == 1,
{
    reveal_with_fuel(reaches, 3);
}

/// Where the marker records a process that is alive, `stop` fails only if
/// the marker cannot be read, the process table cannot be asked or the
/// signaller cannot be run; it has then changed nothing. Otherwise it runs
/// the signaller on that process exactly once, with the marker still in
/// place, and then removes the marker whatever the signaller reported,
/// touching nothing else but the process, and reports that it stopped the
/// process.
pub proof fn lemma_stop_signals_once(
    world: World,
    pid: u32,
    steps: Seq<Step>,
    outcome: Result<Success, Failure>,
    end: World,
)
    requires
        runs(Command::Stop, world, steps, outcome, end),
        world.marker is Some,
        marker_pid(world.marker->0) == Some(pid),
        world.alive.contains(pid),
    ensures
        match outcome {
            Ok(Success::Stopped { pid: stopped }) => {
                &&& stopped == pid
                &&& steps.len() == 4
                &&& steps[2].event matches Event::Signalled(Some(_))
                &&& steps[2].world.signalled == world.signalled.push(pid)
                &&& steps[2].world.marker == world.marker
                &&& end.signalled == world.signalled.push(pid)
                &&& end.marker is None
                &&& end.disk == world.disk
                &&& end.launched == world.launched
                &&& world.disk is Some ==> end.state() == VmState::DiskOnly
            },
            Err(Failure::NoMarker) => {
                &&& steps.len() == 1
                &&& steps[0].event == Event::MarkerContent(None)
                &&& end == world
            },
            Err(Failure::ExternalToolFailure(Tool::ProcessTable)) => {
                &&& steps.len() == 2
                &&& steps[1].event == Event::ProcessReport(None)
                &&& end == world
            },
            Err(Failure::ExternalToolFailure(Tool::Signaller)) => {
                &&& steps.len() == 3
                &&& steps[2].event == Event::Signalled(None)
                &&& end == world
            },
            _ => false,
        },
        steps.len() > 2 ==> match steps[2].event {
            Event::Signalled(Some(_)) => {
                &&& outcome == Ok::<Success, Failure>(Success::Stopped { pid })
                &&& end.marker is None
            },
            _ => outcome == Err::<Success, Failure>(
                Failure::ExternalToolFailure(Tool::Signaller),
            ),
        },
{
    reveal_with_fuel(reaches, 6);
    if steps.len() >= 2 {
        assert(steps.drop_first()[0] == steps[1]);
    }
    if steps.len() >= 3 {
        assert(steps.drop_first().drop_first()[0] == steps[2]);
    }
}

/// Once the signaller has run, the marker is removed and the process is
/// reported as stopped, whether the signaller reported success or failure and
/// whether or not the process is still alive.
pub proof fn lemma_marker_cleared_after_signal(
    pid: u32,
    purge: bool,
    world: World,
    steps: Seq<Step>,
    outcome: Result<Success, Failure>,
    end: World,
)
    requires
        reaches(Phase::Signalling { pid, purge }, world, steps, Phase::Finished(outcome), end),
        steps.len() > 0,
        steps[0].event matches Event::Signalled(Some(_)),
    ensures
        end.marker is None,
        end.signalled == world.signalled.push(pid),
        end.launched == world.launched,
        !purge ==> outcome == Ok::<Success, Failure>(Success::Stopped { pid }) && end.disk
            == world.disk,
        purge ==> outcome == Ok::<Success, Failure>(Success::Destroyed { stop: Ok(pid) })
            && end.disk is None,
{
    reveal_with_fuel(reaches, 6);
}

/// Where the marker records no process that is alive, `stop` runs no
/// signaller and leaves the marker in place. It reports `StaleMarker`, unless
/// the marker could not be read or the process table could not be asked.
pub proof fn lemma_stop_keeps_stale_marker(
    world: World,
    steps: Seq<Step>,
    outcome: Result<Success, Failure>,
    end: World,
)
    requires
        runs(Command::Stop, world, steps, outcome, end),
        world.marker is Some,
        match marker_pid(world.marker->0) {
            Some(pid) => !world.alive.contains(pid),
            None => true,
        },
    ensures
        end == world,
        match outcome {
            Err(Failure::StaleMarker) => true,
            Err(Failure::NoMarker) => steps.len() == 1 && steps[0].event == Event::MarkerContent(
                None,
            ),
            Err(Failure::ExternalToolFailure(Tool::ProcessTable)) => {
                &&& steps.len() == 2
                &&& steps[1].event == Event::ProcessReport(None)
                &&& marker_pid(world.marker->0) is Some
            },
            _ => false,
        },
{
    reveal_with_fuel(reaches, 4);
    if steps.len() >= 2 {
        assert(steps.drop_first()[0] == steps[1]);
    }
}

spec fn stop_accounted(stop: Result<u32, Failure>, origin: World, world: World) -> bool {
    &&& world.launched == origin.launched
    &&& match stop {
        Ok(pid) => {
            &&& origin.marker is Some
            &&& marker_pid(origin.marker->0) == Some(pid)
            &&& origin.alive.contains(pid)
            &&& world.signalled == origin.signalled.push(pid)
        },
        Err(failure) => {
            &&& world.signalled == origin.signalled
            &&& world.alive == origin.alive
            &&& origin.marker is None ==> failure == Failure::NoMarker
        },
    }
}

spec fn destroying(phase: Phase, origin: World, world: World) -> bool {
    match phase {
        Phase::Reading { purge } => purge && world == origin,
        Phase::Querying { pid, purge } => {
            &&& purge
            &&& world == origin
            &&& origin.marker is Some
            &&& marker_pid(origin.marker->0) == Some(pid)
        },
        Phase::Signalling { pid, purge } => {
            &&& purge
            &&& world == origin
            &&& origin.marker is Some
            &&& marker_pid(origin.marker->0) == Some(pid)
            &&& origin.alive.contains(pid)
        },
        Phase::Clearing { pid, purge } => purge && stop_accounted(Ok(pid), origin, world),
        Phase::WipingDisk { stop } => stop_accounted(stop, origin, world),
        Phase::WipingMarker { stop } => stop_accounted(stop, origin, world) && world.disk is None,
        Phase::Finished(Ok(Success::Destroyed { stop })) => {
            &&& stop_accounted(stop, origin, world)
            &&& world.disk is None
            &&& world.marker is None
        },
        _ => false,
    }
}

proof fn lemma_destroying_holds(
    phase: Phase,
    origin: World,
    world: World,
    steps: Seq<Step>,
    last: Phase,
    end: World,
)
    requires
        destroying(phase, origin, world),
        reaches(phase, world, steps, last, end),
    ensures
        destroying(last, origin, end),
    decreases steps.len(),
{
    if steps.len() > 0 {
        let first = steps.first();
        let next = phase.after(first.event)->0;
        assert(destroying(next, origin, first.world));
        lemma_destroying_holds(next, origin, first.world, steps.drop_first(), last, end);
    }
}

/// `destroy` always succeeds, and leaves neither disk image nor marker,
/// whatever it started from and whatever the external programs did. It runs
/// the signaller only where `stop` would: at most once, on a recorded process
/// that is alive.
pub proof fn lemma_destroy_leaves_nothing(
    world: World,
    steps: Seq<Step>,
    outcome: Result<Success, Failure>,
    end: World,
)
    requires
        runs(Command::Destroy, world, steps, outcome, end),
    ensures
        end.state() == VmState::NoDisk,
        end.disk is None,
        end.marker is None,
        end.launched == world.launched,
        match outcome {
            Ok(Success::Destroyed { stop: Ok(pid) }) => {
                &&& world.marker is Some
                &&& marker_pid(world.marker->0) == Some(pid)
                &&& world.alive.contains(pid)
                &&& end.signalled == world.signalled.push(pid)
            },
            Ok(Success::Destroyed { stop: Err(failure) }) => {
                &&& end.signalled == world.signalled
                &&& end.alive == world.alive
                &&& world.marker is None ==> failure == Failure::NoMarker
            },
            _ => false,
        },
{
    lemma_destroying_holds(
        Phase::initial(Command::Destroy),
        world,
        world,
        steps,
        Phase::Finished(outcome),
        end,
    );
}

spec fn stopping_phase(phase: Phase) -> bool {
    match phase {
        Phase::Reading { purge } => !purge,
        Phase::Querying { purge, .. } => !purge,
        Phase::Signalling { purge, .. } => !purge,
        Phase::Clearing { purge, .. } => !purge,
        Phase::Finished(Ok(Success::Stopped { .. })) => true,
        Phase::Finished(Err(_)) => true,
        _ => false,
    }
}

spec fn purging(phase: Phase) -> Phase {
    match phase {
        Phase::Reading { .. } => Phase::Reading { purge: true },
        Phase::Querying { pid, .. } => Phase::Querying { pid, purge: true },
        Phase::Signalling { pid, .. } => Phase::Signalling { pid, purge: true },
        Phase::Clearing { pid, .. } => Phase::Clearing { pid, purge: true },
        Phase::Finished(Ok(Success::Stopped { pid })) => Phase::WipingDisk { stop: Ok(pid) },
        Phase::Finished(Err(failure)) => Phase::WipingDisk { stop: Err(failure) },
        _ => phase,
    }
}

proof fn lemma_purging_follows(
    phase: Phase,
    world: World,
    stopping: Seq<Step>,
    stopped: Result<Success, Failure>,
    between: World,
    destroying: Seq<Step>,
    destroyed: Result<Success, Failure>,
    end: World,
)
    requires
        stopping_phase(phase),
        reaches(phase, world, stopping, Phase::Finished(stopped), between),
        reaches(purging(phase), world, destroying, Phase::Finished(destroyed), end),
        forall|i: int|
            0 <= i < stopping.len() && i < destroying.len() ==> #[trigger] stopping[i]
                == destroying[i],
    ensures
        destroying.len() == stopping.len() + 2,
        end == (World { disk: None, marker: None, ..between }),
        purging(Phase::Finished(stopped)) == (Phase::WipingDisk { stop: destroyed->Ok_0->stop }),
        destroyed is Ok,
        destroyed->Ok_0 is Destroyed,
        stopping_phase(Phase::Finished(stopped)),
    decreases stopping.len(),
{
    if stopping.len() == 0 {
        reveal_with_fuel(reaches, 3);
    } else {
        assert(destroying.len() > 0);
        assert(stopping[0] == destroying[0]);
        let first = stopping.first();
        let next = phase.after(first.event)->0;
        assert(purging(phase).after(first.event) == Some(purging(next)));
        assert forall|i: int|
            0 <= i < stopping.drop_first().len() && i < destroying.drop_first().len() implies #[trigger] stopping.drop_first()[i]
            == destroying.drop_first()[i] by {
            assert(stopping[i + 1] == destroying[i + 1]);
        }
        lemma_purging_follows(
            next,
            first.world,
            stopping.drop_first(),
            stopped,
            between,
            destroying.drop_first(),
            destroyed,
            end,
        );
    }
}

/// `destroy` first does what `stop` does: given the same answers, it reports
/// as the result of stopping what `stop` reports as its outcome, and then
/// removes the two files and changes nothing else.
pub proof fn lemma_destroy_stops_as_stop(
    world: World,
    stopping: Seq<Step>,
    stopped: Result<Success, Failure>,
    between: World,
    destroying: Seq<Step>,
    destroyed: Result<Success, Failure>,
    end: World,
)
    requires
        runs(Command::Stop, world, stopping, stopped, between),
        runs(Command::Destroy, world, destroying, destroyed, end),
        forall|i: int|
            0 <= i < stopping.len() && i < destroying.len() ==> #[trigger] stopping[i]
                == destroying[i],
    ensures
        destroying.len() == stopping.len() + 2,
        end == (World { disk: None, marker: None, ..between }),
        match stopped {
            Ok(Success::Stopped { pid }) => destroyed == Ok::<Success, Failure>(
                Success::Destroyed { stop: Ok(pid) },
            ),
            Err(failure) => destroyed == Ok::<Success, Failure>(
                Success::Destroyed { stop: Err(failure) },
            ),
            _ => false,
        },
{
    lemma_purging_follows(
        Phase::initial(Command::Stop),
        world,
        stopping,
        stopped,
        between,
        destroying,
        destroyed,
        end,
    );
}

} // verus!
