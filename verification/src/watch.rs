//! Supervision of watching processes: long-running builders that rebuild
//! an artifact whenever its sources change.

use crate::error::Failure;
use crate::lists::lemma_filter_push;
use vstd::prelude::*;
use vstd::string::*;

verus! {

/// Where a watching process stands.
#[derive(Debug)]
pub enum WatchState {
    /// The process was asked for and has not finished its first build.
    Starting,
    /// The first build is done: an initial snapshot is there.
    Ready,
    /// The process has rebuilt since: the snapshot is kept current.
    Running,
    /// The process has stopped cleanly.
    Stopped,
    /// The process failed to start or ended unexpectedly.
    Failed(Failure),
}

/// What a watching process did.
#[derive(Debug)]
pub enum WatchEvent {
    /// It could not be started.
    SpawnFailed(String),
    /// It has completed a build, whose output is at the given place.
    BuildCompleted(String),
    /// It has ended, cleanly or with a report.
    Exited(Result<(), String>),
}

/// What is to be done after an event.
#[derive(Debug)]
pub enum WatchAction {
    /// Nothing.
    Nothing,
    /// The setup is done: hand the watcher out.
    AnnounceReady,
    /// The wait for the end of the watch is over: it ended well.
    ReportStopped,
    /// The wait for the end of the watch is over: it failed.
    ReportFailed(Failure),
}

/// The watcher of one target: the state of its process and the latest
/// snapshot of the artifact.
#[derive(Debug)]
pub struct Watcher {
    /// The handle by which the process is signalled.
    pub process: u32,
    pub state: WatchState,
    /// The place of the latest build's output, once there is one.
    pub snapshot: Option<String>,
}

impl WatchState {
    /// Whether the process is alive as far as is known, so that it has to
    /// be signalled on teardown.
    pub open spec fn is_live(self) -> bool {
        self is Starting || self is Ready || self is Running
    }

    /// Whether a snapshot is there for a dependent watch to start from.
    pub open spec fn is_ready(self) -> bool {
        self is Ready || self is Running
    }
}

/// The failure of a process that ended before its first build was done.
pub open spec fn ended_early(failure: Failure) -> bool {
    failure matches Failure::Watch(report) && report@
        == "The watching process ended before its first build was done."@
}

impl Watcher {
    /// A watcher whose first build is done has a snapshot.
    pub open spec fn wf(self) -> bool {
        self.state.is_ready() ==> self.snapshot is Some
    }

    /// The watcher of a process that has just been asked for.
    pub fn new(process: u32) -> (watcher: Self)
        ensures
            watcher.wf(),
            watcher.process == process,
            watcher.state is Starting,
            watcher.snapshot is None,
    {
        Watcher { process, state: WatchState::Starting, snapshot: None }
    }

    /// The watcher after an event, and what is to be done. A process that
    /// has stopped or failed stays so.
    pub open spec fn stepped(self, event: WatchEvent, next: Watcher, action: WatchAction) -> bool {
        &&& next.process == self.process
        &&& match (self.state, event) {
            (WatchState::Starting, WatchEvent::SpawnFailed(report)) => {
                &&& next.state == WatchState::Failed(Failure::Watch(report))
                &&& next.snapshot == self.snapshot
                &&& action == WatchAction::ReportFailed(Failure::Watch(report))
            },
            (WatchState::Starting, WatchEvent::BuildCompleted(place)) => {
                &&& next.state is Ready
                &&& next.snapshot == Some(place)
                &&& action is AnnounceReady
            },
            (WatchState::Starting, WatchEvent::Exited(Ok(_))) => {
                &&& next.state matches WatchState::Failed(failure)
                &&& ended_early(failure)
                &&& next.snapshot == self.snapshot
                &&& action matches WatchAction::ReportFailed(reported)
                &&& ended_early(reported)
            },
            (WatchState::Ready, WatchEvent::BuildCompleted(place)) => {
                &&& next.state is Running
                &&& next.snapshot == Some(place)
                &&& action is Nothing
            },
            (WatchState::Running, WatchEvent::BuildCompleted(place)) => {
                &&& next.state is Running
                &&& next.snapshot == Some(place)
                &&& action is Nothing
            },
            (WatchState::Ready, WatchEvent::Exited(Ok(_))) => {
                &&& next.state is Stopped
                &&& next.snapshot == self.snapshot
                &&& action is ReportStopped
            },
            (WatchState::Running, WatchEvent::Exited(Ok(_))) => {
                &&& next.state is Stopped
                &&& next.snapshot == self.snapshot
                &&& action is ReportStopped
            },
            (WatchState::Starting, WatchEvent::Exited(Err(report))) => {
                &&& next.state == WatchState::Failed(Failure::Watch(report))
                &&& next.snapshot == self.snapshot
                &&& action == WatchAction::ReportFailed(Failure::Watch(report))
            },
            (WatchState::Ready, WatchEvent::Exited(Err(report))) => {
                &&& next.state == WatchState::Failed(Failure::Watch(report))
                &&& next.snapshot == self.snapshot
                &&& action == WatchAction::ReportFailed(Failure::Watch(report))
            },
            (WatchState::Running, WatchEvent::Exited(Err(report))) => {
                &&& next.state == WatchState::Failed(Failure::Watch(report))
                &&& next.snapshot == self.snapshot
                &&& action == WatchAction::ReportFailed(Failure::Watch(report))
            },
            _ => next == self && action is Nothing,
        }
    }

    /// Takes an event of the process in.
    pub fn on(self, event: WatchEvent) -> (next: (Watcher, WatchAction))
        ensures
            self.stepped(event, next.0, next.1),
            next.0.state.is_live() ==> self.state.is_live(),
            self.state.is_ready() && next.0.state.is_live() ==> next.0.state.is_ready(),
            self.wf() ==> next.0.wf(),
    {
        let Watcher { process, state, snapshot } = self;
        match state {
            WatchState::Starting => match event {
                WatchEvent::SpawnFailed(report) => (
                    Watcher {
                        process,
                        state: WatchState::Failed(Failure::Watch(report.clone())),
                        snapshot,
                    },
                    WatchAction::ReportFailed(Failure::Watch(report)),
                ),
                WatchEvent::BuildCompleted(place) => (
                    Watcher { process, state: WatchState::Ready, snapshot: Some(place) },
                    WatchAction::AnnounceReady,
                ),
                WatchEvent::Exited(Ok(_)) => (
                    Watcher {
                        process,
                        state: WatchState::Failed(
                            Failure::Watch(
                                String::from_str(
                                    "The watching process ended before its first build was done.",
                                ),
                            ),
                        ),
                        snapshot,
                    },
                    WatchAction::ReportFailed(
                        Failure::Watch(
                            String::from_str(
                                "The watching process ended before its first build was done.",
                            ),
                        ),
                    ),
                ),
                WatchEvent::Exited(Err(report)) => (
                    Watcher {
                        process,
                        state: WatchState::Failed(Failure::Watch(report.clone())),
                        snapshot,
                    },
                    WatchAction::ReportFailed(Failure::Watch(report)),
                ),
            },
            WatchState::Ready => Self::on_ready(process, snapshot, event, true),
            WatchState::Running => Self::on_ready(process, snapshot, event, false),
            state => (Watcher { process, state, snapshot }, WatchAction::Nothing),
        }
    }

    /// Takes in an event of a process whose first build is done; `fresh`
    /// tells that it has not rebuilt since.
    fn on_ready(process: u32, snapshot: Option<String>, event: WatchEvent, fresh: bool) -> (next: (
        Watcher,
        WatchAction,
    ))
        ensures
            (Watcher {
                process,
                state: if fresh {
                    WatchState::Ready
                } else {
                    WatchState::Running
                },
                snapshot,
            }).stepped(event, next.0, next.1),
            next.0.state.is_live() ==> next.0.state.is_ready(),
            next.0.state.is_ready() && snapshot is Some ==> next.0.snapshot is Some,
            next.0.state.is_ready() && event is BuildCompleted ==> next.0.snapshot is Some,
    {
        match event {
            WatchEvent::BuildCompleted(place) => (
                Watcher { process, state: WatchState::Running, snapshot: Some(place) },
                WatchAction::Nothing,
            ),
            WatchEvent::Exited(Ok(_)) => (
                Watcher { process, state: WatchState::Stopped, snapshot },
                WatchAction::ReportStopped,
            ),
            WatchEvent::Exited(Err(report)) => (
                Watcher {
                    process,
                    state: WatchState::Failed(Failure::Watch(report.clone())),
                    snapshot,
                },
                WatchAction::ReportFailed(Failure::Watch(report)),
            ),
            WatchEvent::SpawnFailed(_) => (
                Watcher {
                    process,
                    state: if fresh {
                        WatchState::Ready
                    } else {
                        WatchState::Running
                    },
                    snapshot,
                },
                WatchAction::Nothing,
            ),
        }
    }

    /// Whether a watch that depends on this one may start its process: only
    /// once this one has a snapshot to start from.
    pub fn may_start_dependent(&self) -> (may: bool)
        ensures
            may == self.state.is_ready(),
    {
        match self.state {
            WatchState::Ready => true,
            WatchState::Running => true,
            _ => false,
        }
    }

    /// Whether the process is alive as far as is known.
    pub fn is_live(&self) -> (live: bool)
        ensures
            live == self.state.is_live(),
    {
        match self.state {
            WatchState::Starting => true,
            WatchState::Ready => true,
            WatchState::Running => true,
            _ => false,
        }
    }
}

/// The processes that a teardown has to signal: those of the watchers that
/// are alive, in the order of the watchers.
pub open spec fn live_processes(watchers: Seq<Watcher>) -> Seq<u32> {
    watchers.filter(|w: Watcher| w.state.is_live()).map_values(|w: Watcher| w.process)
}

/// Lists the processes that are to be signalled to terminate when a watch
/// operation is torn down: every process that was asked for and is not
/// known to have ended, and no other.
pub fn teardown(watchers: &Vec<Watcher>) -> (signalled: Vec<u32>)
    ensures
        signalled@ == live_processes(watchers@),
        forall|i: int|
            0 <= i < watchers@.len() && (#[trigger] watchers@[i]).state.is_live()
                ==> signalled@.contains(watchers@[i].process),
{
    let ghost live = |w: Watcher| w.state.is_live();
    let ghost handle = |w: Watcher| w.process;
    let mut signalled: Vec<u32> = Vec::new();
    let mut i: usize = 0;
    while i < watchers.len()
        invariant
            i <= watchers.len(),
            live == |w: Watcher| w.state.is_live(),
            handle == |w: Watcher| w.process,
            signalled@ == watchers@.subrange(0, i as int).filter(live).map_values(handle),
            forall|j: int|
                0 <= j < i && (#[trigger] watchers@[j]).state.is_live() ==> signalled@.contains(
                    watchers@[j].process,
                ),
        decreases watchers.len() - i,
    {
        let ghost before = watchers@.subrange(0, i as int);
        let ghost had = signalled@;
        proof {
            assert(watchers@.subrange(0, i + 1) =~= before.push(watchers@[i as int]));
            lemma_filter_push(before, watchers@[i as int], live);
        }
        if watchers[i].is_live() {
            signalled.push(watchers[i].process);
            proof {
                assert(signalled@ =~= before.push(watchers@[i as int]).filter(live).map_values(
                    handle,
                ));
                assert(signalled@[had.len() as int] == watchers@[i as int].process);
                assert forall|j: int|
                    0 <= j < i && (#[trigger] watchers@[j]).state.is_live() implies signalled@.contains(
                    watchers@[j].process,
                ) by {
                    let k = choose|k: int| 0 <= k < had.len() && had[k] == watchers@[j].process;
                    assert(signalled@[k] == watchers@[j].process);
                }
            }
        }
        i += 1;
    }
    assert(watchers@.subrange(0, watchers@.len() as int) =~= watchers@);
    signalled
}

/// No watcher before the position `upto` has failed.
pub open spec fn none_failed(watchers: Seq<Watcher>, upto: int) -> bool {
    forall|j: int| 0 <= j < upto && j < watchers.len() ==> !((#[trigger] watchers[j]).state is Failed)
}

/// What the joined wait for the end of several watches has come to: the
/// failure of the first watcher that has failed, whatever the others do;
/// success once all have stopped; nothing yet otherwise.
pub open spec fn waited(watchers: Seq<Watcher>, outcome: Option<Result<(), Failure>>) -> bool {
    match outcome {
        Some(Err(failure)) => exists|i: int|
            0 <= i < watchers.len() && (#[trigger] watchers[i]).state == WatchState::Failed(failure)
                && none_failed(watchers, i),
        Some(Ok(_)) => forall|j: int|
            0 <= j < watchers.len() ==> (#[trigger] watchers[j]).state is Stopped,
        None => none_failed(watchers, watchers.len() as int) && exists|i: int|
            0 <= i < watchers.len() && (#[trigger] watchers[i]).state.is_live(),
    }
}

/// Joins the waits for the end of several watches, failing fast: one
/// failure fails the whole watch at once, while the other processes may
/// still be running and are left to the teardown.
pub fn wait_ok(watchers: &Vec<Watcher>) -> (outcome: Option<Result<(), Failure>>)
    ensures
        waited(watchers@, outcome),
{
    let mut live: Option<usize> = None;
    let mut i: usize = 0;
    while i < watchers.len()
        invariant
            i <= watchers@.len(),
            none_failed(watchers@, i as int),
            match live {
                Some(at) => at < i && watchers@[at as int].state.is_live(),
                None => forall|j: int| 0 <= j < i ==> (#[trigger] watchers@[j]).state is Stopped,
            },
        decreases watchers.len() - i,
    {
        match &watchers[i].state {
            WatchState::Failed(failure) => {
                let failure = failure.clone();
                assert(watchers@[i as int].state == WatchState::Failed(failure));
                return Some(Err(failure));
            },
            WatchState::Stopped => {},
            _ => {
                if live.is_none() {
                    live = Some(i);
                }
            },
        }
        i += 1;
    }
    match live {
        Some(at) => {
            assert(watchers@[at as int].state.is_live());
            None
        },
        None => Some(Ok(())),
    }
}

/// Whether the next watch of a chain may start its process: every watch
/// before it, on which it depends, has a snapshot to start from.
pub fn may_start_next(watchers: &Vec<Watcher>) -> (may: bool)
    ensures
        may == forall|j: int| 0 <= j < watchers@.len() ==> (#[trigger] watchers@[j]).state.is_ready(),
{
    let mut i: usize = 0;
    while i < watchers.len()
        invariant
            i <= watchers@.len(),
            forall|j: int| 0 <= j < i ==> (#[trigger] watchers@[j]).state.is_ready(),
        decreases watchers.len() - i,
    {
        if !watchers[i].may_start_dependent() {
            return false;
        }
        i += 1;
    }
    true
}

/// Fail-fast for watches: as soon as one watcher has failed, the joined
/// wait is over with a failure, although other processes are still alive;
/// those are exactly the ones that a teardown signals.
pub proof fn lemma_watch_fails_fast(watchers: Seq<Watcher>, failed: int, outcome: Option<Result<(), Failure>>)
    requires
        0 <= failed < watchers.len(),
        watchers[failed].state is Failed,
        waited(watchers, outcome),
    ensures
        outcome matches Some(Err(_)),
        forall|i: int|
            0 <= i < watchers.len() && (#[trigger] watchers[i]).state.is_live() ==> live_processes(
                watchers,
            ).contains(watchers[i].process),
{
    assert forall|i: int| 0 <= i < watchers.len() && (#[trigger] watchers[i]).state.is_live() implies live_processes(
        watchers,
    ).contains(watchers[i].process) by {
        let live = |w: Watcher| w.state.is_live();
        let kept = watchers.filter(live);
        broadcast use vstd::seq_lib::group_filter_ensures;
        assert(live(watchers[i]));
        assert(kept.contains(watchers[i]));
        let k = choose|k: int| 0 <= k < kept.len() && kept[k] == watchers[i];
        assert(live_processes(watchers)[k] == watchers[i].process);
    }
}

} // verus!
