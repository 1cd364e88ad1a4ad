//! Bookkeeping that the fibers of one virtual machine share, and the protocol
//! by which they pass the scheduling permit around.

use std::collections::HashMap;
use tokio::sync::oneshot::{Receiver, Sender};
use vstd::prelude::*;

verus! {

/// `tokio::sync::oneshot::Receiver`, the end of a one-shot channel on which a
/// fiber's completion arrives. Nothing is known of a value of this type.
#[verifier::external_type_specification]
#[verifier::external_body]
#[verifier::reject_recursive_types(T)]
pub struct ExReceiver<T>(Receiver<T>);

/// `tokio::sync::oneshot::Sender`, the end of a one-shot channel on which a
/// fiber reports its completion. Nothing is known of a value of this type.
#[verifier::external_type_specification]
#[verifier::external_body]
#[verifier::reject_recursive_types(T)]
pub struct ExSender<T>(Sender<T>);

/// `tokio::sync::oneshot::error::RecvError`, what awaiting a receiver yields
/// when its sender was dropped without sending. It is declared because the
/// receiver's type mentions it; the library never makes or reads one.
#[verifier::external_type_specification]
#[verifier::external_body]
pub struct ExRecvError(tokio::sync::oneshot::error::RecvError);

/// `tokio::sync::oneshot::channel` makes the two ends of a fresh one-shot
/// channel. It takes nothing, and nothing is claimed of the two ends.
pub assume_specification<T>[ tokio::sync::oneshot::channel::<T> ]() -> (ends: (
    Sender<T>,
    Receiver<T>,
));

/// `tokio::sync::oneshot::Sender::send` hands the value to the receiving end
/// and consumes the sender. It fails when the receiver is gone; the result
/// says whether the value was handed over. Whether the receiver is still
/// there depends on its holder, so nothing is claimed of the result.
#[verifier::external_body]
fn send_signal(sender: Sender<()>) -> (delivered: bool) {
    sender.send(()).is_ok()
}

/// State of one virtual machine that all of its fibers share: the counter
/// that hands out task ids, and the completion receiver of every task that
/// was spawned and not yet collected.
pub struct SharedContext {
    next_task_id: u32,
    running_tasks: HashMap<u32, Receiver<()>>,
}

impl SharedContext {
    /// The id that the next spawned task gets.
    pub closed spec fn spec_next_task_id(&self) -> u32 {
        self.next_task_id
    }

    /// The id that the next spawned task gets.
    #[verifier::when_used_as_spec(spec_next_task_id)]
    pub fn next_task_id(&self) -> (id: u32)
        ensures
            id == self.next_task_id(),
    {
        self.next_task_id
    }

    /// Whether no task is running.
    pub fn is_idle(&self) -> (idle: bool)
        ensures
            idle == (self.running_tasks().dom() == Set::<u32>::empty()),
    {
        let idle = self.running_tasks.is_empty();
        proof {
            if idle {
                assert(self.running_tasks@.dom() =~= Set::<u32>::empty());
            } else {
                assert(self.running_tasks@ != Map::<u32, Receiver<()>>::empty());
            }
        }
        idle
    }

    /// The completion receivers of the running tasks, by task id.
    pub closed spec fn running_tasks(&self) -> Map<u32, Receiver<()>> {
        self.running_tasks@
    }

    /// Every running task got its id from the counter: ids are handed out in
    /// increasing order, so each is below the next one.
    #[verifier::type_invariant]
    pub closed spec fn wf(&self) -> bool {
        forall|id: u32| #[trigger] self.running_tasks@.contains_key(id) ==> id < self.next_task_id
    }

    /// The id of every running task is below the counter.
    pub proof fn lemma_ids_below_counter(&self)
        requires
            self.wf(),
        ensures
            forall|id: u32| #[trigger]
                self.running_tasks().contains_key(id) ==> id < self.next_task_id(),
    {
    }

    /// A context with no task running, whose first task id is 0.
    pub fn new() -> (ctx: Self)
        ensures
            ctx.wf(),
            ctx.next_task_id() == 0,
            ctx.running_tasks() == Map::<u32, Receiver<()>>::empty(),
    {
        Self { next_task_id: 0, running_tasks: HashMap::new() }
    }

    /// Hands out the next task id and advances the counter by one.
    pub fn alloc_task_id(&mut self) -> (id: u32)
        requires
            old(self).next_task_id() < u32::MAX,
        ensures
            id == old(self).next_task_id(),
            final(self).next_task_id() == old(self).next_task_id() + 1,
            final(self).running_tasks() == old(self).running_tasks(),
    {
        proof {
            use_type_invariant(&*self);
        }
        let r: u32 = self.next_task_id;
        self.next_task_id += 1;
        r
    }

    /// Files the completion receiver of the task `task_id`, which the
    /// counter has handed out.
    fn register(&mut self, task_id: u32, receiver: Receiver<()>)
        requires
            task_id < old(self).next_task_id(),
        ensures
            final(self).next_task_id() == old(self).next_task_id(),
            final(self).running_tasks() == old(self).running_tasks().insert(task_id, receiver),
    {
        proof {
            use_type_invariant(&*self);
        }
        // The map leaves the context while it is changed, so that the
        // context is whole at every point at which the insertion could stop.
        let mut tasks: HashMap<u32, Receiver<()>> = HashMap::new();
        core::mem::swap(&mut tasks, &mut self.running_tasks);
        tasks.insert(task_id, receiver);
        core::mem::swap(&mut tasks, &mut self.running_tasks);
    }

    /// Strikes the task `task_id` off the running tasks, if it is among them.
    fn deregister(&mut self, task_id: u32)
        ensures
            final(self).next_task_id() == old(self).next_task_id(),
            final(self).running_tasks() == old(self).running_tasks().remove(task_id),
    {
        proof {
            use_type_invariant(&*self);
        }
        let mut tasks: HashMap<u32, Receiver<()>> = HashMap::new();
        core::mem::swap(&mut tasks, &mut self.running_tasks);
        tasks.remove(&task_id);
        core::mem::swap(&mut tasks, &mut self.running_tasks);
    }

    /// Takes the receivers of all running tasks out of the context, which is
    /// left with none.
    pub fn get_all_tasks(&mut self) -> (tasks: HashMap<u32, Receiver<()>>)
        ensures
            tasks@ == old(self).running_tasks(),
            final(self).running_tasks() == Map::<u32, Receiver<()>>::empty(),
            final(self).next_task_id() == old(self).next_task_id(),
    {
        let mut r: HashMap<u32, Receiver<()>> = HashMap::new();
        core::mem::swap(&mut r, &mut self.running_tasks);
        r
    }
}

/// What a fiber gave the permit up for.
#[derive(Clone, Copy, PartialEq, Eq, Structural, Debug)]
pub enum Suspension {
    /// It yields its scheduling turn.
    Yield,
    /// It awaits a future of the host.
    Await,
    /// It handed the permit to a child that it spawns.
    Spawn,
}

/// Where a fiber stands with respect to the permit.
#[derive(Clone, Copy, PartialEq, Eq, Structural, Debug)]
pub enum Phase {
    /// The fiber holds the permit and runs.
    Running,
    /// The fiber gave the permit up, and the work it gave it up for is under
    /// way.
    Suspended(Suspension),
    /// That work is done; the fiber waits to be given the permit again.
    Reacquiring,
    /// The fiber has ended and gave the permit up for good.
    Finished,
}

/// What the runtime reports to a fiber's handle.
#[derive(Clone, Copy, PartialEq, Eq, Structural, Debug)]
pub enum Event {
    /// The scheduling turn was yielded and has come back.
    Yielded,
    /// The awaited future has completed.
    Completed,
    /// The child's body was started on a worker.
    Spawned,
    /// The permit was taken for this fiber.
    Acquired,
}

/// What the runtime has to do next for a fiber.
#[derive(Clone, Copy, PartialEq, Eq, Structural, Debug)]
pub enum Action {
    /// Let go of the permit, then yield the scheduling turn and report
    /// `Event::Yielded`.
    ReleaseAndYield,
    /// Let go of the permit, then await the future and report
    /// `Event::Completed`.
    ReleaseAndAwait,
    /// Move the permit to the child, start the child's body on a worker and
    /// report `Event::Spawned`.
    HandOverAndSpawn,
    /// Block until the permit is available, take it and report
    /// `Event::Acquired`.
    Acquire,
    /// Give control back to the fiber's body, which holds the permit.
    Resume,
}

/// The phase that follows `phase` when the runtime reports `event`, and what
/// the runtime has to do then. `None` where the event does not belong to the
/// phase.
pub open spec fn next_phase(phase: Phase, event: Event) -> Option<(Phase, Action)> {
    match (phase, event) {
        (Phase::Suspended(Suspension::Yield), Event::Yielded) => Some(
            (Phase::Reacquiring, Action::Acquire),
        ),
        (Phase::Suspended(Suspension::Await), Event::Completed) => Some(
            (Phase::Reacquiring, Action::Acquire),
        ),
        (Phase::Suspended(Suspension::Spawn), Event::Spawned) => Some(
            (Phase::Reacquiring, Action::Acquire),
        ),
        (Phase::Reacquiring, Event::Acquired) => Some((Phase::Running, Action::Resume)),
        _ => None,
    }
}

/// The part of a fiber's scheduling handle that decides: it follows the
/// fiber through the permit protocol and tells the runtime what to do. The
/// runtime keeps the lock and the tasks.
pub struct SerializerCommons {
    phase: Phase,
}

impl SerializerCommons {
    /// Where the fiber stands.
    pub closed spec fn spec_phase(&self) -> Phase {
        self.phase
    }

    /// Where the fiber stands.
    #[verifier::when_used_as_spec(spec_phase)]
    pub fn phase(&self) -> (phase: Phase)
        ensures
            phase == self.phase(),
    {
        self.phase
    }

    /// Whether the fiber holds the permit: it does exactly while it runs.
    pub open spec fn spec_holds_permit(&self) -> bool {
        self.phase() == Phase::Running
    }

    /// Whether the fiber holds the permit.
    #[verifier::when_used_as_spec(spec_holds_permit)]
    pub fn holds_permit(&self) -> (held: bool)
        ensures
            held == self.holds_permit(),
    {
        self.phase == Phase::Running
    }

    /// The handle of a fiber that starts out holding the permit.
    pub fn new() -> (commons: Self)
        ensures
            commons.phase() == Phase::Running,
    {
        Self { phase: Phase::Running }
    }

    /// Starts a cooperative yield: the fiber gives the permit up so that the
    /// other fibers get their turn.
    pub fn co_yield(&mut self) -> (action: Action)
        requires
            old(self).holds_permit(),
        ensures
            final(self).phase() == Phase::Suspended(Suspension::Yield),
            action == Action::ReleaseAndYield,
    {
        self.phase = Phase::Suspended(Suspension::Yield);
        Action::ReleaseAndYield
    }

    /// Starts the wait for a future of the host: the fiber gives the permit
    /// up for as long as the future takes.
    pub fn co_await(&mut self) -> (action: Action)
        requires
            old(self).holds_permit(),
        ensures
            final(self).phase() == Phase::Suspended(Suspension::Await),
            action == Action::ReleaseAndAwait,
    {
        self.phase = Phase::Suspended(Suspension::Await);
        Action::ReleaseAndAwait
    }

    /// Spawns a child fiber: allocates its task id, registers the receiving
    /// end of a fresh completion channel under that id, and hands the permit
    /// to the child's handle, which is returned with the sending end. The
    /// child begins holding the permit; this fiber has to take it again
    /// before it goes on.
    pub fn co_spawn(&mut self, ctx: &mut SharedContext) -> (spawned: (ChildSerializer, Sender<()>))
        requires
            old(self).holds_permit(),
            old(ctx).next_task_id() < u32::MAX,
        ensures
            final(self).phase() == Phase::Suspended(Suspension::Spawn),
            spawned.0.task_id == old(ctx).next_task_id(),
            spawned.0.commons.phase() == Phase::Running,
            final(ctx).next_task_id() == old(ctx).next_task_id() + 1,
            !old(ctx).running_tasks().contains_key(spawned.0.task_id),
            final(ctx).running_tasks().contains_key(spawned.0.task_id),
            final(ctx).running_tasks().remove(spawned.0.task_id) == old(ctx).running_tasks(),
    {
        proof {
            use_type_invariant(&*ctx);
        }
        let task_id: u32 = ctx.alloc_task_id();
        let (sender, receiver) = tokio::sync::oneshot::channel::<()>();
        ctx.register(task_id, receiver);
        assert(ctx.running_tasks().remove(task_id) =~= old(ctx).running_tasks());
        self.phase = Phase::Suspended(Suspension::Spawn);
        let child = ChildSerializer { commons: SerializerCommons { phase: Phase::Running }, task_id };
        (child, sender)
    }

    /// Takes a report of the runtime: moves the fiber on and says what the
    /// runtime has to do next. A report that does not belong to the fiber's
    /// phase changes nothing and yields `None`.
    pub fn advance(&mut self, event: Event) -> (action: Option<Action>)
        ensures
            match next_phase(old(self).phase(), event) {
                Some((phase, act)) => final(self).phase() == phase && action == Some(act),
                None => final(self).phase() == old(self).phase() && action.is_none(),
            },
    {
        match (self.phase, event) {
            (Phase::Suspended(Suspension::Yield), Event::Yielded) => {
                self.phase = Phase::Reacquiring;
                Some(Action::Acquire)
            },
            (Phase::Suspended(Suspension::Await), Event::Completed) => {
                self.phase = Phase::Reacquiring;
                Some(Action::Acquire)
            },
            (Phase::Suspended(Suspension::Spawn), Event::Spawned) => {
                self.phase = Phase::Reacquiring;
                Some(Action::Acquire)
            },
            (Phase::Reacquiring, Event::Acquired) => {
                self.phase = Phase::Running;
                Some(Action::Resume)
            },
            _ => None,
        }
    }
}

/// What is left for the root fiber to do before it may shut down.
pub enum Shutdown {
    /// These tasks are still running. The runtime lets go of the permit,
    /// awaits every receiver, reports `Event::Completed`, takes the permit
    /// again and asks once more.
    AwaitChildren(HashMap<u32, Receiver<()>>),
    /// No task is left: the runtime lets go of the permit for good and frees
    /// what it holds.
    Done,
}

/// Handle of the root fiber, which owns the lifecycle of the virtual machine.
pub struct MainSerializer {
    /// The fiber's place in the permit protocol.
    pub commons: SerializerCommons,
}

impl MainSerializer {
    /// The handle of a root fiber, which starts out holding the permit.
    pub fn new() -> (main: Self)
        ensures
            main.commons.phase() == Phase::Running,
    {
        Self { commons: SerializerCommons::new() }
    }

    /// One round of the shutdown, which awaits all children: the tasks that
    /// run are taken out of the context and handed to the runtime to be
    /// awaited, without the permit, which they need to come to their end.
    /// Children may have spawned others meanwhile, so the runtime asks again
    /// until no task is left; only then is the root fiber finished.
    pub fn finish(&mut self, ctx: &mut SharedContext) -> (step: Shutdown)
        requires
            old(self).commons.holds_permit(),
        ensures
            final(ctx).next_task_id() == old(ctx).next_task_id(),
            final(ctx).running_tasks() == Map::<u32, Receiver<()>>::empty(),
            match step {
                Shutdown::AwaitChildren(tasks) => {
                    &&& tasks@ == old(ctx).running_tasks()
                    &&& tasks@.dom() != Set::<u32>::empty()
                    &&& final(self).commons.phase() == Phase::Suspended(Suspension::Await)
                },
                Shutdown::Done => {
                    &&& old(ctx).running_tasks().dom() == Set::<u32>::empty()
                    &&& final(self).commons.phase() == Phase::Finished
                },
            },
    {
        if ctx.is_idle() {
            assert(ctx.running_tasks() =~= Map::<u32, Receiver<()>>::empty());
            self.commons.phase = Phase::Finished;
            Shutdown::Done
        } else {
            let tasks = ctx.get_all_tasks();
            self.commons.phase = Phase::Suspended(Suspension::Await);
            Shutdown::AwaitChildren(tasks)
        }
    }
}

/// Handle of a spawned fiber.
pub struct ChildSerializer {
    /// The fiber's place in the permit protocol.
    pub commons: SerializerCommons,
    /// The id under which the fiber's completion is awaited.
    pub task_id: u32,
}

impl ChildSerializer {
    /// Ends the fiber once its body has returned: signals the completion on
    /// `sender`, strikes the fiber off the running tasks and gives the permit
    /// up for good. The result says whether the signal reached a receiver;
    /// it does not if nobody waits for this fiber any more.
    pub fn finish(&mut self, ctx: &mut SharedContext, sender: Sender<()>) -> (delivered: bool)
        requires
            old(self).commons.holds_permit(),
        ensures
            final(self).task_id == old(self).task_id,
            final(self).commons.phase() == Phase::Finished,
            final(ctx).next_task_id() == old(ctx).next_task_id(),
            final(ctx).running_tasks() == old(ctx).running_tasks().remove(old(self).task_id),
    {
        let delivered = send_signal(sender);
        ctx.deregister(self.task_id);
        self.commons.phase = Phase::Finished;
        delivered
    }
}

/// The fibers of one virtual machine and their permit, as the protocol sees
/// them: the phase of each fiber, and whether the permit lies free.
pub struct Fibers {
    /// The phase of each fiber, in the order in which the fibers were made.
    pub phases: Seq<Phase>,
    /// Whether no fiber holds the permit.
    pub free: bool,
}

/// One move of one fiber.
pub enum Move {
    /// The fiber starts a cooperative yield.
    Yield,
    /// The fiber starts to await a future.
    Await,
    /// The fiber spawns a child.
    Spawn,
    /// The runtime reports an event to the fiber.
    Report(Event),
    /// The fiber ends.
    Finish,
}

/// The fibers after fiber `i` has made the move `m`, or `None` where the
/// fiber cannot make it. A fiber starts a yield, a wait or a spawn, and
/// ends, only while it runs. A spawn makes a new fiber that holds the permit
/// in its parent's place. The runtime grants the permit only while it lies
/// free.
pub open spec fn fibers_step(s: Fibers, i: int, m: Move) -> Option<Fibers> {
    if !(0 <= i < s.phases.len()) {
        None
    } else {
        match m {
            Move::Yield => if s.phases[i] == Phase::Running {
                Some(
                    Fibers {
                        phases: s.phases.update(i, Phase::Suspended(Suspension::Yield)),
                        free: true,
                    },
                )
            } else {
                None
            },
            Move::Await => if s.phases[i] == Phase::Running {
                Some(
                    Fibers {
                        phases: s.phases.update(i, Phase::Suspended(Suspension::Await)),
                        free: true,
                    },
                )
            } else {
                None
            },
            Move::Spawn => if s.phases[i] == Phase::Running {
                Some(
                    Fibers {
                        phases: s.phases.update(i, Phase::Suspended(Suspension::Spawn)).push(
                            Phase::Running,
                        ),
                        free: s.free,
                    },
                )
            } else {
                None
            },
            Move::Finish => if s.phases[i] == Phase::Running {
                Some(Fibers { phases: s.phases.update(i, Phase::Finished), free: true })
            } else {
                None
            },
            Move::Report(event) => match next_phase(s.phases[i], event) {
                Some((phase, _)) => if event == Event::Acquired {
                    if s.free {
                        Some(Fibers { phases: s.phases.update(i, phase), free: false })
                    } else {
                        None
                    }
                } else {
                    Some(Fibers { phases: s.phases.update(i, phase), free: s.free })
                },
                None => None,
            },
        }
    }
}

/// The number of fibers that hold the permit.
pub open spec fn holders(phases: Seq<Phase>) -> nat
    decreases phases.len(),
{
    if phases.len() == 0 {
        0
    } else {
        holders(phases.drop_last()) + if phases.last() == Phase::Running {
            1nat
        } else {
            0nat
        }
    }
}

/// Mutual exclusion: the permit is in exactly one place. Either it lies free
/// and no fiber runs, or exactly one fiber runs.
pub open spec fn exclusive(s: Fibers) -> bool {
    holders(s.phases) + if s.free {
        1nat
    } else {
        0nat
    } == 1
}

/// Putting another phase in place of one changes the number of holders by
/// what the two phases differ in.
pub proof fn lemma_holders_update(phases: Seq<Phase>, i: int, phase: Phase)
    requires
        0 <= i < phases.len(),
    ensures
        holders(phases.update(i, phase)) + if phases[i] == Phase::Running {
            1nat
        } else {
            0nat
        } == holders(phases) + if phase == Phase::Running {
            1nat
        } else {
            0nat
        },
    decreases phases.len(),
{
    let updated = phases.update(i, phase);
    if i == phases.len() - 1 {
        assert(updated.drop_last() =~= phases.drop_last());
    } else {
        assert(updated.drop_last() =~= phases.drop_last().update(i, phase));
        lemma_holders_update(phases.drop_last(), i, phase);
    }
}

/// A virtual machine starts with its root fiber alone, which holds the
/// permit: the permit is in exactly one place.
pub proof fn lemma_exclusive_at_start()
    ensures
        exclusive(Fibers { phases: seq![Phase::Running], free: false }),
{
    let phases = seq![Phase::Running];
    assert(phases.drop_last() =~= Seq::<Phase>::empty());
    assert(holders(phases.drop_last()) == 0);
}

/// No move of any fiber breaks mutual exclusion: where the permit is in
/// exactly one place before the move, it is so after it.
pub proof fn lemma_exclusion_preserved(s: Fibers, i: int, m: Move)
    requires
        exclusive(s),
        fibers_step(s, i, m) is Some,
    ensures
        exclusive(fibers_step(s, i, m).unwrap()),
{
    let next = fibers_step(s, i, m).unwrap();
    match m {
        Move::Spawn => {
            let updated = s.phases.update(i, Phase::Suspended(Suspension::Spawn));
            lemma_holders_update(s.phases, i, Phase::Suspended(Suspension::Spawn));
            assert(next.phases.drop_last() =~= updated);
        },
        Move::Yield => {
            lemma_holders_update(s.phases, i, Phase::Suspended(Suspension::Yield));
        },
        Move::Await => {
            lemma_holders_update(s.phases, i, Phase::Suspended(Suspension::Await));
        },
        Move::Finish => {
            lemma_holders_update(s.phases, i, Phase::Finished);
        },
        Move::Report(event) => {
            let phase = next_phase(s.phases[i], event).unwrap().0;
            lemma_holders_update(s.phases, i, phase);
        },
    }
}

/// The fibers after a run of moves, each made by the fiber that is named
/// with it, or `None` where one of the moves cannot be made.
pub open spec fn fibers_run(s: Fibers, moves: Seq<(int, Move)>) -> Option<Fibers>
    decreases moves.len(),
{
    if moves.len() == 0 {
        Some(s)
    } else {
        match fibers_run(s, moves.drop_last()) {
            Some(before) => fibers_step(before, moves.last().0, moves.last().1),
            None => None,
        }
    }
}

/// Mutual exclusion holds at every point of every run: whatever the fibers
/// of a virtual machine do from its start on, the permit is in exactly one
/// place.
pub proof fn lemma_exclusion_always(moves: Seq<(int, Move)>)
    requires
        fibers_run(Fibers { phases: seq![Phase::Running], free: false }, moves) is Some,
    ensures
        exclusive(fibers_run(Fibers { phases: seq![Phase::Running], free: false }, moves).unwrap()),
    decreases moves.len(),
{
    let start = Fibers { phases: seq![Phase::Running], free: false };
    if moves.len() == 0 {
        lemma_exclusive_at_start();
    } else {
        lemma_exclusion_always(moves.drop_last());
        let before = fibers_run(start, moves.drop_last()).unwrap();
        lemma_exclusion_preserved(before, moves.last().0, moves.last().1);
    }
}

/// While the permit is in exactly one place, no two fibers run at once.
pub proof fn lemma_at_most_one_runs(s: Fibers, i: int, j: int)
    requires
        exclusive(s),
        0 <= i < s.phases.len(),
        0 <= j < s.phases.len(),
        s.phases[i] == Phase::Running,
        s.phases[j] == Phase::Running,
    ensures
        i == j,
{
    if i != j {
        lemma_holders_update(s.phases, i, Phase::Finished);
        let rest = s.phases.update(i, Phase::Finished);
        lemma_holders_update(rest, j, Phase::Finished);
    }
}

/// A fiber that yields or awaits leaves the permit to the others for the
/// whole wait: the permit lies free, any fiber that waits for it can be
/// given it, and the fiber itself cannot be given it before its wait is
/// over.
pub proof fn lemma_wait_frees_permit(s: Fibers, i: int, m: Move, j: int)
    requires
        exclusive(s),
        m is Yield || m is Await,
        fibers_step(s, i, m) is Some,
        0 <= j < s.phases.len(),
        s.phases[j] == Phase::Reacquiring,
    ensures
        ({
            let waiting = fibers_step(s, i, m).unwrap();
            &&& waiting.free
            &&& waiting.phases[i] is Suspended
            &&& fibers_step(waiting, i, Move::Report(Event::Acquired)) is None
            &&& fibers_step(waiting, j, Move::Report(Event::Acquired)) matches Some(taken)
            &&& taken.phases[j] == Phase::Running
            &&& taken.phases[i] == waiting.phases[i]
        }),
{
}

/// A fiber whose wait is over runs again once it was given the permit, and
/// not before: the report of the wait's end makes it wait for the permit,
/// and the grant of the permit makes it run.
pub proof fn lemma_wait_ends_in_running(suspension: Suspension)
    ensures
        ({
            let over = match suspension {
                Suspension::Yield => Event::Yielded,
                Suspension::Await => Event::Completed,
                Suspension::Spawn => Event::Spawned,
            };
            &&& next_phase(Phase::Suspended(suspension), over) == Some(
                (Phase::Reacquiring, Action::Acquire),
            )
            &&& next_phase(Phase::Reacquiring, Event::Acquired) == Some(
                (Phase::Running, Action::Resume),
            )
            &&& forall|event: Event|
                (#[trigger] next_phase(Phase::Suspended(suspension), event)) is Some
                    ==> next_phase(Phase::Suspended(suspension), event).unwrap().0
                    != Phase::Running
        }),
{
}

} // verus!
