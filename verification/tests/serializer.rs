use pr47_core::util::serializer::{
    Action, ChildSerializer, Event, MainSerializer, Phase, SerializerCommons, SharedContext,
    Shutdown, Suspension,
};

#[test]
fn context_hands_out_ids_in_order() {
    let mut ctx = SharedContext::new();
    assert_eq!(ctx.next_task_id(), 0);
    assert!(ctx.is_idle());
    assert_eq!(ctx.alloc_task_id(), 0);
    assert_eq!(ctx.alloc_task_id(), 1);
    assert_eq!(ctx.alloc_task_id(), 2);
    assert_eq!(ctx.next_task_id(), 3);
    assert!(ctx.is_idle());
    assert!(ctx.get_all_tasks().is_empty());
}

#[test]
fn yield_gives_the_permit_up_and_takes_it_again() {
    let mut commons = SerializerCommons::new();
    assert!(commons.holds_permit());
    assert_eq!(commons.co_yield(), Action::ReleaseAndYield);
    assert_eq!(commons.phase(), Phase::Suspended(Suspension::Yield));
    assert!(!commons.holds_permit());
    assert_eq!(commons.advance(Event::Yielded), Some(Action::Acquire));
    assert_eq!(commons.phase(), Phase::Reacquiring);
    assert!(!commons.holds_permit());
    assert_eq!(commons.advance(Event::Acquired), Some(Action::Resume));
    assert!(commons.holds_permit());
}

#[test]
fn await_keeps_the_permit_free_while_the_future_runs() {
    let mut commons = SerializerCommons::new();
    assert_eq!(commons.co_await(), Action::ReleaseAndAwait);
    assert_eq!(commons.phase(), Phase::Suspended(Suspension::Await));
    assert!(!commons.holds_permit());
    assert_eq!(commons.advance(Event::Acquired), None);
    assert!(!commons.holds_permit());
    assert_eq!(commons.advance(Event::Completed), Some(Action::Acquire));
    assert_eq!(commons.advance(Event::Acquired), Some(Action::Resume));
    assert_eq!(commons.phase(), Phase::Running);
}

#[test]
fn reports_that_do_not_fit_change_nothing() {
    let mut commons = SerializerCommons::new();
    for event in [Event::Yielded, Event::Completed, Event::Spawned, Event::Acquired] {
        assert_eq!(commons.advance(event), None);
        assert_eq!(commons.phase(), Phase::Running);
    }
    commons.co_yield();
    for event in [Event::Completed, Event::Spawned, Event::Acquired] {
        assert_eq!(commons.advance(event), None);
        assert_eq!(commons.phase(), Phase::Suspended(Suspension::Yield));
    }
    commons.advance(Event::Yielded);
    for event in [Event::Yielded, Event::Completed, Event::Spawned] {
        assert_eq!(commons.advance(event), None);
        assert_eq!(commons.phase(), Phase::Reacquiring);
    }
}

#[test]
fn spawn_registers_the_child_and_hands_the_permit_over() {
    let mut ctx = SharedContext::new();
    let mut main = MainSerializer::new();
    let (child, _sender) = main.commons.co_spawn(&mut ctx);
    assert_eq!(child.task_id, 0);
    assert!(child.commons.holds_permit());
    assert_eq!(main.commons.phase(), Phase::Suspended(Suspension::Spawn));
    assert_eq!(ctx.next_task_id(), 1);
    assert!(!ctx.is_idle());
    assert_eq!(main.commons.advance(Event::Spawned), Some(Action::Acquire));
    assert_eq!(main.commons.advance(Event::Acquired), Some(Action::Resume));

    let (second, _sender2) = main.commons.co_spawn(&mut ctx);
    assert_eq!(second.task_id, 1);
    let tasks = ctx.get_all_tasks();
    let mut ids: Vec<u32> = tasks.keys().copied().collect();
    ids.sort();
    assert_eq!(ids, vec![0, 1]);
    assert!(ctx.is_idle());
    assert_eq!(ctx.next_task_id(), 2);
}

#[test]
fn completion_signal_reaches_the_registered_receiver() {
    let mut ctx = SharedContext::new();
    let mut main = MainSerializer::new();
    let (mut child, sender) = main.commons.co_spawn(&mut ctx);
    let mut tasks = ctx.get_all_tasks();
    let mut receiver = tasks.remove(&child.task_id).unwrap();
    assert!(receiver.try_recv().is_err());
    assert!(child.finish(&mut ctx, sender));
    assert_eq!(receiver.try_recv(), Ok(()));
    assert_eq!(child.commons.phase(), Phase::Finished);
}

#[test]
fn child_strikes_itself_off_when_it_ends() {
    let mut ctx = SharedContext::new();
    let mut main = MainSerializer::new();
    let (mut first, first_sender) = main.commons.co_spawn(&mut ctx);
    main.commons.advance(Event::Spawned);
    main.commons.advance(Event::Acquired);
    let (_second, _second_sender) = main.commons.co_spawn(&mut ctx);

    first.finish(&mut ctx, first_sender);
    assert_eq!(first.task_id, 0);
    assert!(!first.commons.holds_permit());
    let tasks = ctx.get_all_tasks();
    let ids: Vec<u32> = tasks.keys().copied().collect();
    assert_eq!(ids, vec![1]);
}

#[test]
fn signal_is_lost_when_nobody_waits() {
    let mut ctx = SharedContext::new();
    let mut main = MainSerializer::new();
    let (mut child, sender) = main.commons.co_spawn(&mut ctx);
    drop(ctx.get_all_tasks());
    assert!(!child.finish(&mut ctx, sender));
}

#[test]
fn shutdown_awaits_children_until_none_is_left() {
    let mut ctx = SharedContext::new();
    let mut main = MainSerializer::new();
    let (mut child, sender) = main.commons.co_spawn(&mut ctx);
    main.commons.advance(Event::Spawned);
    main.commons.advance(Event::Acquired);

    let mut receivers = match main.finish(&mut ctx) {
        Shutdown::AwaitChildren(tasks) => tasks,
        Shutdown::Done => panic!("a child is still running"),
    };
    assert_eq!(receivers.len(), 1);
    assert!(ctx.is_idle());
    assert_eq!(main.commons.phase(), Phase::Suspended(Suspension::Await));

    assert!(child.finish(&mut ctx, sender));
    assert_eq!(receivers.get_mut(&0).unwrap().try_recv(), Ok(()));

    assert_eq!(main.commons.advance(Event::Completed), Some(Action::Acquire));
    assert_eq!(main.commons.advance(Event::Acquired), Some(Action::Resume));
    assert!(matches!(main.finish(&mut ctx), Shutdown::Done));
    assert_eq!(main.commons.phase(), Phase::Finished);
    assert_eq!(main.commons.advance(Event::Acquired), None);
}

#[test]
fn shutdown_of_an_idle_machine_is_done_at_once() {
    let mut ctx = SharedContext::new();
    let mut main = MainSerializer::new();
    assert!(matches!(main.finish(&mut ctx), Shutdown::Done));
    assert!(!main.commons.holds_permit());
}

struct Fiber {
    handle: ChildSerializer,
    seen: Option<u32>,
    done: bool,
}

#[test]
fn fifty_fibers_count_to_fifty() {
    let mut ctx = SharedContext::new();
    let mut main = MainSerializer::new();
    let mut counter: u32 = 0;
    let mut free = false;
    let mut fibers: Vec<Fiber> = Vec::new();
    let mut senders = Vec::new();

    for _ in 0..50 {
        if free {
            assert_eq!(main.commons.advance(Event::Acquired), Some(Action::Resume));
            free = false;
        }
        assert!(main.commons.holds_permit());
        let (mut child, sender) = main.commons.co_spawn(&mut ctx);
        assert_eq!(main.commons.advance(Event::Spawned), Some(Action::Acquire));
        assert!(child.commons.holds_permit());
        let seen = counter;
        assert_eq!(child.commons.co_yield(), Action::ReleaseAndYield);
        assert_eq!(child.commons.advance(Event::Yielded), Some(Action::Acquire));
        free = true;
        fibers.push(Fiber { handle: child, seen: Some(seen), done: false });
        senders.push(sender);
    }
    assert_eq!(main.commons.advance(Event::Acquired), Some(Action::Resume));
    free = false;
    let receivers = match main.finish(&mut ctx) {
        Shutdown::AwaitChildren(tasks) => tasks,
        Shutdown::Done => panic!("fifty children are still running"),
    };
    assert_eq!(receivers.len(), 50);
    free = true;

    let mut increments: Vec<u32> = Vec::new();
    for (fiber, sender) in fibers.iter_mut().rev().zip(senders.into_iter().rev()) {
        assert!(free);
        assert_eq!(fiber.handle.commons.advance(Event::Acquired), Some(Action::Resume));
        free = false;
        assert!(fiber.seen.is_some());
        increments.push(counter);
        counter += 1;
        assert!(fiber.handle.finish(&mut ctx, sender));
        fiber.done = true;
        free = true;
    }

    assert_eq!(counter, 50);
    increments.sort();
    increments.dedup();
    assert_eq!(increments.len(), 50);
    assert!(fibers.iter().all(|f| f.done && !f.handle.commons.holds_permit()));
    let holders =
        fibers.iter().filter(|f| f.handle.commons.holds_permit()).count() + usize::from(free);
    assert_eq!(holders, 1);
}
