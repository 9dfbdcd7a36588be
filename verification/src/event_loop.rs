//! The scheduling decisions of the event loop: which queued callbacks run in a tick and
//! in what order, and how a timer is armed. Callbacks are named by ids that the runtime
//! keeps beside the closures.
use vstd::prelude::*;

verus! {

/// The callbacks waiting for the next tick: those queued by `process.nextTick` and those
/// queued by `setImmediate`, each in the order they were queued.
pub struct EventLoop {
    next_tick_queue: Vec<u64>,
    immediate_queue: Vec<u64>,
}

impl View for EventLoop {
    type V = (Seq<u64>, Seq<u64>);

    closed spec fn view(&self) -> (Seq<u64>, Seq<u64>) {
        (self.next_tick_queue@, self.immediate_queue@)
    }
}

impl EventLoop {
    /// An event loop with nothing queued.
    pub fn new() -> (r: EventLoop)
        ensures
            r@ == (Seq::<u64>::empty(), Seq::<u64>::empty()),
    {
        EventLoop { next_tick_queue: Vec::new(), immediate_queue: Vec::new() }
    }

    /// Queues a callback to run in the next tick, after the `nextTick` callbacks.
    pub fn add_immediate_task(&mut self, callback: u64)
        ensures
            final(self)@ == (old(self)@.0, old(self)@.1.push(callback)),
    {
        self.immediate_queue.push(callback);
    }

    /// Queues a callback to run in the next tick, before the immediate ones.
    pub fn set_next_tick(&mut self, callback: u64)
        ensures
            final(self)@ == (old(self)@.0.push(callback), old(self)@.1),
    {
        self.next_tick_queue.push(callback);
    }

    /// Takes the callbacks of this tick out, in the order they run: the `nextTick` ones,
    /// then the immediate ones, each in the order they were queued. The queues are left
    /// empty; the number of callbacks run is the length of the result.
    pub fn run_tick_task(&mut self) -> (r: Vec<u64>)
        ensures
            r@ == old(self)@.0 + old(self)@.1,
            final(self)@ == (Seq::<u64>::empty(), Seq::<u64>::empty()),
    {
        let mut cb_vec: Vec<u64> = Vec::new();
        std::mem::swap(&mut cb_vec, &mut self.next_tick_queue);
        let mut rest: Vec<u64> = Vec::new();
        std::mem::swap(&mut rest, &mut self.immediate_queue);
        cb_vec.append(&mut rest);
        cb_vec
    }
}

/// How `setTimeout` arms a callback.
#[derive(Debug, Clone, Copy, PartialEq, Eq, Structural)]
pub enum TimerAction {
    /// A zero timeout: the callback joins the immediate queue.
    Immediate,
    /// Otherwise: the callback runs after this many milliseconds, unless cleared.
    After(u64),
}

/// The action for a `setTimeout` with the given timeout in milliseconds; a negative
/// timeout is read as the unsigned number with the same 64 bits.
pub fn timer_action(timeout: i32) -> (r: TimerAction)
    ensures
        timeout == 0 ==> r == TimerAction::Immediate,
        timeout != 0 ==> r == TimerAction::After(timeout as u64),
{
    let t = timeout as u64;
    if timeout == 0 {
        TimerAction::Immediate
    } else {
        TimerAction::After(t)
    }
}

} // verus!
