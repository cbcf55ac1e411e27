//! The event source: one ordered queue fed by a timer and by the terminal's
//! input.
//!
//! The source holds no thread and no clock. A producer calls
//! [`EventSource::on_timer`] and [`EventSource::on_input`] as time passes and
//! input arrives, and asks [`EventSource::poll_timeout`] how long it may wait
//! for input; the consumer calls [`EventSource::next`]. Instants are counted
//! in time units since the source was created.
//!
//! Ticks are coalesced: at most one tick waits in the queue, and a tick that
//! finds the queue full or another tick waiting is skipped. Input is never
//! skipped: when the queue is full the producer keeps the input and offers
//! it again.
use crate::event::{Event, Input};
use std::collections::VecDeque;
use vstd::prelude::*;

verus! {

/// The capacity of the queue of a source made by [`EventSource::new`].
pub const DEFAULT_CAPACITY: usize = 64;

/// The producer has terminated and nothing is left to deliver.
#[derive(Clone, Copy, Debug, PartialEq, Eq, Structural)]
pub struct SourceError {}

/// The mathematical state of an event source.
pub struct SourceView {
    /// Least distance between two ticks.
    pub period: nat,
    /// Most events that may wait at once.
    pub capacity: nat,
    /// Instant at which the latest tick was generated; 0 before the first.
    pub last_tick: nat,
    /// The events that wait, oldest first.
    pub pending: Seq<Event>,
    /// Is the producer still there?
    pub alive: bool,
}

impl SourceView {
    /// The state of a source that was just created.
    pub open spec fn created(period: nat, capacity: nat) -> SourceView {
        SourceView { period, capacity, last_tick: 0, pending: Seq::empty(), alive: true }
    }

    /// The queue is within its capacity and holds at most one tick.
    pub open spec fn wf(self) -> bool {
        &&& self.pending.len() <= self.capacity
        &&& forall|i: int, j: int|
            0 <= i < j < self.pending.len() ==> !(#[trigger] self.pending[i] == Event::Tick
                && #[trigger] self.pending[j] == Event::Tick)
    }

    /// A tick is due at `now`: the producer is alive and a full period has
    /// passed since the latest tick.
    pub open spec fn tick_due(self, now: nat) -> bool {
        self.alive && now >= self.last_tick + self.period
    }

    /// How long the producer may wait for input at `now` before it has to
    /// look at the timer again: the time left until the next tick is due,
    /// and never more than one period.
    pub open spec fn poll_timeout(self, now: nat) -> nat {
        if now >= self.last_tick + self.period {
            0
        } else if now <= self.last_tick {
            self.period
        } else {
            (self.last_tick + self.period - now) as nat
        }
    }

    /// The timer at `now` puts a tick into the queue: one is due, there is
    /// room for it, and no other tick waits.
    pub open spec fn queues_tick(self, now: nat) -> bool {
        &&& self.tick_due(now)
        &&& self.pending.len() < self.capacity
        &&& !self.pending.contains(Event::Tick)
    }

    /// The state after the timer was looked at, at `now`. A due tick is
    /// generated at `now`, whether it is queued or skipped.
    pub open spec fn after_timer(self, now: nat) -> SourceView {
        if !self.tick_due(now) {
            self
        } else if self.queues_tick(now) {
            SourceView { last_tick: now, pending: self.pending.push(Event::Tick), ..self }
        } else {
            SourceView { last_tick: now, ..self }
        }
    }

    /// An input is taken: the producer is alive and the queue has room.
    pub open spec fn accepts_input(self) -> bool {
        self.alive && self.pending.len() < self.capacity
    }

    /// The state after `input` was offered.
    pub open spec fn after_input(self, input: Input) -> SourceView {
        if self.accepts_input() {
            SourceView { pending: self.pending.push(Event::of_input(input)), ..self }
        } else {
            self
        }
    }

    /// What the consumer gets: the oldest event; nothing yet, while the
    /// producer is alive; an error once it is gone and the queue is drained.
    pub open spec fn next_result(self) -> Result<Option<Event>, SourceError> {
        if self.pending.len() > 0 {
            Ok(Some(self.pending[0]))
        } else if self.alive {
            Ok(None)
        } else {
            Err(SourceError {  })
        }
    }

    /// The state after the consumer asked for an event.
    pub open spec fn after_next(self) -> SourceView {
        if self.pending.len() > 0 {
            SourceView { pending: self.pending.drop_first(), ..self }
        } else {
            self
        }
    }

    /// The state after the producer terminated.
    pub open spec fn after_terminate(self) -> SourceView {
        SourceView { alive: false, ..self }
    }
}

/// The queue between the producer (timer and input) and the consumer (the
/// main loop).
pub struct EventSource {
    period: u64,
    capacity: usize,
    last_tick: u64,
    queue: VecDeque<Event>,
    alive: bool,
}

impl View for EventSource {
    type V = SourceView;

    closed spec fn view(&self) -> SourceView {
        SourceView {
            period: self.period as nat,
            capacity: self.capacity as nat,
            last_tick: self.last_tick as nat,
            pending: self.queue@,
            alive: self.alive,
        }
    }
}

impl EventSource {
    #[verifier::type_invariant]
    closed spec fn inv(&self) -> bool {
        self@.wf()
    }

    /// Moves the queue out and leaves an empty one, which is well formed
    /// whatever else holds; the caller puts the queue back when it is done
    /// with it.
    fn take_queue(&mut self) -> (queue: VecDeque<Event>)
        ensures
            queue@ == old(self)@.pending,
            final(self)@ == (SourceView { pending: Seq::empty(), ..old(self)@ }),
    {
        let mut queue = VecDeque::new();
        std::mem::swap(&mut queue, &mut self.queue);
        queue
    }

    /// A source with the given tick period and a queue of
    /// [`DEFAULT_CAPACITY`]. Its producer counts as alive from now on, and
    /// instants count from now.
    pub fn new(period: u64) -> (source: Self)
        ensures
            source@ == SourceView::created(period as nat, DEFAULT_CAPACITY as nat),
            source@.wf(),
    {
        Self::with_capacity(period, DEFAULT_CAPACITY)
    }

    /// A source with the given tick period and queue capacity. Its producer
    /// counts as alive from now on, and instants count from now.
    pub fn with_capacity(period: u64, capacity: usize) -> (source: Self)
        ensures
            source@ == SourceView::created(period as nat, capacity as nat),
            source@.wf(),
    {
        EventSource { period, capacity, last_tick: 0, queue: VecDeque::new(), alive: true }
    }

    /// The tick period.
    pub fn period(&self) -> (period: u64)
        ensures
            period == self@.period,
    {
        self.period
    }

    /// The number of events that wait.
    pub fn len(&self) -> (len: usize)
        ensures
            len == self@.pending.len(),
    {
        self.queue.len()
    }

    /// Is the producer still there?
    pub fn is_alive(&self) -> (alive: bool)
        ensures
            alive == self@.alive,
    {
        self.alive
    }

    /// Does a tick wait in the queue?
    pub fn tick_pending(&self) -> (found: bool)
        ensures
            found == self@.pending.contains(Event::Tick),
    {
        let mut i: usize = 0;
        while i < self.queue.len()
            invariant
                i <= self.queue@.len(),
                forall|k: int| 0 <= k < i ==> self.queue@[k] != Event::Tick,
            decreases self.queue@.len() - i,
        {
            if self.queue[i].is_tick() {
                return true;
            }
            i += 1;
        }
        false
    }

    /// How long the producer may block on the terminal's input at `now`:
    /// until the next tick is due, at most one period.
    pub fn poll_timeout(&self, now: u64) -> (timeout: u64)
        ensures
            timeout == self@.poll_timeout(now as nat),
            timeout <= self@.period,
    {
        if now <= self.last_tick {
            self.period
        } else {
            let elapsed: u64 = now - self.last_tick;
            if elapsed >= self.period {
                0
            } else {
                self.period - elapsed
            }
        }
    }

    /// The producer looks at the timer at `now`. Where a tick is due, it is
    /// generated at `now`: queued if the queue has room and holds no tick
    /// yet, skipped otherwise. Returns whether a tick was queued.
    pub fn on_timer(&mut self, now: u64) -> (queued: bool)
        ensures
            final(self)@ == old(self)@.after_timer(now as nat),
            queued == old(self)@.queues_tick(now as nat),
            final(self)@.wf(),
    {
        proof {
            use_type_invariant(&*self);
        }
        if !self.alive || now < self.last_tick || now - self.last_tick < self.period {
            return false;
        }
        self.last_tick = now;
        if self.queue.len() >= self.capacity || self.tick_pending() {
            return false;
        }
        let mut queue = self.take_queue();
        queue.push_back(Event::Tick);
        self.queue = queue;
        true
    }

    /// The producer offers an input of the terminal. It is queued behind
    /// everything that waits, unless the queue is full or the producer has
    /// terminated; then nothing changes. Returns whether it was queued.
    pub fn on_input(&mut self, input: Input) -> (queued: bool)
        ensures
            final(self)@ == old(self)@.after_input(input),
            queued == old(self)@.accepts_input(),
            final(self)@.wf(),
    {
        proof {
            use_type_invariant(&*self);
        }
        if !self.alive || self.queue.len() >= self.capacity {
            return false;
        }
        let mut queue = self.take_queue();
        queue.push_back(Event::from_input(input));
        self.queue = queue;
        true
    }

    /// The consumer asks for the next event. `Ok(Some(..))` is the oldest
    /// event, which leaves the queue; `Ok(None)` says that nothing waits and
    /// the producer is alive, so the consumer should wait; the error says
    /// that nothing waits and nothing will come.
    pub fn next(&mut self) -> (result: Result<Option<Event>, SourceError>)
        ensures
            final(self)@ == old(self)@.after_next(),
            result == old(self)@.next_result(),
            final(self)@.wf(),
    {
        proof {
            use_type_invariant(&*self);
        }
        let mut queue = self.take_queue();
        let front = queue.pop_front();
        self.queue = queue;
        match front {
            Some(event) => Ok(Some(event)),
            None => if self.alive {
                Ok(None)
            } else {
                Err(SourceError {  })
            },
        }
    }

    /// Records that the producer has terminated. What waits can still be
    /// taken; after that `next` fails.
    pub fn terminate(&mut self)
        ensures
            final(self)@ == old(self)@.after_terminate(),
            final(self)@.wf(),
    {
        proof {
            use_type_invariant(&*self);
        }
        self.alive = false;
    }
}

/// What can happen to an event source.
pub enum SourceOp {
    /// The producer looks at the timer at this instant.
    Timer(nat),
    /// The producer offers an input.
    Input(Input),
    /// The consumer asks for an event.
    Next,
    /// The producer terminates.
    Terminate,
}

impl SourceView {
    /// The state after `op`.
    pub open spec fn apply(self, op: SourceOp) -> SourceView {
        match op {
            SourceOp::Timer(now) => self.after_timer(now),
            SourceOp::Input(input) => self.after_input(input),
            SourceOp::Next => self.after_next(),
            SourceOp::Terminate => self.after_terminate(),
        }
    }

    /// The events that `op` puts into the queue: none or one.
    pub open spec fn queued_by(self, op: SourceOp) -> Seq<Event> {
        match op {
            SourceOp::Timer(now) => if self.queues_tick(now) {
                seq![Event::Tick]
            } else {
                Seq::empty()
            },
            SourceOp::Input(input) => if self.accepts_input() {
                seq![Event::of_input(input)]
            } else {
                Seq::empty()
            },
            _ => Seq::empty(),
        }
    }

    /// The events that `op` hands to the consumer: none or one.
    pub open spec fn taken_by(self, op: SourceOp) -> Seq<Event> {
        match op {
            SourceOp::Next => if self.pending.len() > 0 {
                seq![self.pending[0]]
            } else {
                Seq::empty()
            },
            _ => Seq::empty(),
        }
    }

    /// The instants at which `op` generates a tick, queued or skipped: none
    /// or one.
    pub open spec fn ticked_by(self, op: SourceOp) -> Seq<nat> {
        match op {
            SourceOp::Timer(now) => if self.tick_due(now) {
                seq![now]
            } else {
                Seq::empty()
            },
            _ => Seq::empty(),
        }
    }
}

/// The state after a sequence of operations.
pub open spec fn run(start: SourceView, ops: Seq<SourceOp>) -> SourceView
    decreases ops.len(),
{
    if ops.len() == 0 {
        start
    } else {
        run(start.apply(ops[0]), ops.drop_first())
    }
}

/// The events that a sequence of operations puts into the queue, in order.
pub open spec fn queued(start: SourceView, ops: Seq<SourceOp>) -> Seq<Event>
    decreases ops.len(),
{
    if ops.len() == 0 {
        Seq::empty()
    } else {
        start.queued_by(ops[0]) + queued(start.apply(ops[0]), ops.drop_first())
    }
}

/// The events that a sequence of operations hands to the consumer, in order.
pub open spec fn taken(start: SourceView, ops: Seq<SourceOp>) -> Seq<Event>
    decreases ops.len(),
{
    if ops.len() == 0 {
        Seq::empty()
    } else {
        start.taken_by(ops[0]) + taken(start.apply(ops[0]), ops.drop_first())
    }
}

/// The instants at which a sequence of operations generates a tick, in
/// order.
pub open spec fn tick_instants(start: SourceView, ops: Seq<SourceOp>) -> Seq<nat>
    decreases ops.len(),
{
    if ops.len() == 0 {
        Seq::empty()
    } else {
        start.ticked_by(ops[0]) + tick_instants(start.apply(ops[0]), ops.drop_first())
    }
}

/// A source is well formed when it is created, and every operation keeps it
/// so: the queue stays within its capacity and never holds two ticks.
pub proof fn lemma_wf_is_kept(period: nat, capacity: nat, state: SourceView, op: SourceOp)
    ensures
        SourceView::created(period, capacity).wf(),
        state.wf() ==> state.apply(op).wf(),
{
    if state.wf() {
        let after = state.apply(op);
        match op {
            SourceOp::Timer(now) => {
                if state.queues_tick(now) {
                    assert forall|i: int, j: int| 0 <= i < j < after.pending.len() implies !(
                    #[trigger] after.pending[i] == Event::Tick && #[trigger] after.pending[j]
                        == Event::Tick) by {
                        assert(state.pending.contains(state.pending[i]));
                    }
                }
            },
            SourceOp::Input(input) => {},
            SourceOp::Next => {
                if state.pending.len() > 0 {
                    assert forall|i: int, j: int| 0 <= i < j < after.pending.len() implies !(
                    #[trigger] after.pending[i] == Event::Tick && #[trigger] after.pending[j]
                        == Event::Tick) by {
                        assert(after.pending[i] == state.pending[i + 1]);
                        assert(after.pending[j] == state.pending[j + 1]);
                    }
                }
            },
            SourceOp::Terminate => {},
        }
    }
}

/// Events leave the queue in the order in which they entered it, each once:
/// after any sequence of operations, what waited at first followed by what
/// was queued is what was taken followed by what waits now.
pub proof fn lemma_first_in_first_out(start: SourceView, ops: Seq<SourceOp>)
    ensures
        start.pending + queued(start, ops) == taken(start, ops) + run(start, ops).pending,
    decreases ops.len(),
{
    if ops.len() == 0 {
        assert(start.pending + Seq::<Event>::empty() =~= Seq::<Event>::empty() + start.pending);
    } else {
        let op = ops[0];
        let next = start.apply(op);
        let rest = ops.drop_first();
        lemma_first_in_first_out(next, rest);
        assert(start.pending + start.queued_by(op) =~= start.taken_by(op) + next.pending);
        assert(start.pending + (start.queued_by(op) + queued(next, rest)) =~= (start.pending
            + start.queued_by(op)) + queued(next, rest));
        assert(start.taken_by(op) + (taken(next, rest) + run(next, rest).pending) =~= (
        start.taken_by(op) + taken(next, rest)) + run(next, rest).pending);
        assert((start.taken_by(op) + next.pending) + queued(next, rest) =~= start.taken_by(op) + (
        next.pending + queued(next, rest)));
    }
}

/// Ticks keep their distance: in any sequence of operations, each tick is
/// generated at least one period after the tick before it, and the first at
/// least one period after the latest tick that the source had seen.
pub proof fn lemma_ticks_keep_their_distance(start: SourceView, ops: Seq<SourceOp>)
    ensures
        run(start, ops).period == start.period,
        tick_instants(start, ops).len() == 0 ==> run(start, ops).last_tick == start.last_tick,
        tick_instants(start, ops).len() > 0 ==> {
            &&& tick_instants(start, ops)[0] >= start.last_tick + start.period
            &&& run(start, ops).last_tick == tick_instants(start, ops).last()
        },
        forall|i: int|
            0 < i < tick_instants(start, ops).len() ==> #[trigger] tick_instants(start, ops)[i]
                >= tick_instants(start, ops)[i - 1] + start.period,
    decreases ops.len(),
{
    if ops.len() > 0 {
        let op = ops[0];
        let next = start.apply(op);
        let rest = ops.drop_first();
        lemma_ticks_keep_their_distance(next, rest);
        let head = start.ticked_by(op);
        let tail = tick_instants(next, rest);
        let all = tick_instants(start, ops);
        assert(all == head + tail);
        if head.len() > 0 {
            assert forall|i: int| 0 < i < all.len() implies #[trigger] all[i] >= all[i - 1]
                + start.period by {
                assert(all[i] == tail[i - 1]);
                if i > 1 {
                    assert(all[i - 1] == tail[i - 2]);
                }
            }
        } else {
            assert(all =~= tail);
        }
    }
}

/// Termination is final: no operation brings a producer back.
pub proof fn lemma_termination_is_final(start: SourceView, ops: Seq<SourceOp>)
    requires
        !start.alive,
    ensures
        !run(start, ops).alive,
        queued(start, ops) == Seq::<Event>::empty(),
        tick_instants(start, ops) == Seq::<nat>::empty(),
    decreases ops.len(),
{
    if ops.len() > 0 {
        lemma_termination_is_final(start.apply(ops[0]), ops.drop_first());
        assert(queued(start, ops) =~= Seq::<Event>::empty());
        assert(tick_instants(start, ops) =~= Seq::<nat>::empty());
    }
}

/// The producer never sleeps through a tick: the time it may wait for input
/// is at most one period, and a producer that is alive and waits that long
/// finds a tick due when it wakes.
pub proof fn lemma_poll_timeout_meets_tick(state: SourceView, now: nat)
    requires
        now >= state.last_tick,
    ensures
        state.poll_timeout(now) <= state.period,
        state.alive ==> state.tick_due(now + state.poll_timeout(now)),
        state.poll_timeout(now) > 0 ==> !state.tick_due(now),
{
}

} // verus!
