//! The main loop: draw, wait for an event, dispatch it, and shut down.
//!
//! Like the other components the loop is a state machine that does no
//! outside work. It hands out one [`Command`] at a time; the caller carries
//! it out (calls the terminal manager, blocks on the event source, runs a
//! hook on the application state) and comes back with a [`Report`]. The
//! machine reads the application state but never changes it: only the hooks
//! do, while the caller runs them.
//!
//! The cycle is `Init`, then `Draw`, `NextEvent`, `Dispatch` as long as the
//! application is running. `running` is looked at after set-up and after
//! every event, so a quit request ends the loop before anything else is
//! drawn or waited for. Every failure ends the loop too. However the loop
//! ends, it asks for `Exit` once before it finishes.
use crate::app::App;
use crate::event::Event;
use crate::source::SourceError;
use crate::terminal::TerminalError;
use vstd::prelude::*;

verus! {

/// A failure of a hook. The code is the caller's own and tells failures
/// apart; the loop only hands it on.
#[derive(Clone, Copy, Debug, PartialEq, Eq, Structural)]
pub struct HandlerError {
    pub code: i32,
}

/// Why the loop ended badly.
#[derive(Clone, Copy, Debug, PartialEq, Eq, Structural)]
pub enum Failure {
    Terminal(TerminalError),
    Source(SourceError),
    Handler(HandlerError),
}

/// Which of the optional hooks the caller has registered. The key handler is
/// not optional.
#[derive(Clone, Copy, Debug, PartialEq, Eq, Structural)]
pub struct Hooks {
    pub tick: bool,
    pub mouse: bool,
    pub resize: bool,
}

/// What the caller has to do next.
#[derive(Clone, Copy, Debug, PartialEq, Eq)]
pub enum Command {
    /// Set up the terminal.
    Init,
    /// Render the application state.
    Draw,
    /// Block until the event source delivers an event or fails.
    NextEvent,
    /// Run the hook of this event on the application state.
    Dispatch(Event),
    /// Tear down the terminal.
    Exit,
    /// Return: the loop is over, with this outcome.
    Finish(Result<(), Failure>),
}

/// What came of a command.
#[derive(Clone, Copy, Debug, PartialEq, Eq)]
pub enum Report {
    Initialized(Result<(), TerminalError>),
    Drawn(Result<(), TerminalError>),
    Received(Result<Event, SourceError>),
    Handled(Result<(), HandlerError>),
    Exited(Result<(), TerminalError>),
}

/// Where the loop stands: the command that is outstanding.
#[derive(Clone, Copy, Debug, PartialEq, Eq, Structural)]
pub enum Phase {
    Initializing,
    Drawing,
    Waiting,
    Dispatching(Event),
    Exiting,
    Finished,
}

impl Hooks {
    /// A hook is there for this event. One is always there for a key.
    pub open spec fn handles(self, event: Event) -> bool {
        match event {
            Event::Tick => self.tick,
            Event::Key(_) => true,
            Event::Mouse(_) => self.mouse,
            Event::Resize(_, _) => self.resize,
        }
    }

    /// Is a hook there for this event?
    pub fn has_hook_for(&self, event: &Event) -> (found: bool)
        ensures
            found == self.handles(*event),
    {
        match event {
            Event::Tick => self.tick,
            Event::Key(_) => true,
            Event::Mouse(_) => self.mouse,
            Event::Resize(_, _) => self.resize,
        }
    }
}

/// The mathematical state of the loop.
pub struct LoopView {
    pub hooks: Hooks,
    pub phase: Phase,
    /// The first failure, which decides the outcome.
    pub failure: Option<Failure>,
}

impl LoopView {
    /// The loop at its start: set-up is outstanding.
    pub open spec fn started(hooks: Hooks) -> LoopView {
        LoopView { hooks, phase: Phase::Initializing, failure: None }
    }

    /// The outcome of a loop that ended with this first failure.
    pub open spec fn outcome(failure: Option<Failure>) -> Result<(), Failure> {
        match failure {
            Some(failure) => Err(failure),
            None => Ok(()),
        }
    }

    /// The command that is outstanding.
    pub open spec fn command(self) -> Command {
        match self.phase {
            Phase::Initializing => Command::Init,
            Phase::Drawing => Command::Draw,
            Phase::Waiting => Command::NextEvent,
            Phase::Dispatching(event) => Command::Dispatch(event),
            Phase::Exiting => Command::Exit,
            Phase::Finished => Command::Finish(Self::outcome(self.failure)),
        }
    }

    /// `report` is of the kind that the outstanding command asks for.
    /// Nothing answers `Finish`.
    pub open spec fn answers(self, report: Report) -> bool {
        match (self.phase, report) {
            (Phase::Initializing, Report::Initialized(_)) => true,
            (Phase::Drawing, Report::Drawn(_)) => true,
            (Phase::Waiting, Report::Received(_)) => true,
            (Phase::Dispatching(_), Report::Handled(_)) => true,
            (Phase::Exiting, Report::Exited(_)) => true,
            _ => false,
        }
    }

    /// Looks at `running`: goes on with the next frame, or shuts down.
    pub open spec fn resume(self, running: bool) -> LoopView {
        if running {
            LoopView { phase: Phase::Drawing, ..self }
        } else {
            LoopView { phase: Phase::Exiting, ..self }
        }
    }

    /// Shuts down after a failure. The first failure is kept.
    pub open spec fn fail(self, failure: Failure) -> LoopView {
        LoopView {
            phase: Phase::Exiting,
            failure: if self.failure is None {
                Some(failure)
            } else {
                self.failure
            },
            ..self
        }
    }

    /// The state after `report` came in while the application's `running`
    /// flag had the given value. A report that does not answer the
    /// outstanding command changes nothing.
    pub open spec fn advance(self, running: bool, report: Report) -> LoopView {
        match (self.phase, report) {
            (Phase::Initializing, Report::Initialized(Ok(_))) => self.resume(running),
            (Phase::Initializing, Report::Initialized(Err(error))) => self.fail(
                Failure::Terminal(error),
            ),
            (Phase::Drawing, Report::Drawn(Ok(_))) => LoopView { phase: Phase::Waiting, ..self },
            (Phase::Drawing, Report::Drawn(Err(error))) => self.fail(Failure::Terminal(error)),
            (Phase::Waiting, Report::Received(Ok(event))) => if self.hooks.handles(event) {
                LoopView { phase: Phase::Dispatching(event), ..self }
            } else {
                self.resume(running)
            },
            (Phase::Waiting, Report::Received(Err(error))) => self.fail(Failure::Source(error)),
            (Phase::Dispatching(_), Report::Handled(Ok(_))) => self.resume(running),
            (Phase::Dispatching(_), Report::Handled(Err(error))) => self.fail(
                Failure::Handler(error),
            ),
            (Phase::Exiting, Report::Exited(Ok(_))) => LoopView { phase: Phase::Finished, ..self },
            (Phase::Exiting, Report::Exited(Err(error))) => LoopView {
                phase: Phase::Finished,
                ..self.fail(Failure::Terminal(error))
            },
            _ => self,
        }
    }

    /// The loop is shutting down or has finished.
    pub open spec fn winding_down(self) -> bool {
        self.phase == Phase::Exiting || self.phase == Phase::Finished
    }
}

/// The exit code of an outcome.
pub open spec fn exit_code_of(outcome: Result<(), Failure>) -> u8 {
    if outcome is Ok {
        0
    } else {
        1
    }
}

/// The exit code that the process reports for an outcome: 0 for a clean
/// end, 1 for every failure.
pub fn exit_code(outcome: Result<(), Failure>) -> (code: u8)
    ensures
        code == exit_code_of(outcome),
        code == 0 <==> outcome is Ok,
{
    match outcome {
        Ok(_) => 0,
        Err(_) => 1,
    }
}

/// The main loop.
pub struct MainLoop {
    hooks: Hooks,
    phase: Phase,
    failure: Option<Failure>,
}

impl View for MainLoop {
    type V = LoopView;

    closed spec fn view(&self) -> LoopView {
        LoopView { hooks: self.hooks, phase: self.phase, failure: self.failure }
    }
}

impl MainLoop {
    /// A loop at its start, for a caller with these hooks. Its first
    /// command is `Init`.
    pub fn new(hooks: Hooks) -> (main_loop: Self)
        ensures
            main_loop@ == LoopView::started(hooks),
    {
        MainLoop { hooks, phase: Phase::Initializing, failure: None }
    }

    /// The command that is outstanding.
    pub fn command(&self) -> (command: Command)
        ensures
            command == self@.command(),
    {
        match self.phase {
            Phase::Initializing => Command::Init,
            Phase::Drawing => Command::Draw,
            Phase::Waiting => Command::NextEvent,
            Phase::Dispatching(event) => Command::Dispatch(event),
            Phase::Exiting => Command::Exit,
            Phase::Finished => Command::Finish(
                match self.failure {
                    Some(failure) => Err(failure),
                    None => Ok(()),
                },
            ),
        }
    }

    /// Has the loop finished?
    pub fn is_finished(&self) -> (finished: bool)
        ensures
            finished == (self@.phase == Phase::Finished),
    {
        match self.phase {
            Phase::Finished => true,
            _ => false,
        }
    }

    fn resume(&mut self, running: bool)
        ensures
            final(self)@ == old(self)@.resume(running),
    {
        if running {
            self.phase = Phase::Drawing;
        } else {
            self.phase = Phase::Exiting;
        }
    }

    fn fail(&mut self, failure: Failure)
        ensures
            final(self)@ == old(self)@.fail(failure),
    {
        self.phase = Phase::Exiting;
        if self.failure.is_none() {
            self.failure = Some(failure);
        }
    }

    /// Takes the report on the outstanding command and gives the next
    /// command. `app` is the application state as the command left it; the
    /// loop reads its `running` flag and changes nothing in it.
    pub fn advance(&mut self, app: &App, report: Report) -> (command: Command)
        ensures
            final(self)@ == old(self)@.advance(app.running, report),
            command == final(self)@.command(),
    {
        match (self.phase, report) {
            (Phase::Initializing, Report::Initialized(Ok(_))) => {
                self.resume(app.running);
            },
            (Phase::Initializing, Report::Initialized(Err(error))) => {
                self.fail(Failure::Terminal(error));
            },
            (Phase::Drawing, Report::Drawn(Ok(_))) => {
                self.phase = Phase::Waiting;
            },
            (Phase::Drawing, Report::Drawn(Err(error))) => {
                self.fail(Failure::Terminal(error));
            },
            (Phase::Waiting, Report::Received(Ok(event))) => {
                if self.hooks.has_hook_for(&event) {
                    self.phase = Phase::Dispatching(event);
                } else {
                    self.resume(app.running);
                }
            },
            (Phase::Waiting, Report::Received(Err(error))) => {
                self.fail(Failure::Source(error));
            },
            (Phase::Dispatching(_), Report::Handled(Ok(_))) => {
                self.resume(app.running);
            },
            (Phase::Dispatching(_), Report::Handled(Err(error))) => {
                self.fail(Failure::Handler(error));
            },
            (Phase::Exiting, Report::Exited(Ok(_))) => {
                self.phase = Phase::Finished;
            },
            (Phase::Exiting, Report::Exited(Err(error))) => {
                self.fail(Failure::Terminal(error));
                self.phase = Phase::Finished;
            },
            _ => {},
        }
        self.command()
    }
}

/// One turn of the loop as the caller sees it: the report it brings back,
/// and the application's `running` flag at that moment.
pub struct Turn {
    pub running: bool,
    pub report: Report,
}

/// The state after a sequence of turns.
pub open spec fn run(start: LoopView, turns: Seq<Turn>) -> LoopView
    decreases turns.len(),
{
    if turns.len() == 0 {
        start
    } else {
        run(start.advance(turns[0].running, turns[0].report), turns.drop_first())
    }
}

/// The commands that the loop hands out in answer to a sequence of turns,
/// one for each turn.
pub open spec fn commands(start: LoopView, turns: Seq<Turn>) -> Seq<Command>
    decreases turns.len(),
{
    if turns.len() == 0 {
        Seq::empty()
    } else {
        let next = start.advance(turns[0].running, turns[0].report);
        seq![next.command()] + commands(next, turns.drop_first())
    }
}

/// The caller keeps to the protocol: every report answers the command that
/// is outstanding when it comes in.
pub open spec fn well_driven(start: LoopView, turns: Seq<Turn>) -> bool
    decreases turns.len(),
{
    if turns.len() == 0 {
        true
    } else {
        &&& start.answers(turns[0].report)
        &&& well_driven(start.advance(turns[0].running, turns[0].report), turns.drop_first())
    }
}

/// The events that the commands dispatch, in order.
pub open spec fn dispatched(commands: Seq<Command>) -> Seq<Event>
    decreases commands.len(),
{
    if commands.len() == 0 {
        Seq::empty()
    } else {
        let rest = dispatched(commands.drop_first());
        match commands[0] {
            Command::Dispatch(event) => seq![event] + rest,
            _ => rest,
        }
    }
}

/// The events that the event source delivered in these turns and that a
/// hook is there for, in order.
pub open spec fn delivered(hooks: Hooks, turns: Seq<Turn>) -> Seq<Event>
    decreases turns.len(),
{
    if turns.len() == 0 {
        Seq::empty()
    } else {
        let rest = delivered(hooks, turns.drop_first());
        match turns[0].report {
            Report::Received(Ok(event)) => if hooks.handles(event) {
                seq![event] + rest
            } else {
                rest
            },
            _ => rest,
        }
    }
}

/// The number of `Exit` commands among the commands.
pub open spec fn exits(commands: Seq<Command>) -> nat
    decreases commands.len(),
{
    if commands.len() == 0 {
        0
    } else {
        let rest = exits(commands.drop_first());
        if commands[0] == Command::Exit {
            rest + 1
        } else {
            rest
        }
    }
}

proof fn lemma_dispatched_cons(first: Command, rest: Seq<Command>)
    ensures
        dispatched(seq![first] + rest) == match first {
            Command::Dispatch(event) => seq![event] + dispatched(rest),
            _ => dispatched(rest),
        },
{
    assert((seq![first] + rest).drop_first() =~= rest);
}

proof fn lemma_exits_cons(first: Command, rest: Seq<Command>)
    ensures
        exits(seq![first] + rest) == exits(rest) + if first == Command::Exit {
            1nat
        } else {
            0nat
        },
{
    assert((seq![first] + rest).drop_first() =~= rest);
}

/// Events are dispatched in the order in which the event source delivers
/// them: for a caller that keeps to the protocol, the events of the
/// `Dispatch` commands are exactly the delivered events that have a hook,
/// each once and in the same order, whatever else the turns hold.
pub proof fn lemma_dispatch_in_order(start: LoopView, turns: Seq<Turn>)
    requires
        well_driven(start, turns),
    ensures
        dispatched(commands(start, turns)) == delivered(start.hooks, turns),
    decreases turns.len(),
{
    if turns.len() > 0 {
        let next = start.advance(turns[0].running, turns[0].report);
        lemma_dispatch_in_order(next, turns.drop_first());
        lemma_dispatched_cons(next.command(), commands(next, turns.drop_first()));
    }
}

/// An event without a hook is ignored, and that is no failure: the loop
/// asks for no dispatch, records nothing, and goes on as `running` says. So
/// a tick with no tick hook changes nothing and fails nothing.
pub proof fn lemma_event_without_hook_is_ignored(start: LoopView, running: bool, event: Event)
    requires
        start.phase == Phase::Waiting,
        !start.hooks.handles(event),
    ensures
        start.advance(running, Report::Received(Ok(event))) == start.resume(running),
        start.advance(running, Report::Received(Ok(event))).failure == start.failure,
        start.advance(running, Report::Received(Ok(event))).command() == if running {
            Command::Draw
        } else {
            Command::Exit
        },
{
}

/// Once the loop shuts down it stays so: whatever comes in, it hands out
/// nothing but `Exit` and `Finish`.
pub proof fn lemma_shutdown_is_final(start: LoopView, turns: Seq<Turn>)
    requires
        start.winding_down(),
    ensures
        run(start, turns).winding_down(),
        forall|i: int|
            0 <= i < commands(start, turns).len() ==> {
                let command = #[trigger] commands(start, turns)[i];
                command == Command::Exit || command is Finish
            },
    decreases turns.len(),
{
    if turns.len() > 0 {
        let next = start.advance(turns[0].running, turns[0].report);
        lemma_shutdown_is_final(next, turns.drop_first());
    }
}

/// A quit request takes effect at once. When a hook has run and the
/// application is no longer running, the next command is `Exit`, whatever
/// the event was and whatever the hook returned; and no frame is drawn, no
/// event waited for and none dispatched from then on.
pub proof fn lemma_quit_stops_at_once(
    start: LoopView,
    outcome: Result<(), HandlerError>,
    turns: Seq<Turn>,
)
    requires
        start.phase is Dispatching,
    ensures
        start.advance(false, Report::Handled(outcome)).command() == Command::Exit,
        forall|i: int|
            0 <= i < commands(start.advance(false, Report::Handled(outcome)), turns).len() ==> {
                let command = #[trigger] commands(
                    start.advance(false, Report::Handled(outcome)),
                    turns,
                )[i];
                command == Command::Exit || command is Finish
            },
{
    lemma_shutdown_is_final(start.advance(false, Report::Handled(outcome)), turns);
}

proof fn lemma_exits_counted(start: LoopView, turns: Seq<Turn>)
    requires
        well_driven(start, turns),
    ensures
        start.winding_down() ==> exits(commands(start, turns)) == 0,
        !start.winding_down() ==> exits(commands(start, turns)) <= 1,
        !start.winding_down() && run(start, turns).winding_down() ==> exits(
            commands(start, turns),
        ) == 1,
    decreases turns.len(),
{
    if turns.len() > 0 {
        let next = start.advance(turns[0].running, turns[0].report);
        lemma_exits_counted(next, turns.drop_first());
        lemma_exits_cons(next.command(), commands(next, turns.drop_first()));
    }
}

/// The terminal is torn down exactly once. For a caller that keeps to the
/// protocol, a loop that has begun to shut down has asked for `Exit` once,
/// and it never asks a second time; in particular a loop that has finished
/// has asked exactly once, however it came to its end.
pub proof fn lemma_exit_exactly_once(hooks: Hooks, turns: Seq<Turn>)
    requires
        well_driven(LoopView::started(hooks), turns),
    ensures
        exits(commands(LoopView::started(hooks), turns)) <= 1,
        run(LoopView::started(hooks), turns).winding_down() ==> exits(
            commands(LoopView::started(hooks), turns),
        ) == 1,
{
    lemma_exits_counted(LoopView::started(hooks), turns);
}

/// The loop never finishes without a tear-down: for a caller that keeps to
/// the protocol, every `Finish` comes directly after the `Exit` that it
/// answers.
pub proof fn lemma_finish_follows_exit(hooks: Hooks, turns: Seq<Turn>, i: int)
    requires
        well_driven(LoopView::started(hooks), turns),
        0 <= i < turns.len(),
        commands(LoopView::started(hooks), turns)[i] is Finish,
    ensures
        i > 0,
        commands(LoopView::started(hooks), turns)[i - 1] == Command::Exit,
{
    lemma_finish_after_exit(LoopView::started(hooks), turns, i);
}

proof fn lemma_commands_len(start: LoopView, turns: Seq<Turn>)
    ensures
        commands(start, turns).len() == turns.len(),
    decreases turns.len(),
{
    if turns.len() > 0 {
        lemma_commands_len(
            start.advance(turns[0].running, turns[0].report),
            turns.drop_first(),
        );
    }
}

proof fn lemma_finish_after_exit(start: LoopView, turns: Seq<Turn>, i: int)
    requires
        well_driven(start, turns),
        0 <= i < turns.len(),
        commands(start, turns)[i] is Finish,
    ensures
        i == 0 ==> start.phase == Phase::Exiting,
        i > 0 ==> commands(start, turns)[i - 1] == Command::Exit,
    decreases turns.len(),
{
    let next = start.advance(turns[0].running, turns[0].report);
    let rest = turns.drop_first();
    lemma_commands_len(next, rest);
    if i > 0 {
        assert(commands(start, turns)[i] == commands(next, rest)[i - 1]);
        lemma_finish_after_exit(next, rest, i - 1);
        if i > 1 {
            assert(commands(start, turns)[i - 1] == commands(next, rest)[i - 2]);
        }
    }
}

/// A failure of the event source ends the loop: the next command is `Exit`,
/// and after the tear-down, however it goes, the loop finishes with that
/// failure and a non-zero exit code.
pub proof fn lemma_source_failure_ends_loop(
    start: LoopView,
    running: bool,
    error: SourceError,
    exited: Result<(), TerminalError>,
)
    requires
        start.phase == Phase::Waiting,
        start.failure is None,
    ensures
        ({
            let stopped = start.advance(running, Report::Received(Err(error)));
            let finished = stopped.advance(running, Report::Exited(exited));
            &&& stopped.command() == Command::Exit
            &&& finished.command() == Command::Finish(Err(Failure::Source(error)))
            &&& exit_code_of(Err(Failure::Source(error))) != 0
        }),
{
}

/// The failure that a report brings, if it brings one.
pub open spec fn failure_of(report: Report) -> Option<Failure> {
    match report {
        Report::Initialized(Err(error)) => Some(Failure::Terminal(error)),
        Report::Drawn(Err(error)) => Some(Failure::Terminal(error)),
        Report::Received(Err(error)) => Some(Failure::Source(error)),
        Report::Handled(Err(error)) => Some(Failure::Handler(error)),
        Report::Exited(Err(error)) => Some(Failure::Terminal(error)),
        _ => None,
    }
}

/// The failure of the first report that brings one.
pub open spec fn first_failure(turns: Seq<Turn>) -> Option<Failure>
    decreases turns.len(),
{
    if turns.len() == 0 {
        None
    } else if failure_of(turns[0].report) is Some {
        failure_of(turns[0].report)
    } else {
        first_failure(turns.drop_first())
    }
}

/// A failure on record stays on record: nothing that comes in replaces it.
pub proof fn lemma_failure_is_kept(start: LoopView, turns: Seq<Turn>)
    requires
        start.failure is Some,
    ensures
        run(start, turns).failure == start.failure,
    decreases turns.len(),
{
    if turns.len() > 0 {
        lemma_failure_is_kept(
            start.advance(turns[0].running, turns[0].report),
            turns.drop_first(),
        );
    }
}

/// The first failure decides the outcome. For a caller that keeps to the
/// protocol, the failure on record is that of the first report that brought
/// one, and none if none did. So a loop that has finished ends well exactly
/// if set-up, every frame, every wait, every hook and the tear-down went
/// well.
pub proof fn lemma_first_failure_decides(hooks: Hooks, turns: Seq<Turn>)
    requires
        well_driven(LoopView::started(hooks), turns),
    ensures
        run(LoopView::started(hooks), turns).failure == first_failure(turns),
        run(LoopView::started(hooks), turns).phase == Phase::Finished ==> run(
            LoopView::started(hooks),
            turns,
        ).command() == Command::Finish(LoopView::outcome(first_failure(turns))),
{
    lemma_first_failure_recorded(LoopView::started(hooks), turns);
}

proof fn lemma_first_failure_recorded(start: LoopView, turns: Seq<Turn>)
    requires
        well_driven(start, turns),
        start.failure is None,
    ensures
        run(start, turns).failure == first_failure(turns),
    decreases turns.len(),
{
    if turns.len() > 0 {
        let next = start.advance(turns[0].running, turns[0].report);
        if next.failure is Some {
            lemma_failure_is_kept(next, turns.drop_first());
        } else {
            lemma_first_failure_recorded(next, turns.drop_first());
        }
    }
}

/// No failure is passed over: while the loop draws, waits or dispatches,
/// none is on record. A loop with a failure on record is shutting down or
/// has finished, whatever came in.
pub proof fn lemma_failure_stops_loop(start: LoopView, turns: Seq<Turn>)
    requires
        start.failure is Some ==> start.winding_down(),
    ensures
        run(start, turns).failure is Some ==> run(start, turns).winding_down(),
    decreases turns.len(),
{
    if turns.len() > 0 {
        let next = start.advance(turns[0].running, turns[0].report);
        lemma_failure_stops_loop(next, turns.drop_first());
    }
}

} // verus!
