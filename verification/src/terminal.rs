//! The terminal lifecycle manager: set-up, drawing and tear-down of the
//! terminal, one backend operation at a time.
//!
//! The manager never calls the backend. [`Terminal::init`],
//! [`Terminal::draw`] and [`Terminal::exit`] each begin an activity and
//! answer with a [`Step`]: an operation for the caller to perform on the
//! backend, or the end of the activity. The caller reports how the operation
//! went with [`Terminal::complete`] and gets the next step. An operation
//! that fails is taken to have changed nothing.
//!
//! Set-up stops at the first failure and undoes nothing by itself. Tear-down
//! attempts every operation that is owed, whatever fails on the way, and
//! reports the first failure at its end; what failed stays owed.
use vstd::prelude::*;

verus! {

/// An operation of the terminal backend.
#[derive(Clone, Copy, Debug, PartialEq, Eq, Structural)]
pub enum TerminalOp {
    EnableRawMode,
    EnterAlternateScreen,
    /// Arrange that a crash performs [`Terminal::restore_plan`] before
    /// anything else.
    InstallRestoreHook,
    /// Render one frame. Painting may leave the cursor hidden.
    Paint,
    DisableRawMode,
    LeaveAlternateScreen,
    ShowCursor,
}

/// The activity that an operation belongs to.
#[derive(Clone, Copy, Debug, PartialEq, Eq, Structural)]
pub enum Activity {
    Setup,
    Drawing,
    Teardown,
}

/// A failure of the terminal backend.
#[derive(Clone, Copy, Debug, PartialEq, Eq, Structural)]
pub enum TerminalError {
    /// The backend could not perform this change of mode.
    ModeSwitch(TerminalOp),
    /// The backend could not write the frame.
    Write,
}

/// What the caller has to do next.
#[derive(Clone, Copy, Debug, PartialEq, Eq, Structural)]
pub enum Step {
    /// Perform this operation, then report with [`Terminal::complete`].
    Perform(TerminalOp),
    /// The activity is over and went well.
    Finished,
    /// The activity is over and failed.
    Failed(TerminalError),
}

/// The mode of the terminal, as far as the manager changes it.
#[derive(Clone, Copy, Debug, PartialEq, Eq, Structural)]
pub struct Mode {
    pub raw_mode: bool,
    pub alternate_screen: bool,
    pub cursor_hidden: bool,
}

impl TerminalOp {
    /// The activity that this operation belongs to.
    pub open spec fn activity(self) -> Activity {
        match self {
            TerminalOp::EnableRawMode => Activity::Setup,
            TerminalOp::EnterAlternateScreen => Activity::Setup,
            TerminalOp::InstallRestoreHook => Activity::Setup,
            TerminalOp::Paint => Activity::Drawing,
            TerminalOp::DisableRawMode => Activity::Teardown,
            TerminalOp::LeaveAlternateScreen => Activity::Teardown,
            TerminalOp::ShowCursor => Activity::Teardown,
        }
    }

    /// The place of a tear-down operation in the order of tear-down, from 1;
    /// 0 for every other operation.
    pub open spec fn teardown_rank(self) -> nat {
        match self {
            TerminalOp::DisableRawMode => 1,
            TerminalOp::LeaveAlternateScreen => 2,
            TerminalOp::ShowCursor => 3,
            _ => 0,
        }
    }
}

impl Mode {
    /// The mode in which the manager finds the terminal: cooked, primary
    /// screen, cursor shown.
    pub open spec fn untouched() -> Mode {
        Mode { raw_mode: false, alternate_screen: false, cursor_hidden: false }
    }

    /// The mode after the backend performed `op`.
    pub open spec fn perform(self, op: TerminalOp) -> Mode {
        match op {
            TerminalOp::EnableRawMode => Mode { raw_mode: true, ..self },
            TerminalOp::EnterAlternateScreen => Mode { alternate_screen: true, ..self },
            TerminalOp::InstallRestoreHook => self,
            TerminalOp::Paint => Mode { cursor_hidden: true, ..self },
            TerminalOp::DisableRawMode => Mode { raw_mode: false, ..self },
            TerminalOp::LeaveAlternateScreen => Mode { alternate_screen: false, ..self },
            TerminalOp::ShowCursor => Mode { cursor_hidden: false, ..self },
        }
    }

    /// The mode after the backend performed `ops` in order.
    pub open spec fn perform_all(self, ops: Seq<TerminalOp>) -> Mode
        decreases ops.len(),
    {
        if ops.len() == 0 {
            self
        } else {
            self.perform(ops[0]).perform_all(ops.drop_first())
        }
    }

    /// The mode after the backend answered `succeeded` to `op`.
    pub open spec fn attempt(self, op: TerminalOp, succeeded: bool) -> Mode {
        if succeeded {
            self.perform(op)
        } else {
            self
        }
    }
}

/// The operations that the crash hook performs, in order: they take the
/// terminal out of raw mode and back to the primary screen from any mode.
pub open spec fn restore_ops() -> Seq<TerminalOp> {
    seq![TerminalOp::DisableRawMode, TerminalOp::LeaveAlternateScreen]
}

/// The mathematical state of the manager.
pub struct TerminalView {
    /// The mode of the terminal, as the reports so far give it.
    pub mode: Mode,
    /// Has the crash hook been installed?
    pub restore_hook: bool,
    /// The operation that the caller was asked to perform and has not
    /// reported on.
    pub pending: Option<TerminalOp>,
    /// The first failure of the tear-down that is under way.
    pub failure: Option<TerminalError>,
}

impl TerminalView {
    /// The manager before anything was set up.
    pub open spec fn idle() -> TerminalView {
        TerminalView { mode: Mode::untouched(), restore_hook: false, pending: None, failure: None }
    }

    /// Set-up is complete: raw mode, alternate screen, crash hook.
    pub open spec fn is_active(self) -> bool {
        self.mode.raw_mode && self.mode.alternate_screen && self.restore_hook
    }

    /// The first operation of set-up that is still missing.
    pub open spec fn next_setup(self) -> Option<TerminalOp> {
        if !self.mode.raw_mode {
            Some(TerminalOp::EnableRawMode)
        } else if !self.mode.alternate_screen {
            Some(TerminalOp::EnterAlternateScreen)
        } else if !self.restore_hook {
            Some(TerminalOp::InstallRestoreHook)
        } else {
            None
        }
    }

    /// The first operation of tear-down that is owed and whose rank is
    /// above `rank`.
    pub open spec fn next_teardown(self, rank: nat) -> Option<TerminalOp> {
        if rank < 1 && self.mode.raw_mode {
            Some(TerminalOp::DisableRawMode)
        } else if rank < 2 && self.mode.alternate_screen {
            Some(TerminalOp::LeaveAlternateScreen)
        } else if rank < 3 && self.mode.cursor_hidden {
            Some(TerminalOp::ShowCursor)
        } else {
            None
        }
    }

    /// Asks for `next`, or ends the activity with `ending` when nothing is
    /// left to ask for.
    pub open spec fn proceed(self, next: Option<TerminalOp>, ending: Step) -> (TerminalView, Step) {
        match next {
            Some(op) => (TerminalView { pending: Some(op), ..self }, Step::Perform(op)),
            None => (TerminalView { pending: None, failure: None, ..self }, ending),
        }
    }

    /// The step that ends a tear-down whose first failure was `failure`.
    pub open spec fn teardown_ending(failure: Option<TerminalError>) -> Step {
        match failure {
            Some(error) => Step::Failed(error),
            None => Step::Finished,
        }
    }

    /// Begins set-up: asks for the first operation that is missing.
    pub open spec fn init(self) -> (TerminalView, Step) {
        let fresh = TerminalView { pending: None, failure: None, ..self };
        fresh.proceed(fresh.next_setup(), Step::Finished)
    }

    /// Begins drawing: asks for one frame to be painted.
    pub open spec fn draw(self) -> (TerminalView, Step) {
        (
            TerminalView { pending: Some(TerminalOp::Paint), failure: None, ..self },
            Step::Perform(TerminalOp::Paint),
        )
    }

    /// Begins tear-down: asks for the first operation that is owed.
    pub open spec fn exit(self) -> (TerminalView, Step) {
        let fresh = TerminalView { pending: None, failure: None, ..self };
        fresh.proceed(fresh.next_teardown(0), Step::Finished)
    }

    /// Takes the report on the pending operation and gives the next step.
    pub open spec fn complete(self, succeeded: bool) -> (TerminalView, Step) {
        match self.pending {
            None => (self, Step::Finished),
            Some(op) => {
                let done = TerminalView {
                    mode: self.mode.attempt(op, succeeded),
                    restore_hook: self.restore_hook || (succeeded && op
                        == TerminalOp::InstallRestoreHook),
                    pending: None,
                    failure: self.failure,
                };
                match op.activity() {
                    Activity::Setup => if succeeded {
                        done.proceed(done.next_setup(), Step::Finished)
                    } else {
                        (done, Step::Failed(TerminalError::ModeSwitch(op)))
                    },
                    Activity::Drawing => if succeeded {
                        (done, Step::Finished)
                    } else {
                        (done, Step::Failed(TerminalError::Write))
                    },
                    Activity::Teardown => {
                        let failure = if self.failure is None && !succeeded {
                            Some(TerminalError::ModeSwitch(op))
                        } else {
                            self.failure
                        };
                        let noted = TerminalView { failure, ..done };
                        noted.proceed(
                            noted.next_teardown(op.teardown_rank()),
                            Self::teardown_ending(failure),
                        )
                    },
                }
            },
        }
    }

    /// The manager waits for the report that `step` asks for, or for none.
    pub open spec fn awaits(self, step: Step) -> bool {
        match step {
            Step::Perform(op) => self.pending == Some(op),
            _ => self.pending is None,
        }
    }
}

/// The manager of the terminal's lifecycle.
pub struct Terminal {
    mode: Mode,
    restore_hook: bool,
    pending: Option<TerminalOp>,
    failure: Option<TerminalError>,
}

impl View for Terminal {
    type V = TerminalView;

    closed spec fn view(&self) -> TerminalView {
        TerminalView {
            mode: self.mode,
            restore_hook: self.restore_hook,
            pending: self.pending,
            failure: self.failure,
        }
    }
}

impl TerminalOp {
    /// The activity that this operation belongs to.
    pub fn activity_of(self) -> (activity: Activity)
        ensures
            activity == self.activity(),
    {
        match self {
            TerminalOp::EnableRawMode => Activity::Setup,
            TerminalOp::EnterAlternateScreen => Activity::Setup,
            TerminalOp::InstallRestoreHook => Activity::Setup,
            TerminalOp::Paint => Activity::Drawing,
            TerminalOp::DisableRawMode => Activity::Teardown,
            TerminalOp::LeaveAlternateScreen => Activity::Teardown,
            TerminalOp::ShowCursor => Activity::Teardown,
        }
    }
}

impl Terminal {
    /// A manager that has set up nothing.
    pub fn new() -> (terminal: Self)
        ensures
            terminal@ == TerminalView::idle(),
    {
        Terminal {
            mode: Mode { raw_mode: false, alternate_screen: false, cursor_hidden: false },
            restore_hook: false,
            pending: None,
            failure: None,
        }
    }

    /// The mode of the terminal, as the reports so far give it.
    pub fn mode(&self) -> (mode: Mode)
        ensures
            mode == self@.mode,
    {
        self.mode
    }

    /// Is set-up complete?
    pub fn is_active(&self) -> (active: bool)
        ensures
            active == self@.is_active(),
    {
        self.mode.raw_mode && self.mode.alternate_screen && self.restore_hook
    }

    /// The operations of the crash hook, in order. The hook runs them
    /// whatever the manager's state is.
    pub fn restore_plan() -> (ops: Vec<TerminalOp>)
        ensures
            ops@ == restore_ops(),
    {
        let mut ops: Vec<TerminalOp> = Vec::new();
        ops.push(TerminalOp::DisableRawMode);
        ops.push(TerminalOp::LeaveAlternateScreen);
        assert(ops@ =~= restore_ops());
        ops
    }

    fn setup_op(&self) -> (next: Option<TerminalOp>)
        ensures
            next == self@.next_setup(),
    {
        if !self.mode.raw_mode {
            Some(TerminalOp::EnableRawMode)
        } else if !self.mode.alternate_screen {
            Some(TerminalOp::EnterAlternateScreen)
        } else if !self.restore_hook {
            Some(TerminalOp::InstallRestoreHook)
        } else {
            None
        }
    }

    fn teardown_op(&self, after: Option<TerminalOp>) -> (next: Option<TerminalOp>)
        ensures
            next == self@.next_teardown(
                match after {
                    Some(op) => op.teardown_rank(),
                    None => 0,
                },
            ),
    {
        let rank: u8 = match after {
            Some(TerminalOp::DisableRawMode) => 1,
            Some(TerminalOp::LeaveAlternateScreen) => 2,
            Some(TerminalOp::ShowCursor) => 3,
            _ => 0,
        };
        if rank < 1 && self.mode.raw_mode {
            Some(TerminalOp::DisableRawMode)
        } else if rank < 2 && self.mode.alternate_screen {
            Some(TerminalOp::LeaveAlternateScreen)
        } else if rank < 3 && self.mode.cursor_hidden {
            Some(TerminalOp::ShowCursor)
        } else {
            None
        }
    }

    fn proceed(&mut self, next: Option<TerminalOp>, ending: Step) -> (step: Step)
        ensures
            (final(self)@, step) == old(self)@.proceed(next, ending),
    {
        match next {
            Some(op) => {
                self.pending = Some(op);
                Step::Perform(op)
            },
            None => {
                self.pending = None;
                self.failure = None;
                ending
            },
        }
    }

    /// Begins set-up: raw mode, then the alternate screen, then the crash
    /// hook, leaving out what is already there. The step is the first
    /// operation that is missing, or `Finished` when none is.
    pub fn init(&mut self) -> (step: Step)
        ensures
            (final(self)@, step) == old(self)@.init(),
            final(self)@.awaits(step),
    {
        self.pending = None;
        self.failure = None;
        let next = self.setup_op();
        self.proceed(next, Step::Finished)
    }

    /// Begins drawing: the step asks for one frame to be painted.
    pub fn draw(&mut self) -> (step: Step)
        ensures
            (final(self)@, step) == old(self)@.draw(),
            step == Step::Perform(TerminalOp::Paint),
            final(self)@.awaits(step),
    {
        self.pending = Some(TerminalOp::Paint);
        self.failure = None;
        Step::Perform(TerminalOp::Paint)
    }

    /// Begins tear-down of whatever is set up: leave raw mode, leave the
    /// alternate screen, show the cursor, leaving out what is not owed. The
    /// step is the first operation that is owed, or `Finished` when nothing
    /// is.
    pub fn exit(&mut self) -> (step: Step)
        ensures
            (final(self)@, step) == old(self)@.exit(),
            final(self)@.awaits(step),
    {
        self.pending = None;
        self.failure = None;
        let next = self.teardown_op(None);
        self.proceed(next, Step::Finished)
    }

    /// Takes the backend's answer to the pending operation and gives the
    /// next step of the activity. With no operation pending the report is
    /// ignored.
    pub fn complete(&mut self, succeeded: bool) -> (step: Step)
        ensures
            (final(self)@, step) == old(self)@.complete(succeeded),
            final(self)@.awaits(step),
    {
        let op = match self.pending {
            None => {
                return Step::Finished;
            },
            Some(op) => op,
        };
        self.pending = None;
        if succeeded {
            match op {
                TerminalOp::EnableRawMode => {
                    self.mode.raw_mode = true;
                },
                TerminalOp::EnterAlternateScreen => {
                    self.mode.alternate_screen = true;
                },
                TerminalOp::InstallRestoreHook => {
                    self.restore_hook = true;
                },
                TerminalOp::Paint => {
                    self.mode.cursor_hidden = true;
                },
                TerminalOp::DisableRawMode => {
                    self.mode.raw_mode = false;
                },
                TerminalOp::LeaveAlternateScreen => {
                    self.mode.alternate_screen = false;
                },
                TerminalOp::ShowCursor => {
                    self.mode.cursor_hidden = false;
                },
            }
        }
        match op.activity_of() {
            Activity::Setup => {
                if succeeded {
                    let next = self.setup_op();
                    self.proceed(next, Step::Finished)
                } else {
                    Step::Failed(TerminalError::ModeSwitch(op))
                }
            },
            Activity::Drawing => {
                if succeeded {
                    Step::Finished
                } else {
                    Step::Failed(TerminalError::Write)
                }
            },
            Activity::Teardown => {
                if self.failure.is_none() && !succeeded {
                    self.failure = Some(TerminalError::ModeSwitch(op));
                }
                let ending = match self.failure {
                    Some(error) => Step::Failed(error),
                    None => Step::Finished,
                };
                let next = self.teardown_op(Some(op));
                self.proceed(next, ending)
            },
        }
    }
}

/// Runs an activity against a backend: as long as the step asks for an
/// operation and an answer is left, the backend answers the operation, its
/// mode changes if it succeeded, and the manager takes the report. Gives the
/// manager, the step and the backend's mode at the end.
pub open spec fn drive(terminal: TerminalView, step: Step, backend: Mode, answers: Seq<bool>) -> (
    TerminalView,
    Step,
    Mode,
)
    decreases answers.len(),
{
    if answers.len() == 0 {
        (terminal, step, backend)
    } else {
        match step {
            Step::Perform(op) => {
                let next = terminal.complete(answers[0]);
                drive(next.0, next.1, backend.attempt(op, answers[0]), answers.drop_first())
            },
            _ => (terminal, step, backend),
        }
    }
}

/// Every flag whose tear-down operation has a rank below `rank` is clear.
pub open spec fn clear_below(mode: Mode, rank: nat) -> bool {
    &&& rank > 1 ==> !mode.raw_mode
    &&& rank > 2 ==> !mode.alternate_screen
    &&& rank > 3 ==> !mode.cursor_hidden
}

/// What holds at every step of a set-up that began with the manager and the
/// backend in the same mode and the cursor shown.
pub open spec fn setup_holds(terminal: TerminalView, step: Step, backend: Mode) -> bool {
    &&& terminal.mode == backend
    &&& !backend.cursor_hidden
    &&& terminal.awaits(step)
    &&& match step {
        Step::Perform(op) => op.activity() == Activity::Setup,
        Step::Finished => terminal.is_active(),
        Step::Failed(_) => true,
    }
}

/// What holds at every step of a tear-down that began with the manager and
/// the backend in the same mode.
pub open spec fn teardown_holds(terminal: TerminalView, step: Step, backend: Mode) -> bool {
    &&& terminal.mode == backend
    &&& terminal.awaits(step)
    &&& match step {
        Step::Perform(op) => {
            &&& op.activity() == Activity::Teardown
            &&& terminal.failure is None ==> clear_below(backend, op.teardown_rank())
        },
        Step::Finished => backend == Mode::untouched(),
        Step::Failed(_) => true,
    }
}

/// The manager's idea of the mode follows the backend: if both agree when a
/// step is handed out, they agree after any number of answers, whatever the
/// answers are, and the manager waits for exactly the report that the last
/// step asks for.
pub proof fn lemma_mode_follows_backend(
    terminal: TerminalView,
    step: Step,
    backend: Mode,
    answers: Seq<bool>,
)
    requires
        terminal.mode == backend,
        terminal.awaits(step),
    ensures
        drive(terminal, step, backend, answers).0.mode == drive(terminal, step, backend, answers).2,
        drive(terminal, step, backend, answers).0.awaits(
            drive(terminal, step, backend, answers).1,
        ),
    decreases answers.len(),
{
    if answers.len() > 0 {
        if let Step::Perform(op) = step {
            let next = terminal.complete(answers[0]);
            lemma_mode_follows_backend(
                next.0,
                next.1,
                backend.attempt(op, answers[0]),
                answers.drop_first(),
            );
        }
    }
}

/// Set-up keeps `setup_holds`, whatever the backend answers.
pub proof fn lemma_setup_holds(
    terminal: TerminalView,
    step: Step,
    backend: Mode,
    answers: Seq<bool>,
)
    requires
        setup_holds(terminal, step, backend),
    ensures
        setup_holds(
            drive(terminal, step, backend, answers).0,
            drive(terminal, step, backend, answers).1,
            drive(terminal, step, backend, answers).2,
        ),
    decreases answers.len(),
{
    if answers.len() > 0 {
        if let Step::Perform(op) = step {
            let next = terminal.complete(answers[0]);
            lemma_setup_holds(next.0, next.1, backend.attempt(op, answers[0]), answers.drop_first());
        }
    }
}

/// Tear-down keeps `teardown_holds`, whatever the backend answers.
pub proof fn lemma_teardown_holds(
    terminal: TerminalView,
    step: Step,
    backend: Mode,
    answers: Seq<bool>,
)
    requires
        teardown_holds(terminal, step, backend),
    ensures
        teardown_holds(
            drive(terminal, step, backend, answers).0,
            drive(terminal, step, backend, answers).1,
            drive(terminal, step, backend, answers).2,
        ),
    decreases answers.len(),
{
    if answers.len() > 0 {
        if let Step::Perform(op) = step {
            let next = terminal.complete(answers[0]);
            lemma_teardown_holds(
                next.0,
                next.1,
                backend.attempt(op, answers[0]),
                answers.drop_first(),
            );
        }
    }
}

/// A set-up that ends well leaves the manager active and the backend in raw
/// mode on the alternate screen, with the crash hook installed. This holds
/// from any state in which manager and backend agree and the cursor is
/// shown, whatever was set up before and whatever the backend answers.
pub proof fn lemma_init_activates(terminal: TerminalView, backend: Mode, answers: Seq<bool>)
    requires
        terminal.mode == backend,
        !backend.cursor_hidden,
    ensures
        ({
            let begun = terminal.init();
            let end = drive(begun.0, begun.1, backend, answers);
            end.1 == Step::Finished ==> end.0.is_active() && end.2.raw_mode
                && end.2.alternate_screen && end.0.restore_hook
        }),
{
    let begun = terminal.init();
    lemma_setup_holds(begun.0, begun.1, backend, answers);
}

/// A tear-down that ends well leaves the backend in the mode it was found in:
/// cooked, primary screen, cursor shown. This holds from any state in which
/// manager and backend agree (after a set-up that failed half way, after
/// any number of frames) and whatever the backend answers.
pub proof fn lemma_exit_restores(terminal: TerminalView, backend: Mode, answers: Seq<bool>)
    requires
        terminal.mode == backend,
    ensures
        ({
            let begun = terminal.exit();
            let end = drive(begun.0, begun.1, backend, answers);
            end.1 == Step::Finished ==> end.2 == Mode::untouched() && end.0.mode
                == Mode::untouched()
        }),
{
    let begun = terminal.exit();
    lemma_teardown_holds(begun.0, begun.1, backend, answers);
}

/// Set-up followed at once by tear-down: however far the set-up got and
/// whatever the backend answered, a tear-down that ends well leaves the
/// backend as it was found. A second tear-down then has nothing to do.
pub proof fn lemma_init_then_exit_restores(answers_init: Seq<bool>, answers_exit: Seq<bool>)
    ensures
        ({
            let begun = TerminalView::idle().init();
            let set_up = drive(begun.0, begun.1, Mode::untouched(), answers_init);
            let leaving = set_up.0.exit();
            let end = drive(leaving.0, leaving.1, set_up.2, answers_exit);
            end.1 == Step::Finished ==> {
                &&& end.2 == Mode::untouched()
                &&& end.0.mode == Mode::untouched()
                &&& end.0.exit().1 == Step::Finished
            }
        }),
{
    let begun = TerminalView::idle().init();
    lemma_mode_follows_backend(begun.0, begun.1, Mode::untouched(), answers_init);
    let set_up = drive(begun.0, begun.1, Mode::untouched(), answers_init);
    lemma_exit_restores(set_up.0, set_up.2, answers_exit);
}

/// The crash hook's operations take the terminal out of raw mode and back to
/// the primary screen from every mode, and touch nothing else.
pub proof fn lemma_restore_ops_restore(mode: Mode)
    ensures
        mode.perform_all(restore_ops()) == (Mode {
            raw_mode: false,
            alternate_screen: false,
            ..mode
        }),
{
    let ops = restore_ops();
    let rest = ops.drop_first();
    assert(rest.drop_first().len() == 0);
    reveal_with_fuel(Mode::perform_all, 3);
}

/// A crash after set-up and before tear-down: once a set-up begun on an
/// untouched terminal has ended well, the crash hook is installed, and its
/// operations bring the backend back to the mode it was found in.
pub proof fn lemma_crash_after_init_restores(answers: Seq<bool>)
    ensures
        ({
            let begun = TerminalView::idle().init();
            let end = drive(begun.0, begun.1, Mode::untouched(), answers);
            end.1 == Step::Finished ==> end.0.restore_hook && end.2.perform_all(restore_ops())
                == Mode::untouched()
        }),
{
    let begun = TerminalView::idle().init();
    lemma_setup_holds(begun.0, begun.1, Mode::untouched(), answers);
    let end = drive(begun.0, begun.1, Mode::untouched(), answers);
    lemma_restore_ops_restore(end.2);
}

/// Every answer is a success.
pub open spec fn all_succeed(answers: Seq<bool>) -> bool {
    forall|i: int| 0 <= i < answers.len() ==> #[trigger] answers[i]
}

/// With a backend that performs what it is asked, three answers are enough
/// for any set-up to end well, and three for any tear-down.
pub proof fn lemma_willing_backend_suffices(terminal: TerminalView, backend: Mode, answers: Seq<bool>)
    requires
        answers.len() >= 3,
        all_succeed(answers),
    ensures
        ({
            let begun = terminal.init();
            drive(begun.0, begun.1, backend, answers).1 == Step::Finished
        }),
        ({
            let begun = terminal.exit();
            drive(begun.0, begun.1, backend, answers).1 == Step::Finished
        }),
{
    let second = answers.drop_first();
    let third = second.drop_first();
    assert(answers[0] && answers[1] && answers[2]);
    assert(second[0] && second[1] && third[0]);
    reveal_with_fuel(drive, 4);
}

} // verus!
