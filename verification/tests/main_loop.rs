use biograf::app::App;
use biograf::event::{
    Event, Input, KeyCode, KeyEvent, Modifiers, MouseButton, MouseEvent, MouseKind,
};
use biograf::main_loop::{exit_code, Command, Failure, HandlerError, Hooks, MainLoop, Report};
use biograf::source::{EventSource, SourceError};
use biograf::terminal::{Step, Terminal, TerminalError, TerminalOp};
use std::collections::VecDeque;

const NO_HOOKS: Hooks = Hooks {
    tick: false,
    mouse: false,
    resize: false,
};

const ALL_HOOKS: Hooks = Hooks {
    tick: true,
    mouse: true,
    resize: true,
};

fn key(c: char) -> KeyEvent {
    KeyEvent::plain(KeyCode::Char(c))
}

fn click(column: u16, row: u16) -> MouseEvent {
    MouseEvent {
        kind: MouseKind::Down(MouseButton::Left),
        column,
        row,
        modifiers: Modifiers::none(),
    }
}

/// What the producer does, and when.
#[derive(Clone, Copy, Debug, PartialEq)]
enum Producer {
    Input(u64, Input),
    Timer(u64),
    Terminate,
}

/// Everything around the loop, in memory: a backend that logs and can
/// refuse, an event source fed from a script, hooks that log what they get.
struct World {
    app: App,
    terminal: Terminal,
    source: EventSource,
    script: VecDeque<Producer>,
    clock: u64,
    refused: Vec<TerminalOp>,
    backend_log: Vec<TerminalOp>,
    commands: Vec<Command>,
    seen: Vec<Event>,
    frames: usize,
    quit_key: KeyEvent,
    failing_key: Option<KeyEvent>,
}

impl World {
    fn new(period: u64, script: &[Producer]) -> Self {
        World {
            app: App::new(),
            terminal: Terminal::new(),
            source: EventSource::with_capacity(period, 16),
            script: script.iter().copied().collect(),
            clock: 0,
            refused: Vec::new(),
            backend_log: Vec::new(),
            commands: Vec::new(),
            seen: Vec::new(),
            frames: 0,
            quit_key: key('q'),
            failing_key: None,
        }
    }

    fn carry_out(&mut self, first: Step) -> Result<(), TerminalError> {
        let mut step = first;
        loop {
            match step {
                Step::Perform(op) => {
                    self.backend_log.push(op);
                    if op == TerminalOp::Paint {
                        self.frames += 1;
                    }
                    step = self.terminal.complete(!self.refused.contains(&op));
                }
                Step::Finished => return Ok(()),
                Step::Failed(error) => return Err(error),
            }
        }
    }

    /// Blocks in the source: lets the producer work until an event is there.
    fn next_event(&mut self) -> Result<Event, SourceError> {
        loop {
            match self.source.next() {
                Ok(Some(event)) => return Ok(event),
                Err(error) => return Err(error),
                Ok(None) => {}
            }
            match self.script.pop_front() {
                Some(Producer::Input(at, input)) => {
                    self.clock = at;
                    assert!(self.source.on_input(input));
                }
                Some(Producer::Timer(at)) => {
                    self.clock = at;
                    self.source.on_timer(at);
                }
                Some(Producer::Terminate) => self.source.terminate(),
                None => panic!("the loop waits for an event that never comes"),
            }
        }
    }

    fn dispatch(&mut self, event: Event) -> Result<(), HandlerError> {
        self.seen.push(event);
        match event {
            Event::Tick => self.app.tick(),
            Event::Key(pressed) => {
                if Some(pressed) == self.failing_key {
                    return Err(HandlerError { code: 7 });
                }
                if pressed == self.quit_key {
                    self.app.quit();
                }
            }
            Event::Mouse(_) | Event::Resize(_, _) => {}
        }
        Ok(())
    }

    fn run(&mut self, hooks: Hooks) -> Result<(), Failure> {
        let mut main_loop = MainLoop::new(hooks);
        let mut command = main_loop.command();
        loop {
            self.commands.push(command);
            let report = match command {
                Command::Init => {
                    let step = self.terminal.init();
                    Report::Initialized(self.carry_out(step))
                }
                Command::Draw => {
                    let step = self.terminal.draw();
                    Report::Drawn(self.carry_out(step))
                }
                Command::NextEvent => Report::Received(self.next_event()),
                Command::Dispatch(event) => Report::Handled(self.dispatch(event)),
                Command::Exit => {
                    let step = self.terminal.exit();
                    Report::Exited(self.carry_out(step))
                }
                Command::Finish(outcome) => {
                    assert!(main_loop.is_finished());
                    return outcome;
                }
            };
            command = main_loop.advance(&self.app, report);
        }
    }

    fn exits(&self) -> usize {
        self.commands
            .iter()
            .filter(|command| **command == Command::Exit)
            .count()
    }

    fn dispatched(&self) -> Vec<Event> {
        let mut events = Vec::new();
        for command in &self.commands {
            if let Command::Dispatch(event) = command {
                events.push(*event);
            }
        }
        events
    }
}

#[test]
fn loop_starts_with_init() {
    let main_loop = MainLoop::new(NO_HOOKS);
    assert_eq!(main_loop.command(), Command::Init);
    assert!(!main_loop.is_finished());
}

#[test]
fn commands_follow_the_cycle() {
    let mut app = App::new();
    let mut main_loop = MainLoop::new(NO_HOOKS);
    assert_eq!(
        main_loop.advance(&app, Report::Initialized(Ok(()))),
        Command::Draw
    );
    assert_eq!(
        main_loop.advance(&app, Report::Drawn(Ok(()))),
        Command::NextEvent
    );
    assert_eq!(
        main_loop.advance(&app, Report::Received(Ok(Event::Key(key('x'))))),
        Command::Dispatch(Event::Key(key('x')))
    );
    assert_eq!(
        main_loop.advance(&app, Report::Handled(Ok(()))),
        Command::Draw
    );
    assert_eq!(
        main_loop.advance(&app, Report::Drawn(Ok(()))),
        Command::NextEvent
    );
    assert_eq!(
        main_loop.advance(&app, Report::Received(Ok(Event::Key(key('q'))))),
        Command::Dispatch(Event::Key(key('q')))
    );
    app.quit();
    assert_eq!(
        main_loop.advance(&app, Report::Handled(Ok(()))),
        Command::Exit
    );
    assert_eq!(
        main_loop.advance(&app, Report::Exited(Ok(()))),
        Command::Finish(Ok(()))
    );
    assert!(main_loop.is_finished());
    assert_eq!(main_loop.command(), Command::Finish(Ok(())));
}

#[test]
fn events_are_dispatched_in_the_order_received() {
    let events = [
        Input::Key(key('a')),
        Input::Resize(100, 30),
        Input::Mouse(click(5, 6)),
        Input::Key(key('b')),
        Input::Mouse(click(7, 8)),
        Input::Key(key('c')),
        Input::Key(key('q')),
    ];
    let mut script = Vec::new();
    for (i, input) in events.iter().enumerate() {
        script.push(Producer::Input(i as u64, *input));
    }
    let mut world = World::new(1000, &script);
    assert_eq!(world.run(ALL_HOOKS), Ok(()));
    let expected: Vec<Event> = events.iter().map(|input| Event::from_input(*input)).collect();
    assert_eq!(world.dispatched(), expected);
    assert_eq!(world.seen, expected);
}

#[test]
fn ticks_and_input_keep_their_order() {
    let script = [
        Producer::Input(10, Input::Key(key('a'))),
        Producer::Timer(100),
        Producer::Input(120, Input::Key(key('b'))),
        Producer::Timer(200),
        Producer::Input(210, Input::Key(key('q'))),
    ];
    let mut world = World::new(100, &script);
    assert_eq!(world.run(ALL_HOOKS), Ok(()));
    assert_eq!(
        world.seen,
        vec![
            Event::Key(key('a')),
            Event::Tick,
            Event::Key(key('b')),
            Event::Tick,
            Event::Key(key('q')),
        ]
    );
}

#[test]
fn events_without_a_hook_are_skipped_in_order() {
    let script = [
        Producer::Input(1, Input::Mouse(click(1, 1))),
        Producer::Input(2, Input::Key(key('a'))),
        Producer::Timer(50),
        Producer::Input(60, Input::Resize(10, 10)),
        Producer::Input(70, Input::Key(key('q'))),
    ];
    let mut world = World::new(50, &script);
    assert_eq!(world.run(NO_HOOKS), Ok(()));
    assert_eq!(
        world.dispatched(),
        vec![Event::Key(key('a')), Event::Key(key('q'))]
    );
    // Every event was taken from the source and led to a new frame.
    assert_eq!(world.frames, 5);
    assert_eq!(world.source.len(), 0);
}

#[test]
fn tick_without_tick_hook_changes_nothing() {
    let app = App::new();
    let mut main_loop = MainLoop::new(NO_HOOKS);
    main_loop.advance(&app, Report::Initialized(Ok(())));
    main_loop.advance(&app, Report::Drawn(Ok(())));
    assert_eq!(
        main_loop.advance(&app, Report::Received(Ok(Event::Tick))),
        Command::Draw
    );
    assert!(app.running);
    assert!(!main_loop.is_finished());
}

#[test]
fn tick_without_tick_hook_is_no_error() {
    let script = [
        Producer::Timer(250),
        Producer::Timer(500),
        Producer::Input(510, Input::Key(key('q'))),
    ];
    let mut world = World::new(250, &script);
    assert_eq!(world.run(NO_HOOKS), Ok(()));
    assert_eq!(world.seen, vec![Event::Key(key('q'))]);
    assert_eq!(world.frames, 3);
}

#[test]
fn tick_with_tick_hook_is_dispatched() {
    let app = App::new();
    let hooks = Hooks {
        tick: true,
        mouse: false,
        resize: false,
    };
    let mut main_loop = MainLoop::new(hooks);
    main_loop.advance(&app, Report::Initialized(Ok(())));
    main_loop.advance(&app, Report::Drawn(Ok(())));
    assert_eq!(
        main_loop.advance(&app, Report::Received(Ok(Event::Tick))),
        Command::Dispatch(Event::Tick)
    );
    assert_eq!(
        main_loop.advance(&app, Report::Handled(Ok(()))),
        Command::Draw
    );
}

#[test]
fn mouse_and_resize_need_their_hooks() {
    let app = App::new();
    let hooks = Hooks {
        tick: false,
        mouse: true,
        resize: false,
    };
    let mut main_loop = MainLoop::new(hooks);
    main_loop.advance(&app, Report::Initialized(Ok(())));
    main_loop.advance(&app, Report::Drawn(Ok(())));
    assert_eq!(
        main_loop.advance(&app, Report::Received(Ok(Event::Resize(80, 24)))),
        Command::Draw
    );
    main_loop.advance(&app, Report::Drawn(Ok(())));
    assert_eq!(
        main_loop.advance(&app, Report::Received(Ok(Event::Mouse(click(2, 3))))),
        Command::Dispatch(Event::Mouse(click(2, 3)))
    );
}

#[test]
fn quit_key_ends_the_loop_before_the_next_tick() {
    let script = [
        Producer::Input(5, Input::Key(key('a'))),
        Producer::Input(6, Input::Key(key('q'))),
        Producer::Timer(250),
        Producer::Input(260, Input::Key(key('z'))),
    ];
    let mut world = World::new(250, &script);
    assert_eq!(world.run(ALL_HOOKS), Ok(()));
    assert_eq!(world.seen, vec![Event::Key(key('a')), Event::Key(key('q'))]);
    let n = world.commands.len();
    assert_eq!(
        world.commands[n - 3..].to_vec(),
        vec![
            Command::Dispatch(Event::Key(key('q'))),
            Command::Exit,
            Command::Finish(Ok(())),
        ]
    );
    // The producer was never asked again.
    assert_eq!(world.script.len(), 2);
    assert_eq!(world.clock, 6);
}

#[test]
fn quit_during_a_tick_hook_ends_the_loop_too() {
    let mut app = App::new();
    let mut main_loop = MainLoop::new(ALL_HOOKS);
    main_loop.advance(&app, Report::Initialized(Ok(())));
    main_loop.advance(&app, Report::Drawn(Ok(())));
    main_loop.advance(&app, Report::Received(Ok(Event::Tick)));
    app.quit();
    assert_eq!(
        main_loop.advance(&app, Report::Handled(Ok(()))),
        Command::Exit
    );
}

#[test]
fn quit_key_at_time_10_returns_at_time_10() {
    let script = [
        Producer::Input(10, Input::Key(key('q'))),
        Producer::Timer(250),
    ];
    let mut world = World::new(250, &script);
    assert_eq!(world.source.poll_timeout(0), 250);
    assert_eq!(world.run(NO_HOOKS), Ok(()));
    assert_eq!(world.clock, 10);
    assert_eq!(world.exits(), 1);
    assert_eq!(world.seen, vec![Event::Key(key('q'))]);
    assert_eq!(world.script.len(), 1);
    assert!(!world.source.tick_pending());
    assert!(!world.source.on_timer(10));
    assert!(!world.app.running);
    assert!(!world.terminal.is_active());
    assert_eq!(
        world.commands,
        vec![
            Command::Init,
            Command::Draw,
            Command::NextEvent,
            Command::Dispatch(Event::Key(key('q'))),
            Command::Exit,
            Command::Finish(Ok(())),
        ]
    );
}

#[test]
fn source_failure_exits_once_with_nonzero_status() {
    let script = [Producer::Terminate];
    let mut world = World::new(250, &script);
    let outcome = world.run(ALL_HOOKS);
    assert_eq!(outcome, Err(Failure::Source(SourceError {})));
    assert_ne!(exit_code(outcome), 0);
    assert_eq!(world.exits(), 1);
    assert_eq!(
        world.commands,
        vec![
            Command::Init,
            Command::Draw,
            Command::NextEvent,
            Command::Exit,
            Command::Finish(Err(Failure::Source(SourceError {}))),
        ]
    );
    assert_eq!(
        world.backend_log,
        vec![
            TerminalOp::EnableRawMode,
            TerminalOp::EnterAlternateScreen,
            TerminalOp::InstallRestoreHook,
            TerminalOp::Paint,
            TerminalOp::DisableRawMode,
            TerminalOp::LeaveAlternateScreen,
            TerminalOp::ShowCursor,
        ]
    );
    assert!(world.seen.is_empty());
}

#[test]
fn source_drains_before_it_fails() {
    let script = [
        Producer::Input(1, Input::Key(key('a'))),
        Producer::Terminate,
    ];
    let mut world = World::new(250, &script);
    assert_eq!(
        world.run(ALL_HOOKS),
        Err(Failure::Source(SourceError {}))
    );
    assert_eq!(world.seen, vec![Event::Key(key('a'))]);
    assert_eq!(world.exits(), 1);
}

#[test]
fn init_failure_still_exits_and_is_reported() {
    let mut world = World::new(250, &[]);
    world.refused = vec![TerminalOp::EnterAlternateScreen];
    let failure = Failure::Terminal(TerminalError::ModeSwitch(
        TerminalOp::EnterAlternateScreen,
    ));
    assert_eq!(world.run(ALL_HOOKS), Err(failure));
    assert_eq!(
        world.commands,
        vec![Command::Init, Command::Exit, Command::Finish(Err(failure))]
    );
    assert_eq!(
        world.backend_log,
        vec![
            TerminalOp::EnableRawMode,
            TerminalOp::EnterAlternateScreen,
            TerminalOp::DisableRawMode,
        ]
    );
    assert_eq!(exit_code(Err(failure)), 1);
}

#[test]
fn draw_failure_still_exits_and_is_reported() {
    let mut world = World::new(250, &[]);
    world.refused = vec![TerminalOp::Paint];
    let failure = Failure::Terminal(TerminalError::Write);
    assert_eq!(world.run(ALL_HOOKS), Err(failure));
    assert_eq!(
        world.commands,
        vec![
            Command::Init,
            Command::Draw,
            Command::Exit,
            Command::Finish(Err(failure)),
        ]
    );
    assert!(!world.terminal.is_active());
}

#[test]
fn handler_failure_shuts_down_and_is_reported() {
    let script = [
        Producer::Input(1, Input::Key(key('a'))),
        Producer::Input(2, Input::Key(key('!'))),
        Producer::Input(3, Input::Key(key('b'))),
    ];
    let mut world = World::new(250, &script);
    world.failing_key = Some(key('!'));
    let failure = Failure::Handler(HandlerError { code: 7 });
    assert_eq!(world.run(ALL_HOOKS), Err(failure));
    assert_eq!(world.seen, vec![Event::Key(key('a')), Event::Key(key('!'))]);
    assert_eq!(world.exits(), 1);
    assert_eq!(world.script.len(), 1);
    assert!(world.app.running);
    assert_eq!(exit_code(Err(failure)), 1);
}

#[test]
fn exit_failure_is_reported_after_a_clean_loop() {
    let script = [Producer::Input(1, Input::Key(key('q')))];
    let mut world = World::new(250, &script);
    world.refused = vec![TerminalOp::LeaveAlternateScreen];
    assert_eq!(
        world.run(ALL_HOOKS),
        Err(Failure::Terminal(TerminalError::ModeSwitch(
            TerminalOp::LeaveAlternateScreen
        )))
    );
    assert_eq!(world.exits(), 1);
}

#[test]
fn first_failure_wins_over_exit_failure() {
    let mut world = World::new(250, &[Producer::Terminate]);
    world.refused = vec![TerminalOp::DisableRawMode];
    assert_eq!(
        world.run(ALL_HOOKS),
        Err(Failure::Source(SourceError {}))
    );
    assert_eq!(world.exits(), 1);
}

#[test]
fn stopped_app_is_never_drawn() {
    let mut world = World::new(250, &[]);
    world.app.quit();
    assert_eq!(world.run(ALL_HOOKS), Ok(()));
    assert_eq!(
        world.commands,
        vec![Command::Init, Command::Exit, Command::Finish(Ok(()))]
    );
    assert_eq!(world.frames, 0);
}

#[test]
fn report_that_answers_nothing_is_ignored() {
    let app = App::new();
    let mut main_loop = MainLoop::new(ALL_HOOKS);
    assert_eq!(
        main_loop.advance(&app, Report::Drawn(Ok(()))),
        Command::Init
    );
    assert_eq!(
        main_loop.advance(&app, Report::Received(Err(SourceError {}))),
        Command::Init
    );
    main_loop.advance(&app, Report::Initialized(Ok(())));
    assert_eq!(
        main_loop.advance(&app, Report::Handled(Err(HandlerError { code: 1 }))),
        Command::Draw
    );
    assert_eq!(
        main_loop.advance(&app, Report::Exited(Ok(()))),
        Command::Draw
    );
}

#[test]
fn finished_loop_stays_finished() {
    let mut app = App::new();
    app.quit();
    let mut main_loop = MainLoop::new(ALL_HOOKS);
    main_loop.advance(&app, Report::Initialized(Ok(())));
    assert_eq!(
        main_loop.advance(&app, Report::Exited(Ok(()))),
        Command::Finish(Ok(()))
    );
    assert_eq!(
        main_loop.advance(&app, Report::Initialized(Ok(()))),
        Command::Finish(Ok(()))
    );
    assert_eq!(
        main_loop.advance(&app, Report::Received(Ok(Event::Tick))),
        Command::Finish(Ok(()))
    );
    assert!(main_loop.is_finished());
}

#[test]
fn exit_code_is_zero_only_for_success() {
    assert_eq!(exit_code(Ok(())), 0);
    assert_eq!(exit_code(Err(Failure::Source(SourceError {}))), 1);
    assert_eq!(
        exit_code(Err(Failure::Terminal(TerminalError::Write))),
        1
    );
    assert_eq!(
        exit_code(Err(Failure::Handler(HandlerError { code: 0 }))),
        1
    );
}

#[test]
fn hooks_always_handle_keys() {
    assert!(NO_HOOKS.has_hook_for(&Event::Key(key('k'))));
    assert!(!NO_HOOKS.has_hook_for(&Event::Tick));
    assert!(!NO_HOOKS.has_hook_for(&Event::Mouse(click(0, 0))));
    assert!(!NO_HOOKS.has_hook_for(&Event::Resize(1, 1)));
    assert!(ALL_HOOKS.has_hook_for(&Event::Tick));
    assert!(ALL_HOOKS.has_hook_for(&Event::Mouse(click(0, 0))));
    assert!(ALL_HOOKS.has_hook_for(&Event::Resize(1, 1)));
}
