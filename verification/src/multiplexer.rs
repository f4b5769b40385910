//! The multiplexer: the panels in the order they were opened, the focus, the
//! terminal size and the quit latch.

use vstd::prelude::*;
use vstd::string::*;
use crate::input::{Command, KeyCode, KeyEvent, MODIFIER_CONTROL, dispatch, command_of};
use crate::panel::{Panel, PanelType, PanelView, appended, PANEL_CAPACITY};
use crate::text::{decimal, push_decimal, push_char};

verus! {

/// The mathematical value of a [`Multiplexer`]. `panels` is in the order in
/// which the panels were opened, which is the order the focus cycles in.
pub ghost struct MultiplexerView {
    pub panels: Seq<PanelView>,
    pub active_panel: usize,
    pub next_panel_id: usize,
    pub terminal_size: (u16, u16),
    pub should_quit: bool,
}

/// What the caller has to do after a key press was handled.
#[derive(Clone, Copy, Debug, PartialEq, Eq, Structural)]
pub enum InputAction {
    /// Nothing: the state already reflects the key.
    Nothing,
    /// Hand the terminal to the payload, run it, and report how it went with
    /// [`Multiplexer::record_launch_outcome`].
    LaunchPayload,
}

/// What the event loop saw while it waited for input.
#[derive(Clone, Copy, Debug, PartialEq, Eq, Structural)]
pub enum LoopEvent {
    /// A key was pressed.
    Key(KeyEvent),
    /// The terminal changed its size to this width and height.
    Resize(u16, u16),
    /// Something else happened, or the wait ran out.
    Idle,
}

/// What the event loop does once a frame is on the screen.
#[derive(Clone, Copy, Debug, PartialEq, Eq, Structural)]
pub enum LoopStep {
    /// Wait a bounded time for input and handle it.
    Poll,
    /// Leave the loop.
    Leave,
}

/// The panel set owned by one event loop.
pub struct Multiplexer {
    panels: Vec<Panel>,
    active_panel: usize,
    next_panel_id: usize,
    terminal_size: (u16, u16),
    should_quit: bool,
}

/// The state invariant: there is at least one panel; panel ids count up from
/// zero in opening order, so they are unique and below the next id to hand
/// out; no log exceeds its capacity; the active id names a panel, and that
/// panel alone carries the focus flag.
pub open spec fn valid(m: MultiplexerView) -> bool {
    &&& m.panels.len() >= 1
    &&& m.next_panel_id == m.panels.len()
    &&& m.active_panel < m.panels.len()
    &&& forall|i: int|
        0 <= i < m.panels.len() ==> {
            &&& (#[trigger] m.panels[i]).id == i
            &&& m.panels[i].content.len() <= PANEL_CAPACITY
            &&& (m.panels[i].is_active <==> i == m.active_panel)
        }
}

/// The panel that a new host panel starts as.
pub open spec fn binary_panel(id: usize) -> PanelView {
    PanelView {
        id,
        title: "Welcome to OpenCode"@,
        content: seq![
            "Press Enter to start OpenCode, Ctrl+C to switch panels"@,
            "When binary is running, it will take full terminal control"@,
        ],
        is_active: true,
        cursor_line: 0,
        scroll_offset: 0,
        panel_type: PanelType::BinaryProcess,
    }
}

/// The panel that a new note panel starts as.
pub open spec fn manual_panel(id: usize, title: Seq<char>) -> PanelView {
    PanelView {
        id,
        title,
        content: seq![
            "Manual panel created. Type commands or notes here."@,
            "Use Ctrl+C to switch panels, Ctrl+N for new panel, Ctrl+Q to quit."@,
        ],
        is_active: false,
        cursor_line: 0,
        scroll_offset: 0,
        panel_type: PanelType::Manual,
    }
}

/// The state a multiplexer starts in on a terminal of the given size.
pub open spec fn initial(width: u16, height: u16) -> MultiplexerView {
    MultiplexerView {
        panels: seq![binary_panel(0)],
        active_panel: 0,
        next_panel_id: 1,
        terminal_size: (width, height),
        should_quit: false,
    }
}

/// `panels` with the focus flag set on the panel at `active` and cleared on
/// every other.
pub open spec fn focused(panels: Seq<PanelView>, active: int) -> Seq<PanelView> {
    Seq::new(panels.len(), |i: int| PanelView { is_active: i == active, ..panels[i] })
}

/// `panels` with `line` appended to the log of the panel at `index`.
pub open spec fn with_line(panels: Seq<PanelView>, index: int, line: Seq<char>) -> Seq<PanelView> {
    panels.update(
        index,
        PanelView { content: appended(panels[index].content, line), ..panels[index] },
    )
}

/// The position after `index` in a cycle of `count` positions.
pub open spec fn next_in_cycle(index: int, count: int) -> int {
    (index + 1) % count
}

/// The state after the focus moved to the next panel in opening order,
/// wrapping from the last panel to the first.
pub open spec fn switched(m: MultiplexerView) -> MultiplexerView {
    let next = next_in_cycle(m.active_panel as int, m.panels.len() as int);
    MultiplexerView { panels: focused(m.panels, next), active_panel: next as usize, ..m }
}

/// The state after `count` moves of the focus.
pub open spec fn switched_times(m: MultiplexerView, count: nat) -> MultiplexerView
    decreases count,
{
    if count == 0 {
        m
    } else {
        switched(switched_times(m, (count - 1) as nat))
    }
}

/// The state after a host panel was opened: it is appended with the next
/// id and takes the focus from the panel that had it.
pub open spec fn with_binary_panel(m: MultiplexerView) -> MultiplexerView {
    MultiplexerView {
        panels: focused(m.panels, -1).push(binary_panel(m.next_panel_id)),
        active_panel: m.next_panel_id,
        next_panel_id: (m.next_panel_id + 1) as usize,
        ..m
    }
}

/// The state after a note panel with the given title was opened: it is
/// appended with the next id, and the focus stays where it was.
pub open spec fn with_manual_panel(m: MultiplexerView, title: Seq<char>) -> MultiplexerView {
    MultiplexerView {
        panels: m.panels.push(manual_panel(m.next_panel_id, title)),
        next_panel_id: (m.next_panel_id + 1) as usize,
        ..m
    }
}

/// The state after `line` was appended to the log of the active panel.
pub open spec fn with_active_line(m: MultiplexerView, line: Seq<char>) -> MultiplexerView {
    MultiplexerView { panels: with_line(m.panels, m.active_panel as int, line), ..m }
}

/// The title of the note panel that the "new panel" key opens.
pub open spec fn note_title(id: usize) -> Seq<char> {
    "Panel "@ + decimal(id as nat)
}

/// The state after a command.
pub open spec fn after_command(m: MultiplexerView, command: Command) -> MultiplexerView {
    let on_note = m.panels[m.active_panel as int].panel_type == PanelType::Manual;
    match command {
        Command::Quit => MultiplexerView { should_quit: true, ..m },
        Command::SwitchPanel => switched(m),
        Command::NewPanel => with_manual_panel(m, note_title(m.next_panel_id)),
        Command::Submit => if on_note {
            with_active_line(m, ">>> Enter pressed"@)
        } else {
            m
        },
        Command::Insert(c) => if on_note {
            with_active_line(m, "Input: "@.push(c))
        } else {
            m
        },
        Command::Ignore => m,
    }
}

/// What a command leaves for the caller to do: a submit on a host panel
/// asks for the payload to be launched, everything else for nothing.
pub open spec fn action_of(m: MultiplexerView, command: Command) -> InputAction {
    if command == Command::Submit && m.panels[m.active_panel as int].panel_type
        == PanelType::BinaryProcess {
        InputAction::LaunchPayload
    } else {
        InputAction::Nothing
    }
}

/// The line that records how a launch went.
pub open spec fn outcome_line(outcome: Result<(), Seq<char>>) -> Seq<char> {
    match outcome {
        Ok(_) => "Go binary executed successfully!"@,
        Err(diagnostic) => "Error: "@ + diagnostic,
    }
}

/// The state after an event of the loop.
pub open spec fn after_event(m: MultiplexerView, event: LoopEvent) -> MultiplexerView {
    match event {
        LoopEvent::Key(key) => after_command(m, command_of(key)),
        LoopEvent::Resize(width, height) => MultiplexerView { terminal_size: (width, height), ..m },
        LoopEvent::Idle => m,
    }
}

/// What the loop does after rendering: it leaves once the quit latch is
/// set, before it looks for further input.
pub open spec fn step_of(m: MultiplexerView) -> LoopStep {
    if m.should_quit {
        LoopStep::Leave
    } else {
        LoopStep::Poll
    }
}

/// The quit chord: `q` with control alone.
pub open spec fn quit_chord() -> KeyEvent {
    KeyEvent { code: KeyCode::Char('q'), modifiers: MODIFIER_CONTROL }
}

/// In a valid state no two panels share an id, and every id is below the
/// next one to hand out.
pub proof fn ids_are_unique(m: MultiplexerView)
    requires
        valid(m),
    ensures
        forall|i: int, j: int|
            0 <= i < m.panels.len() && 0 <= j < m.panels.len() && i != j ==> (
            #[trigger] m.panels[i]).id != (#[trigger] m.panels[j]).id,
        forall|i: int| 0 <= i < m.panels.len() ==> (#[trigger] m.panels[i]).id < m.next_panel_id,
{
}

/// Opening a note panel hands out the next id and moves the counter on, so
/// that no id is handed out twice.
pub proof fn new_panel_gets_fresh_id(m: MultiplexerView, title: Seq<char>)
    requires
        valid(m),
        m.panels.len() < usize::MAX,
    ensures
        valid(with_manual_panel(m, title)),
        with_manual_panel(m, title).panels.last().id == m.next_panel_id,
        with_manual_panel(m, title).next_panel_id == m.next_panel_id + 1,
        forall|i: int|
            0 <= i < m.panels.len() ==> (#[trigger] with_manual_panel(m, title).panels[i])
                == m.panels[i],
{
}

/// Moving the focus keeps the state invariant: before and after, exactly
/// the panel named by the active id carries the focus flag.
pub proof fn switched_keeps_valid(m: MultiplexerView)
    requires
        valid(m),
    ensures
        valid(switched(m)),
        switched(m).active_panel == next_in_cycle(m.active_panel as int, m.panels.len() as int),
{
    let count = m.panels.len() as int;
    let current = m.active_panel as int;
    if current + 1 < count {
        vstd::arithmetic::div_mod::lemma_small_mod((current + 1) as nat, count as nat);
    } else {
        vstd::arithmetic::div_mod::lemma_mod_self_0(count);
    }
}

/// After `count` moves of the focus the state is valid, the focus is
/// `count` positions further in the cycle, and nothing but the focus has
/// changed.
pub proof fn switched_times_moves_focus(m: MultiplexerView, count: nat)
    requires
        valid(m),
    ensures
        valid(switched_times(m, count)),
        switched_times(m, count) == (MultiplexerView {
            panels: focused(m.panels, (m.active_panel + count) % (m.panels.len() as int)),
            active_panel: ((m.active_panel + count) % (m.panels.len() as int)) as usize,
            ..m
        }),
    decreases count,
{
    let n = m.panels.len() as int;
    let a = m.active_panel as int;
    if count == 0 {
        vstd::arithmetic::div_mod::lemma_small_mod(a as nat, n as nat);
        assert(focused(m.panels, a) =~= m.panels);
    } else {
        let before = switched_times(m, (count - 1) as nat);
        switched_times_moves_focus(m, (count - 1) as nat);
        switched_keeps_valid(before);
        let p = (a + count - 1) % n;
        vstd::arithmetic::div_mod::lemma_add_mod_noop(a + count - 1, 1, n);
        vstd::arithmetic::div_mod::lemma_mod_bound(a + count - 1, n);
        vstd::arithmetic::div_mod::lemma_mod_bound(a + count, n);
        if n == 1 {
            assert(1int % n == 0);
        } else {
            vstd::arithmetic::div_mod::lemma_small_mod(1, n as nat);
        }
        assert((p + 1) % n == (a + count) % n);
        assert(switched(before).panels =~= focused(m.panels, (a + count) % n));
    }
}

/// Moving the focus as many times as there are panels brings it back to
/// the panel it started on and leaves the whole state as it was.
pub proof fn full_cycle_returns(m: MultiplexerView)
    requires
        valid(m),
    ensures
        switched_times(m, m.panels.len()) == m,
{
    let n = m.panels.len() as int;
    let a = m.active_panel as int;
    switched_times_moves_focus(m, m.panels.len());
    vstd::arithmetic::div_mod::lemma_mod_add_multiples_vanish(a, n);
    vstd::arithmetic::div_mod::lemma_small_mod(a as nat, n as nat);
    assert((a + n) % n == a);
    assert(focused(m.panels, a) =~= m.panels);
}

/// The quit chord sets the quit latch, and with the latch set the loop
/// leaves after its next frame without waiting for another event.
pub proof fn quit_chord_leaves_loop(m: MultiplexerView)
    ensures
        after_event(m, LoopEvent::Key(quit_chord())).should_quit,
        step_of(after_event(m, LoopEvent::Key(quit_chord()))) == LoopStep::Leave,
{
}

/// The quit latch stays set whatever events follow.
pub proof fn quit_latch_stays(m: MultiplexerView, event: LoopEvent)
    requires
        m.should_quit,
    ensures
        after_event(m, event).should_quit,
{
}

impl View for Multiplexer {
    type V = MultiplexerView;

    closed spec fn view(&self) -> MultiplexerView {
        MultiplexerView {
            panels: self.panels@.map_values(|p: Panel| p@),
            active_panel: self.active_panel,
            next_panel_id: self.next_panel_id,
            terminal_size: self.terminal_size,
            should_quit: self.should_quit,
        }
    }
}

impl Multiplexer {
    /// The state invariant holds.
    pub open spec fn wf(&self) -> bool {
        valid(self@)
    }

    /// A multiplexer on a terminal of the given size, with one host panel
    /// that has the focus.
    pub fn new(width: u16, height: u16) -> (mux: Multiplexer)
        ensures
            mux.wf(),
            mux@ == initial(width, height),
    {
        let mut panels: Vec<Panel> = Vec::new();
        panels.push(Self::fresh_binary_panel(0));
        let mux = Multiplexer {
            panels,
            active_panel: 0,
            next_panel_id: 1,
            terminal_size: (width, height),
            should_quit: false,
        };
        proof {
            assert(mux@.panels =~= initial(width, height).panels);
        }
        mux
    }

    /// A host panel as it is opened: focused, with its two lines of help.
    fn fresh_binary_panel(id: usize) -> (panel: Panel)
        ensures
            panel@ == binary_panel(id),
    {
        let mut panel = Panel::new_binary(id, String::from_str("Welcome to OpenCode"));
        panel.set_active(true);
        panel.add_line(String::from_str("Press Enter to start OpenCode, Ctrl+C to switch panels"));
        panel.add_line(
            String::from_str("When binary is running, it will take full terminal control"),
        );
        proof {
            assert(panel@.content =~= binary_panel(id).content);
        }
        panel
    }

    /// Opens a host panel and gives it the focus.
    pub fn create_binary_panel(&mut self)
        requires
            old(self).wf(),
        ensures
            final(self).wf(),
            final(self)@ == with_binary_panel(old(self)@),
    {
        let id = self.panels.len();
        let active = self.active_panel;
        self.panels[active].set_active(false);
        self.panels.push(Self::fresh_binary_panel(id));
        self.active_panel = id;
        self.next_panel_id = self.panels.len();
        proof {
            assert(final(self)@.panels =~= with_binary_panel(old(self)@).panels);
        }
    }

    /// Opens a note panel with the given title; the focus stays.
    pub fn create_manual_panel(&mut self, title: String)
        requires
            old(self).wf(),
        ensures
            final(self).wf(),
            final(self)@ == with_manual_panel(old(self)@, title@),
    {
        let id = self.panels.len();
        let mut panel = Panel::new(id, title);
        panel.add_line(String::from_str("Manual panel created. Type commands or notes here."));
        panel.add_line(
            String::from_str("Use Ctrl+C to switch panels, Ctrl+N for new panel, Ctrl+Q to quit."),
        );
        proof {
            assert(panel@.content =~= manual_panel(id, title@).content);
        }
        self.panels.push(panel);
        self.next_panel_id = self.panels.len();
        proof {
            assert(final(self)@.panels =~= with_manual_panel(old(self)@, title@).panels);
        }
    }

    /// Moves the focus to the next panel in opening order, wrapping past the
    /// last panel to the first.
    pub fn switch_to_next_panel(&mut self)
        requires
            old(self).wf(),
        ensures
            final(self).wf(),
            final(self)@ == switched(old(self)@),
    {
        let current = self.active_panel;
        let next = if current + 1 < self.panels.len() {
            current + 1
        } else {
            0
        };
        self.panels[current].set_active(false);
        self.panels[next].set_active(true);
        self.active_panel = next;
        proof {
            let count = old(self)@.panels.len() as int;
            assert(next as int == next_in_cycle(current as int, count)) by {
                if current + 1 < count {
                    vstd::arithmetic::div_mod::lemma_small_mod((current + 1) as nat, count as nat);
                } else {
                    vstd::arithmetic::div_mod::lemma_mod_self_0(count);
                }
            }
            assert(final(self)@.panels =~= switched(old(self)@).panels);
        }
    }

    /// Appends `line` to the log of the active panel.
    fn add_active_line(&mut self, line: String)
        requires
            old(self).wf(),
        ensures
            final(self).wf(),
            final(self)@ == with_active_line(old(self)@, line@),
    {
        let active = self.active_panel;
        self.panels[active].add_line(line);
        proof {
            assert(final(self)@.panels =~= with_active_line(old(self)@, line@).panels);
        }
    }

    /// Handles one key press: updates the state as the key's command says
    /// and tells the caller whether the payload is to be launched.
    pub fn handle_input(&mut self, key_event: KeyEvent) -> (action: InputAction)
        requires
            old(self).wf(),
        ensures
            final(self).wf(),
            final(self)@ == after_command(old(self)@, command_of(key_event)),
            action == action_of(old(self)@, command_of(key_event)),
    {
        let on_note = match self.panels[self.active_panel].panel_type() {
            PanelType::Manual => true,
            PanelType::BinaryProcess => false,
        };
        match dispatch(key_event) {
            Command::Quit => {
                self.should_quit = true;
                InputAction::Nothing
            },
            Command::SwitchPanel => {
                self.switch_to_next_panel();
                InputAction::Nothing
            },
            Command::NewPanel => {
                let mut title = String::from_str("Panel ");
                push_decimal(&mut title, self.next_panel_id as u64);
                self.create_manual_panel(title);
                InputAction::Nothing
            },
            Command::Submit => {
                if on_note {
                    self.add_active_line(String::from_str(">>> Enter pressed"));
                    InputAction::Nothing
                } else {
                    InputAction::LaunchPayload
                }
            },
            Command::Insert(c) => {
                if on_note {
                    let mut line = String::from_str("Input: ");
                    push_char(&mut line, c);
                    self.add_active_line(line);
                }
                InputAction::Nothing
            },
            Command::Ignore => InputAction::Nothing,
        }
    }

    /// Records how a launch went in the log of the active panel: a success
    /// line, or an error line that carries the diagnostic.
    pub fn record_launch_outcome(&mut self, outcome: Result<(), String>)
        requires
            old(self).wf(),
        ensures
            final(self).wf(),
            final(self)@ == with_active_line(
                old(self)@,
                outcome_line(
                    match outcome {
                        Ok(_) => Ok(()),
                        Err(diagnostic) => Err(diagnostic@),
                    },
                ),
            ),
    {
        match outcome {
            Ok(_) => {
                self.add_active_line(String::from_str("Go binary executed successfully!"));
            },
            Err(diagnostic) => {
                let mut line = String::from_str("Error: ");
                line.append(diagnostic.as_str());
                self.add_active_line(line);
            },
        }
    }

    /// Handles one event of the loop: a key press as [`Self::handle_input`]
    /// does, a resize by taking the new size; anything else changes nothing.
    pub fn on_event(&mut self, event: LoopEvent) -> (action: InputAction)
        requires
            old(self).wf(),
        ensures
            final(self).wf(),
            final(self)@ == after_event(old(self)@, event),
            action == (match event {
                LoopEvent::Key(key) => action_of(old(self)@, command_of(key)),
                _ => InputAction::Nothing,
            }),
    {
        match event {
            LoopEvent::Key(key) => self.handle_input(key),
            LoopEvent::Resize(width, height) => {
                self.resize(width, height);
                InputAction::Nothing
            },
            LoopEvent::Idle => InputAction::Nothing,
        }
    }

    /// What the loop does once the current frame is drawn.
    pub fn next_step(&self) -> (step: LoopStep)
        ensures
            step == step_of(self@),
    {
        if self.should_quit {
            LoopStep::Leave
        } else {
            LoopStep::Poll
        }
    }

    /// Whether the quit latch is set.
    pub fn should_quit(&self) -> (quit: bool)
        ensures
            quit == self@.should_quit,
    {
        self.should_quit
    }

    /// The id of the panel that has the focus.
    pub fn active_panel(&self) -> (id: usize)
        ensures
            id == self@.active_panel,
    {
        self.active_panel
    }

    /// The id that the next panel will get.
    pub fn next_panel_id(&self) -> (id: usize)
        ensures
            id == self@.next_panel_id,
    {
        self.next_panel_id
    }

    /// The terminal's width and height as last seen.
    pub fn terminal_size(&self) -> (size: (u16, u16))
        ensures
            size == self@.terminal_size,
    {
        self.terminal_size
    }

    /// The number of panels.
    pub fn panel_count(&self) -> (count: usize)
        ensures
            count == self@.panels.len(),
    {
        self.panels.len()
    }

    /// The panel at `index` in opening order.
    pub fn panel(&self, index: usize) -> (panel: &Panel)
        requires
            index < self@.panels.len(),
        ensures
            panel@ == self@.panels[index as int],
    {
        &self.panels[index]
    }

    /// Takes note of a new terminal size.
    pub fn resize(&mut self, width: u16, height: u16)
        ensures
            final(self)@ == (MultiplexerView { terminal_size: (width, height), ..old(self)@ }),
            old(self).wf() ==> final(self).wf(),
    {
        self.terminal_size = (width, height);
    }
}

} // verus!
