//! The coordinator: the owner of the terminal that routes decoded output
//! into the grid and turns each step of user input into what has to be
//! written to the shell, copied, pasted or redrawn.

use vstd::prelude::*;
use vstd::utf8::encode_utf8;
use crate::event::RoseEvent;
use crate::grid::Terminal;
use crate::input::{
    ctrl_byte, ctrl_key_to_byte, encode_chars, encode_mouse, key_sequence, mouse_report,
    special_key_bytes, utf8_bytes, Key,
};
use crate::parser::{decoded_all, stepped_all, Decoder};
use crate::state::{min_int, TerminalState};

verus! {

/// Milliseconds a special key is held before it starts to repeat.
pub const REPEAT_DELAY: u64 = 500;

/// Milliseconds between two repeats of a held special key.
pub const REPEAT_INTERVAL: u64 = 50;

/// Rows that one notch of the wheel scrolls the view by.
pub const WHEEL_ROWS: usize = 3;

/// Which way the wheel turned in one step of input.
#[derive(Clone, Copy, Debug, PartialEq, Eq, Structural)]
pub enum Wheel {
    Still,
    Up,
    Down,
}

/// What the user did in one step: the modifiers held, the text typed, the
/// keys that went down and the keys that are down, and the mouse.
#[derive(Debug)]
pub struct InputSnapshot {
    pub held_control: bool,
    pub held_shift: bool,
    pub held_alt: bool,
    /// The characters typed, in order.
    pub text: Vec<char>,
    /// The keys that went down in this step.
    pub pressed: Vec<Key>,
    /// The keys that are down.
    pub held: Vec<Key>,
    /// The cell under the pointer as (column, row), if the pointer is over
    /// the window.
    pub mouse: Option<(usize, usize)>,
    pub left_pressed: bool,
    pub left_released: bool,
    pub right_pressed: bool,
    pub right_released: bool,
    pub wheel: Wheel,
}

/// Something for the caller to do after a step of input, in order.
#[derive(Debug, PartialEq, Eq)]
pub enum Action {
    /// Write these bytes to the shell.
    Write(Vec<u8>),
    /// Fetch the clipboard's text and hand it to `Coordinator::paste`.
    Paste,
    /// Put this text on the clipboard.
    Copy(String),
    /// Draw the grid again.
    Redraw,
}

/// An action by its contents.
pub enum Request {
    Write(Seq<u8>),
    Paste,
    Copy(Seq<char>),
    Redraw,
}

impl View for Action {
    type V = Request;

    open spec fn view(&self) -> Request {
        match self {
            Action::Write(bytes) => Request::Write(bytes@),
            Action::Paste => Request::Paste,
            Action::Copy(text) => Request::Copy(text@),
            Action::Redraw => Request::Redraw,
        }
    }
}

/// The actions of a list by their contents.
pub open spec fn requests(actions: Seq<Action>) -> Seq<Request> {
    Seq::new(actions.len(), |i: int| actions[i]@)
}

/// The keys that Control turns into control codes, in the order in which
/// their codes are sent when several went down in one step.
pub open spec fn control_table() -> Seq<Key> {
    seq![
        Key::A,
        Key::B,
        Key::C,
        Key::D,
        Key::E,
        Key::F,
        Key::G,
        Key::H,
        Key::I,
        Key::J,
        Key::K,
        Key::L,
        Key::M,
        Key::N,
        Key::O,
        Key::P,
        Key::Q,
        Key::R,
        Key::S,
        Key::T,
        Key::U,
        Key::V,
        Key::W,
        Key::X,
        Key::Y,
        Key::Z,
        Key::LBracket,
        Key::RBracket,
        Key::Backslash,
    ]
}

/// The special keys, in the order in which they are looked for when
/// several went down in one step.
pub open spec fn special_table() -> Seq<Key> {
    seq![
        Key::Return,
        Key::Escape,
        Key::Back,
        Key::Delete,
        Key::Up,
        Key::Down,
        Key::Left,
        Key::Right,
        Key::PageUp,
        Key::PageDown,
        Key::Home,
        Key::End,
    ]
}

/// The control codes of the keys among the first `upto` of `table` that
/// went down, in table order.
pub open spec fn control_codes(table: Seq<Key>, pressed: Seq<Key>, upto: int) -> Seq<u8>
    decreases upto,
{
    if upto <= 0 {
        Seq::empty()
    } else {
        let key = table[upto - 1];
        control_codes(table, pressed, upto - 1) + (if pressed.contains(key) && ctrl_byte(key) is Some {
            seq![ctrl_byte(key)->0]
        } else {
            Seq::empty()
        })
    }
}

/// The first key of `table`, from position `from` on, that went down.
pub open spec fn first_pressed(table: Seq<Key>, pressed: Seq<Key>, from: int) -> Option<Key>
    decreases table.len() - from,
{
    if from < 0 || from >= table.len() {
        None
    } else if pressed.contains(table[from]) {
        Some(table[from])
    } else {
        first_pressed(table, pressed, from + 1)
    }
}

/// The time `delay` milliseconds after `now`, as far as the clock reaches.
pub open spec fn later(now: int, delay: int) -> int {
    min_int(now + delay, u64::MAX as int)
}

/// The bytes that report a mouse event.
pub open spec fn report_bytes(button: u8, col: int, row: int, release: bool) -> Seq<u8> {
    encode_utf8(mouse_report(button, col, row, release))
}

/// The abstract state of a coordinator.
#[verifier::ext_equal]
pub struct CoordinatorState {
    pub term: TerminalState,
    /// The state machine that decodes the shell's output.
    pub machine: vte::Parser,
    pub is_selecting: bool,
    pub last_key: Option<Key>,
    pub repeat_deadline: int,
}

impl CoordinatorState {
    /// The state after a batch of the shell's output: the terminal has
    /// performed the effects that the bytes complete, and the state machine
    /// is where the bytes take it.
    pub open spec fn fed(self, bytes: Seq<u8>) -> Self {
        CoordinatorState {
            term: self.term.run(decoded_all(self.machine, bytes)),
            machine: stepped_all(self.machine, bytes),
            ..self
        }
    }

    /// The state with a changed terminal.
    pub open spec fn with_term(self, term: TerminalState) -> Self {
        CoordinatorState { term, ..self }
    }

    /// The state after a keystroke went to the shell: the view is back on
    /// the live screen and the selection is gone.
    pub open spec fn forwarded(self) -> Self {
        self.with_term(
            TerminalState {
                scroll_offset: 0,
                selection_start: None,
                selection_end: None,
                ..self.term
            },
        )
    }

    /// Typed text goes to the shell as UTF-8, unless Control or Alt is held.
    pub open spec fn text_phase(self, input: InputSnapshot) -> (Self, Seq<Request>) {
        if !input.held_control && !input.held_alt && input.text@.len() > 0 {
            (self.forwarded(), seq![Request::Write(encode_utf8(input.text@))])
        } else {
            (self, Seq::empty())
        }
    }

    /// With Control held and Shift not, the letters and brackets that went
    /// down go to the shell as control codes.
    pub open spec fn control_phase(self, input: InputSnapshot) -> (Self, Seq<Request>) {
        let codes = control_codes(control_table(), input.pressed@, control_table().len() as int);
        if input.held_control && !input.held_shift && codes.len() > 0 {
            (self.forwarded(), seq![Request::Write(codes)])
        } else {
            (self, Seq::empty())
        }
    }

    /// What one stroke of a special key does. Shift turns the vertical
    /// arrows (unless Control is held too) and the page keys into scrolling
    /// the view, by one row and by ten; otherwise the key's bytes go to the
    /// shell. A key that is not special does nothing.
    pub open spec fn stroke(self, key: Key, shift: bool, ctrl: bool) -> (Self, Seq<Request>) {
        if key == Key::Up && shift && !ctrl {
            (self.with_term(self.term.scroll_up(1)), Seq::empty())
        } else if key == Key::Down && shift && !ctrl {
            (self.with_term(self.term.scroll_down(1)), Seq::empty())
        } else if key == Key::PageUp && shift {
            (self.with_term(self.term.scroll_up(10)), Seq::empty())
        } else if key == Key::PageDown && shift {
            (self.with_term(self.term.scroll_down(10)), Seq::empty())
        } else {
            match key_sequence(key) {
                Some(bytes) => (self.forwarded(), seq![Request::Write(bytes)]),
                None => (self, Seq::empty()),
            }
        }
    }

    /// The special keys and their repeat. The first special key that went
    /// down is struck and arms the repeater; with none, the armed key is
    /// struck again once it has been held to the deadline, and disarmed once
    /// it is no longer held.
    pub open spec fn special_phase(self, input: InputSnapshot, now: u64) -> (Self, Seq<Request>) {
        match first_pressed(special_table(), input.pressed@, 0) {
            Some(key) => {
                let (next, out) = self.stroke(key, input.held_shift, input.held_control);
                (
                    CoordinatorState {
                        last_key: Some(key),
                        repeat_deadline: later(now as int, REPEAT_DELAY as int),
                        ..next
                    },
                    out,
                )
            },
            None => match self.last_key {
                Some(key) => if input.held@.contains(key) {
                    if now >= self.repeat_deadline {
                        let (next, out) = self.stroke(key, input.held_shift, input.held_control);
                        (
                            CoordinatorState {
                                repeat_deadline: later(now as int, REPEAT_INTERVAL as int),
                                ..next
                            },
                            out,
                        )
                    } else {
                        (self, Seq::empty())
                    }
                } else {
                    (CoordinatorState { last_key: None, ..self }, Seq::empty())
                },
                None => (self, Seq::empty()),
            },
        }
    }

    /// Copy and paste: Shift+Insert and Control+Shift+V ask for a paste,
    /// Control+Shift+C copies the selected text, if there is any, and drops
    /// the selection.
    pub open spec fn clipboard_phase(self, input: InputSnapshot) -> (Self, Seq<Request>) {
        let insert = if input.held_shift && input.pressed@.contains(Key::Insert) {
            seq![Request::Paste]
        } else {
            Seq::empty()
        };
        let hotkey = input.held_control && input.held_shift;
        let copies = hotkey && input.pressed@.contains(Key::C) && self.term.selected_text().len() > 0;
        let copy = if copies {
            seq![Request::Copy(self.term.selected_text())]
        } else {
            Seq::empty()
        };
        let paste = if hotkey && input.pressed@.contains(Key::V) {
            seq![Request::Paste]
        } else {
            Seq::empty()
        };
        (
            if copies {
                self.with_term(self.term.clear_selection())
            } else {
                self
            },
            insert + copy + paste,
        )
    }

    /// Whether mouse events go to the shell rather than to the selection.
    pub open spec fn reports_mouse(self, input: InputSnapshot) -> bool {
        self.term.mouse_reporting && !input.held_shift
    }

    /// The mouse events of one step as reports to the shell: left press,
    /// left release, right press, then the wheel.
    pub open spec fn mouse_reports(input: InputSnapshot, col: int, row: int) -> Seq<Request> {
        (if input.left_pressed {
            seq![Request::Write(report_bytes(0, col, row, false))]
        } else {
            Seq::empty()
        }) + (if input.left_released {
            seq![Request::Write(report_bytes(0, col, row, true))]
        } else {
            Seq::empty()
        }) + (if input.right_pressed {
            seq![Request::Write(report_bytes(2, col, row, false))]
        } else {
            Seq::empty()
        }) + (match input.wheel {
            Wheel::Up => seq![Request::Write(report_bytes(64, col, row, false))],
            Wheel::Down => seq![Request::Write(report_bytes(65, col, row, false))],
            Wheel::Still => Seq::empty(),
        })
    }

    /// A left press starts a selection at the pointer.
    pub open spec fn select_press(self, input: InputSnapshot, col: int, row: int) -> (
        Self,
        Seq<Request>,
    ) {
        if input.left_pressed {
            (
                CoordinatorState {
                    is_selecting: true,
                    term: self.term.start_selection(col, row),
                    ..self
                },
                seq![Request::Redraw],
            )
        } else {
            (self, Seq::empty())
        }
    }

    /// While selecting, the selection's head follows the pointer.
    pub open spec fn select_drag(self, col: int, row: int) -> (Self, Seq<Request>) {
        if self.is_selecting {
            (self.with_term(self.term.update_selection(col, row)), seq![Request::Redraw])
        } else {
            (self, Seq::empty())
        }
    }

    /// A left release ends selecting; a selection that never left its first
    /// cell is dropped.
    pub open spec fn select_release(self, input: InputSnapshot) -> (Self, Seq<Request>) {
        if input.left_released {
            if self.term.selection_start == self.term.selection_end {
                (
                    CoordinatorState {
                        is_selecting: false,
                        term: self.term.clear_selection(),
                        ..self
                    },
                    seq![Request::Redraw],
                )
            } else {
                (CoordinatorState { is_selecting: false, ..self }, Seq::empty())
            }
        } else {
            (self, Seq::empty())
        }
    }

    /// A right release copies the selected text, if there is any, and drops
    /// the selection.
    pub open spec fn select_copy(self, input: InputSnapshot) -> (Self, Seq<Request>) {
        if input.right_released && self.term.selected_text().len() > 0 {
            (
                self.with_term(self.term.clear_selection()),
                seq![Request::Copy(self.term.selected_text()), Request::Redraw],
            )
        } else {
            (self, Seq::empty())
        }
    }

    /// The wheel scrolls the view.
    pub open spec fn wheel_scroll(self, input: InputSnapshot) -> (Self, Seq<Request>) {
        match input.wheel {
            Wheel::Up => (
                self.with_term(self.term.scroll_up(WHEEL_ROWS as int)),
                seq![Request::Redraw],
            ),
            Wheel::Down => (
                self.with_term(self.term.scroll_down(WHEEL_ROWS as int)),
                seq![Request::Redraw],
            ),
            Wheel::Still => (self, Seq::empty()),
        }
    }

    /// The mouse when it is not reported to the shell: press, drag,
    /// release, copy and wheel, in this order.
    pub open spec fn select_phase(self, input: InputSnapshot, col: int, row: int) -> (
        Self,
        Seq<Request>,
    ) {
        let (s1, r1) = self.select_press(input, col, row);
        let (s2, r2) = s1.select_drag(col, row);
        let (s3, r3) = s2.select_release(input);
        let (s4, r4) = s3.select_copy(input);
        let (s5, r5) = s4.wheel_scroll(input);
        (s5, r1 + r2 + r3 + r4 + r5)
    }

    /// The mouse. Without a pointer position nothing happens. With mouse
    /// reporting on and Shift not held the events are reported to the
    /// shell; otherwise they drive the selection and the view.
    pub open spec fn mouse_phase(self, input: InputSnapshot) -> (Self, Seq<Request>) {
        match input.mouse {
            Some((col, row)) => if self.reports_mouse(input) {
                (self, Self::mouse_reports(input, col as int, row as int))
            } else {
                self.select_phase(input, col as int, row as int)
            },
            None => (self, Seq::empty()),
        }
    }

    /// One step of input: typed text, control codes, special keys, copy and
    /// paste, and the mouse, in this order.
    pub open spec fn step(self, input: InputSnapshot, now: u64) -> (Self, Seq<Request>) {
        let (s1, r1) = self.text_phase(input);
        let (s2, r2) = s1.control_phase(input);
        let (s3, r3) = s2.special_phase(input, now);
        let (s4, r4) = s3.clipboard_phase(input);
        let (s5, r5) = s4.mouse_phase(input);
        (s5, r1 + r2 + r3 + r4 + r5)
    }
}

/// The owner of a terminal and of the decoder of its byte stream, with the
/// state of selecting and of key repeat.
pub struct Coordinator {
    pub terminal: Terminal,
    pub decoder: Decoder,
    pub is_selecting: bool,
    /// The special key that repeats while it is held.
    pub last_key: Option<Key>,
    /// When the held key repeats next, in milliseconds.
    pub repeat_deadline: u64,
}

impl View for Coordinator {
    type V = CoordinatorState;

    open spec fn view(&self) -> CoordinatorState {
        CoordinatorState {
            term: self.terminal@,
            machine: self.decoder.machine(),
            is_selecting: self.is_selecting,
            last_key: self.last_key,
            repeat_deadline: self.repeat_deadline as int,
        }
    }
}

/// Whether `key` is among `keys`.
pub fn has_key(keys: &Vec<Key>, key: Key) -> (found: bool)
    ensures
        found == keys@.contains(key),
{
    let mut i: usize = 0;
    while i < keys.len()
        invariant
            i <= keys.len(),
            forall|j: int| 0 <= j < i ==> keys@[j] != key,
        decreases keys.len() - i,
    {
        if keys[i] == key {
            return true;
        }
        i += 1;
    }
    false
}

/// The keys that Control turns into control codes, in sending order.
pub fn control_keys() -> (keys: Vec<Key>)
    ensures
        keys@ == control_table(),
{
    let keys = vec![
        Key::A,
        Key::B,
        Key::C,
        Key::D,
        Key::E,
        Key::F,
        Key::G,
        Key::H,
        Key::I,
        Key::J,
        Key::K,
        Key::L,
        Key::M,
        Key::N,
        Key::O,
        Key::P,
        Key::Q,
        Key::R,
        Key::S,
        Key::T,
        Key::U,
        Key::V,
        Key::W,
        Key::X,
        Key::Y,
        Key::Z,
        Key::LBracket,
        Key::RBracket,
        Key::Backslash,
    ];
    assert(keys@ =~= control_table());
    keys
}

/// The special keys, in the order in which they are looked for.
pub fn special_keys() -> (keys: Vec<Key>)
    ensures
        keys@ == special_table(),
{
    let keys = vec![
        Key::Return,
        Key::Escape,
        Key::Back,
        Key::Delete,
        Key::Up,
        Key::Down,
        Key::Left,
        Key::Right,
        Key::PageUp,
        Key::PageDown,
        Key::Home,
        Key::End,
    ];
    assert(keys@ =~= special_table());
    keys
}

/// With mouse reporting on and Shift not held, a left press at a cell, and
/// nothing else in the step, is answered by exactly one write to the shell:
/// the report of button 0 pressed at that cell. Selecting, the view and the
/// key repeat stay as they are.
pub proof fn law_reported_press(c: CoordinatorState, input: InputSnapshot, now: u64, col: usize, row: usize)
    requires
        c.term.mouse_reporting,
        c.last_key is None,
        !input.held_shift,
        input.text@.len() == 0,
        input.pressed@.len() == 0,
        input.mouse == Some((col, row)),
        input.left_pressed,
        !input.left_released,
        !input.right_pressed,
        input.wheel == Wheel::Still,
    ensures
        c.step(input, now) == (c, seq![Request::Write(report_bytes(0, col as int, row as int, false))]),
{
    assert(first_pressed(special_table(), input.pressed@, 0) is None) by {
        reveal_with_fuel(first_pressed, 13);
    }
    assert(control_codes(control_table(), input.pressed@, control_table().len() as int).len() == 0) by {
        reveal_with_fuel(control_codes, 30);
    }
    assert(c.step(input, now).1 =~= seq![
        Request::Write(report_bytes(0, col as int, row as int, false)),
    ]);
}

/// The contents of two lists of actions, one after the other.
pub proof fn lemma_requests_concat(first: Seq<Action>, second: Seq<Action>)
    ensures
        requests(first + second) == requests(first) + requests(second),
{
    assert(requests(first + second) =~= requests(first) + requests(second));
}

impl Coordinator {
    /// Whether the coordinator's terminal is well-formed and its decoder
    /// has handed out everything it recorded.
    pub open spec fn wf(&self) -> bool {
        self.terminal.wf() && self.decoder.drained()
    }

    /// Whether the coordinator is well-formed, found by looking at it.
    pub fn is_well_formed(&self) -> (ok: bool)
        ensures
            ok == self.wf(),
    {
        self.terminal.is_well_formed() && self.decoder.is_drained()
    }

    /// A coordinator for a fresh terminal of `cols` by `rows` cells.
    pub fn new(cols: usize, rows: usize) -> (c: Self)
        requires
            cols >= 1,
            rows >= 1,
        ensures
            c.wf(),
            c@ == (CoordinatorState {
                term: TerminalState::initial(cols as int, rows as int, "RoseTerm"@),
                machine: c@.machine,
                is_selecting: false,
                last_key: None,
                repeat_deadline: 0,
            }),
    {
        Coordinator {
            terminal: Terminal::new(cols, rows),
            decoder: Decoder::new(),
            is_selecting: false,
            last_key: None,
            repeat_deadline: 0,
        }
    }

    /// Decodes a batch of the shell's output into the terminal.
    pub fn on_pty_data(&mut self, data: &[u8])
        requires
            old(self).wf(),
        ensures
            final(self).wf(),
            final(self)@ == old(self)@.fed(data@),
    {
        self.terminal.feed(&mut self.decoder, data);
    }

    /// Resizes the terminal if the new size has at least one column and one
    /// row, and says whether it did.
    pub fn resize(&mut self, cols: usize, rows: usize) -> (resized: bool)
        requires
            old(self).wf(),
        ensures
            final(self).wf(),
            resized == (cols >= 1 && rows >= 1),
            resized ==> final(self)@ == old(self)@.with_term(
                old(self)@.term.resize(cols as int, rows as int),
            ),
            !resized ==> final(self)@ == old(self)@,
    {
        if cols >= 1 && rows >= 1 {
            self.terminal.resize(cols, rows);
            true
        } else {
            false
        }
    }

    /// Whether a special key is armed to repeat, so that the caller has to
    /// keep polling instead of waiting for the next event.
    pub fn is_repeating(&self) -> (armed: bool)
        ensures
            armed == self@.last_key is Some,
    {
        self.last_key.is_some()
    }

    /// Whether the grid has to be drawn again after a step of input: while
    /// the view is scrolled back, while Shift is held, and while selecting.
    pub fn wants_redraw(&self, held_shift: bool) -> (redraw: bool)
        ensures
            redraw == (self@.term.scroll_offset > 0 || held_shift || self@.is_selecting),
    {
        self.terminal.scroll_offset > 0 || held_shift || self.is_selecting
    }

    /// Notes that a keystroke goes to the shell: the view returns to the
    /// live screen and the selection is dropped.
    fn forward(&mut self)
        requires
            old(self).wf(),
        ensures
            final(self).wf(),
            final(self)@ == old(self)@.forwarded(),
    {
        self.terminal.scroll_offset = 0;
        self.terminal.clear_selection();
    }

    /// The bytes to write to the shell for pasted text: the text as it is,
    /// never interpreted. A paste counts as a keystroke that goes to the
    /// shell.
    pub fn paste(&mut self, text: &String) -> (bytes: Vec<u8>)
        requires
            old(self).wf(),
        ensures
            final(self).wf(),
            final(self)@ == old(self)@.forwarded(),
            bytes@ == encode_utf8(text@),
    {
        self.forward();
        utf8_bytes(text)
    }

    /// Takes one event from the reader of the pseudo-terminal: output is
    /// decoded into the terminal, the end of the stream ends the session.
    /// Says whether the session goes on.
    pub fn on_event(&mut self, event: &RoseEvent) -> (running: bool)
        requires
            old(self).wf(),
        ensures
            final(self).wf(),
            running == (*event is PtyOutput),
            final(self)@ == (match *event {
                RoseEvent::PtyOutput(data) => old(self)@.fed(data@),
                RoseEvent::Exit => old(self)@,
            }),
    {
        match event {
            RoseEvent::PtyOutput(data) => {
                self.on_pty_data(data.as_slice());
                true
            },
            RoseEvent::Exit => false,
        }
    }

    /// Typed text.
    fn text_phase(&mut self, input: &InputSnapshot) -> (out: Vec<Action>)
        requires
            old(self).wf(),
        ensures
            final(self).wf(),
            (final(self)@, requests(out@)) == old(self)@.text_phase(*input),
    {
        let mut out: Vec<Action> = Vec::new();
        if !input.held_control && !input.held_alt && input.text.len() > 0 {
            self.forward();
            out.push(Action::Write(encode_chars(&input.text)));
        }
        assert(requests(out@) =~= old(self)@.text_phase(*input).1);
        out
    }

    /// The control codes of the keys of `input` that went down.
    fn pressed_codes(input: &InputSnapshot) -> (codes: Vec<u8>)
        ensures
            codes@ == control_codes(control_table(), input.pressed@, control_table().len() as int),
    {
        let keys = control_keys();
        let mut codes: Vec<u8> = Vec::new();
        let mut i: usize = 0;
        while i < keys.len()
            invariant
                i <= keys.len(),
                keys@ == control_table(),
                codes@ == control_codes(control_table(), input.pressed@, i as int),
            decreases keys.len() - i,
        {
            let key = keys[i];
            if has_key(&input.pressed, key) {
                match ctrl_key_to_byte(key) {
                    Some(byte) => {
                        codes.push(byte);
                    },
                    None => {},
                }
            }
            i += 1;
            assert(codes@ =~= control_codes(control_table(), input.pressed@, i as int));
        }
        codes
    }

    /// Control codes.
    fn control_phase(&mut self, input: &InputSnapshot) -> (out: Vec<Action>)
        requires
            old(self).wf(),
        ensures
            final(self).wf(),
            (final(self)@, requests(out@)) == old(self)@.control_phase(*input),
    {
        let mut out: Vec<Action> = Vec::new();
        if input.held_control && !input.held_shift {
            let codes = Self::pressed_codes(input);
            if codes.len() > 0 {
                self.forward();
                out.push(Action::Write(codes));
            }
        }
        assert(requests(out@) =~= old(self)@.control_phase(*input).1);
        out
    }

    /// What one stroke of a special key does; says whether the key is
    /// special.
    pub fn process_special_key(&mut self, key: Key, held_shift: bool, held_ctrl: bool) -> (result: (
        bool,
        Vec<Action>,
    ))
        requires
            old(self).wf(),
        ensures
            final(self).wf(),
            (final(self)@, requests(result.1@)) == old(self)@.stroke(key, held_shift, held_ctrl),
            result.0 == key_sequence(key) is Some,
    {
        let mut out: Vec<Action> = Vec::new();
        let mut special: bool = true;
        if key == Key::Up && held_shift && !held_ctrl {
            self.terminal.scroll_up(1);
        } else if key == Key::Down && held_shift && !held_ctrl {
            self.terminal.scroll_down(1);
        } else if key == Key::PageUp && held_shift {
            self.terminal.scroll_up(10);
        } else if key == Key::PageDown && held_shift {
            self.terminal.scroll_down(10);
        } else {
            match special_key_bytes(key) {
                Some(bytes) => {
                    self.forward();
                    out.push(Action::Write(bytes));
                },
                None => {
                    special = false;
                },
            }
        }
        assert(requests(out@) =~= old(self)@.stroke(key, held_shift, held_ctrl).1);
        (special, out)
    }

    /// The first special key that went down.
    fn first_special(input: &InputSnapshot) -> (key: Option<Key>)
        ensures
            key == first_pressed(special_table(), input.pressed@, 0),
    {
        let keys = special_keys();
        let mut i: usize = 0;
        while i < keys.len()
            invariant
                i <= keys.len(),
                keys@ == special_table(),
                first_pressed(special_table(), input.pressed@, 0) == first_pressed(
                    special_table(),
                    input.pressed@,
                    i as int,
                ),
            decreases keys.len() - i,
        {
            if has_key(&input.pressed, keys[i]) {
                return Some(keys[i]);
            }
            i += 1;
        }
        None
    }

    /// Special keys and their repeat.
    fn special_phase(&mut self, input: &InputSnapshot, now: u64) -> (out: Vec<Action>)
        requires
            old(self).wf(),
        ensures
            final(self).wf(),
            (final(self)@, requests(out@)) == old(self)@.special_phase(*input, now),
    {
        match Self::first_special(input) {
            Some(key) => {
                let (special, out) = self.process_special_key(key, input.held_shift, input.held_control);
                self.last_key = Some(key);
                self.repeat_deadline = now.saturating_add(REPEAT_DELAY);
                out
            },
            None => {
                match self.last_key {
                    Some(key) => {
                        if has_key(&input.held, key) {
                            if now >= self.repeat_deadline {
                                let (special, out) = self.process_special_key(
                                    key,
                                    input.held_shift,
                                    input.held_control,
                                );
                                self.repeat_deadline = now.saturating_add(REPEAT_INTERVAL);
                                out
                            } else {
                                let out: Vec<Action> = Vec::new();
                                assert(requests(out@) =~= Seq::<Request>::empty());
                                out
                            }
                        } else {
                            self.last_key = None;
                            let out: Vec<Action> = Vec::new();
                            assert(requests(out@) =~= Seq::<Request>::empty());
                            out
                        }
                    },
                    None => {
                        let out: Vec<Action> = Vec::new();
                        assert(requests(out@) =~= Seq::<Request>::empty());
                        out
                    },
                }
            },
        }
    }

    /// Copy and paste.
    fn clipboard_phase(&mut self, input: &InputSnapshot) -> (out: Vec<Action>)
        requires
            old(self).wf(),
        ensures
            final(self).wf(),
            (final(self)@, requests(out@)) == old(self)@.clipboard_phase(*input),
    {
        let mut out: Vec<Action> = Vec::new();
        if input.held_shift && has_key(&input.pressed, Key::Insert) {
            out.push(Action::Paste);
        }
        if input.held_control && input.held_shift {
            if has_key(&input.pressed, Key::C) {
                let text = self.terminal.get_selected_text();
                if text.as_str().unicode_len() > 0 {
                    out.push(Action::Copy(text));
                    self.terminal.clear_selection();
                }
            }
            if has_key(&input.pressed, Key::V) {
                out.push(Action::Paste);
            }
        }
        assert(requests(out@) =~= old(self)@.clipboard_phase(*input).1);
        out
    }

    /// The mouse events of one step as reports to the shell.
    fn mouse_reports(input: &InputSnapshot, col: usize, row: usize) -> (out: Vec<Action>)
        ensures
            requests(out@) == CoordinatorState::mouse_reports(*input, col as int, row as int),
    {
        let mut out: Vec<Action> = Vec::new();
        if input.left_pressed {
            out.push(Action::Write(utf8_bytes(&encode_mouse(0, col, row, false))));
        }
        if input.left_released {
            out.push(Action::Write(utf8_bytes(&encode_mouse(0, col, row, true))));
        }
        if input.right_pressed {
            out.push(Action::Write(utf8_bytes(&encode_mouse(2, col, row, false))));
        }
        match input.wheel {
            Wheel::Up => {
                out.push(Action::Write(utf8_bytes(&encode_mouse(64, col, row, false))));
            },
            Wheel::Down => {
                out.push(Action::Write(utf8_bytes(&encode_mouse(65, col, row, false))));
            },
            Wheel::Still => {},
        }
        assert(requests(out@) =~= CoordinatorState::mouse_reports(*input, col as int, row as int));
        out
    }

    /// A left press starts a selection at the pointer.
    fn select_press(&mut self, input: &InputSnapshot, col: usize, row: usize) -> (out: Vec<Action>)
        requires
            old(self).wf(),
        ensures
            final(self).wf(),
            (final(self)@, requests(out@)) == old(self)@.select_press(*input, col as int, row as int),
    {
        let mut out: Vec<Action> = Vec::new();
        if input.left_pressed {
            self.is_selecting = true;
            self.terminal.start_selection(col, row);
            out.push(Action::Redraw);
        }
        assert(requests(out@) =~= old(self)@.select_press(*input, col as int, row as int).1);
        out
    }

    /// While selecting, the selection's head follows the pointer.
    fn select_drag(&mut self, col: usize, row: usize) -> (out: Vec<Action>)
        requires
            old(self).wf(),
        ensures
            final(self).wf(),
            (final(self)@, requests(out@)) == old(self)@.select_drag(col as int, row as int),
    {
        let mut out: Vec<Action> = Vec::new();
        if self.is_selecting {
            self.terminal.update_selection(col, row);
            out.push(Action::Redraw);
        }
        assert(requests(out@) =~= old(self)@.select_drag(col as int, row as int).1);
        out
    }

    /// A left release ends selecting.
    fn select_release(&mut self, input: &InputSnapshot) -> (out: Vec<Action>)
        requires
            old(self).wf(),
        ensures
            final(self).wf(),
            (final(self)@, requests(out@)) == old(self)@.select_release(*input),
    {
        let mut out: Vec<Action> = Vec::new();
        if input.left_released {
            self.is_selecting = false;
            if same_point(self.terminal.selection_start, self.terminal.selection_end) {
                self.terminal.clear_selection();
                out.push(Action::Redraw);
            }
        }
        assert(requests(out@) =~= old(self)@.select_release(*input).1);
        out
    }

    /// A right release copies the selected text.
    fn select_copy(&mut self, input: &InputSnapshot) -> (out: Vec<Action>)
        requires
            old(self).wf(),
        ensures
            final(self).wf(),
            (final(self)@, requests(out@)) == old(self)@.select_copy(*input),
    {
        let mut out: Vec<Action> = Vec::new();
        if input.right_released {
            let text = self.terminal.get_selected_text();
            if text.as_str().unicode_len() > 0 {
                out.push(Action::Copy(text));
                self.terminal.clear_selection();
                out.push(Action::Redraw);
            }
        }
        assert(requests(out@) =~= old(self)@.select_copy(*input).1);
        out
    }

    /// The wheel scrolls the view.
    fn wheel_scroll(&mut self, input: &InputSnapshot) -> (out: Vec<Action>)
        requires
            old(self).wf(),
        ensures
            final(self).wf(),
            (final(self)@, requests(out@)) == old(self)@.wheel_scroll(*input),
    {
        let mut out: Vec<Action> = Vec::new();
        match input.wheel {
            Wheel::Up => {
                self.terminal.scroll_up(WHEEL_ROWS);
                out.push(Action::Redraw);
            },
            Wheel::Down => {
                self.terminal.scroll_down(WHEEL_ROWS);
                out.push(Action::Redraw);
            },
            Wheel::Still => {},
        }
        assert(requests(out@) =~= old(self)@.wheel_scroll(*input).1);
        out
    }

    /// The mouse when it drives the selection and the view.
    fn select_phase(&mut self, input: &InputSnapshot, col: usize, row: usize) -> (out: Vec<Action>)
        requires
            old(self).wf(),
        ensures
            final(self).wf(),
            (final(self)@, requests(out@)) == old(self)@.select_phase(*input, col as int, row as int),
    {
        let mut out = self.select_press(input, col, row);
        let mut part = self.select_drag(col, row);
        proof {
            lemma_requests_concat(out@, part@);
        }
        out.append(&mut part);
        let mut part = self.select_release(input);
        proof {
            lemma_requests_concat(out@, part@);
        }
        out.append(&mut part);
        let mut part = self.select_copy(input);
        proof {
            lemma_requests_concat(out@, part@);
        }
        out.append(&mut part);
        let mut part = self.wheel_scroll(input);
        proof {
            lemma_requests_concat(out@, part@);
        }
        out.append(&mut part);
        out
    }

    /// The mouse.
    fn mouse_phase(&mut self, input: &InputSnapshot) -> (out: Vec<Action>)
        requires
            old(self).wf(),
        ensures
            final(self).wf(),
            (final(self)@, requests(out@)) == old(self)@.mouse_phase(*input),
    {
        match input.mouse {
            Some((col, row)) => {
                if self.terminal.mouse_reporting && !input.held_shift {
                    Self::mouse_reports(input, col, row)
                } else {
                    self.select_phase(input, col, row)
                }
            },
            None => {
                let out: Vec<Action> = Vec::new();
                assert(requests(out@) =~= Seq::<Request>::empty());
                out
            },
        }
    }

    /// One step of user input at time `now`, in milliseconds of a clock
    /// that never runs backwards. Changes the view, the selection and the
    /// key repeat as the input asks and returns what the caller has to do,
    /// in order: bytes to write to the shell, text to copy, a paste to
    /// fetch, the grid to redraw.
    pub fn handle_input(&mut self, input: &InputSnapshot, now: u64) -> (out: Vec<Action>)
        requires
            old(self).wf(),
        ensures
            final(self).wf(),
            (final(self)@, requests(out@)) == old(self)@.step(*input, now),
    {
        let mut out = self.text_phase(input);
        let mut part = self.control_phase(input);
        proof {
            lemma_requests_concat(out@, part@);
        }
        out.append(&mut part);
        let mut part = self.special_phase(input, now);
        proof {
            lemma_requests_concat(out@, part@);
        }
        out.append(&mut part);
        let mut part = self.clipboard_phase(input);
        proof {
            lemma_requests_concat(out@, part@);
        }
        out.append(&mut part);
        let mut part = self.mouse_phase(input);
        proof {
            lemma_requests_concat(out@, part@);
        }
        out.append(&mut part);
        out
    }
}

/// Whether two optional points are the same.
pub fn same_point(a: Option<(usize, usize)>, b: Option<(usize, usize)>) -> (same: bool)
    ensures
        same == (a == b),
{
    match (a, b) {
        (Some(p), Some(q)) => p.0 == q.0 && p.1 == q.1,
        (None, None) => true,
        _ => false,
    }
}

} // verus!
