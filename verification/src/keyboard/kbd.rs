//! Keyboard state and text input tracking.

use vstd::prelude::*;

use std::collections::VecDeque;

use crate::keyboard::adapter::KeyEvent;
use crate::keyboard::bits::{bits_get, bits_set, bits_zero, key_bits, KeyBits, KEY_BITS};
use crate::keyboard::codes::KeyCode;
use crate::keyboard::text::{
    char_is_control, char_is_whitespace, decode_pair, decode_unit, is_discarded, pair_text,
    unit_char, BACKSPACE,
};

verus! {

/// Length of the input queue at which the earliest characters are dropped.
pub const INPUT_QUEUE_CAPACITY: usize = 32;

/// The input queue and backspace count after one decoded character.
///
/// A backspace deletes the newest queued character, or, if none is queued,
/// counts towards the deletions owed to text that was drained earlier. The
/// count stops at `usize::MAX`.
pub open spec fn feed_char(queue: Seq<char>, backspaces: nat, c: char) -> (Seq<char>, nat) {
    if c == BACKSPACE {
        if queue.len() > 0 {
            (queue.drop_last(), backspaces)
        } else if backspaces < usize::MAX {
            (queue, backspaces + 1)
        } else {
            (queue, backspaces)
        }
    } else if is_discarded(c) {
        (queue, backspaces)
    } else {
        (queue.push(c), backspaces)
    }
}

/// The input queue and backspace count after a run of decoded characters.
pub open spec fn feed_chars(queue: Seq<char>, backspaces: nat, chars: Seq<char>) -> (
    Seq<char>,
    nat,
)
    decreases chars.len(),
{
    if chars.len() == 0 {
        (queue, backspaces)
    } else {
        let (q, n) = feed_char(queue, backspaces, chars[0]);
        feed_chars(q, n, chars.drop_first())
    }
}

/// The newest characters of `queue` that fit below the capacity.
pub open spec fn trimmed(queue: Seq<char>) -> Seq<char> {
    if queue.len() >= INPUT_QUEUE_CAPACITY {
        queue.subrange(queue.len() - (INPUT_QUEUE_CAPACITY - 1), queue.len() as int)
    } else {
        queue
    }
}

/// What a keyboard tracker holds, as plain mathematical values.
pub struct KeyboardState {
    /// One flag per virtual-key code: whether that key is down.
    pub pressed: Seq<bool>,
    /// Decoded text that has not been drained yet, oldest first.
    pub queue: Seq<char>,
    /// Backspaces that arrived while the queue was empty.
    pub backspaces: nat,
    /// A surrogate that waits for the code unit after it.
    pub pending_surrogate: Option<u16>,
}

impl KeyboardState {
    /// The state of a fresh tracker.
    pub open spec fn initial() -> KeyboardState {
        KeyboardState {
            pressed: Seq::new(KEY_BITS as nat, |i: int| false),
            queue: Seq::empty(),
            backspaces: 0,
            pending_surrogate: None,
        }
    }

    /// The invariant of a tracker: every virtual-key code has its flag, the
    /// queue stays below its capacity, and the backspace count fits a
    /// `usize`.
    pub open spec fn wf(self) -> bool {
        &&& self.pressed.len() == KEY_BITS
        &&& self.queue.len() < INPUT_QUEUE_CAPACITY
        &&& self.backspaces <= usize::MAX
    }

    /// Whether `key` is recorded as down.
    pub open spec fn is_pressed(self, key: KeyCode) -> bool {
        self.pressed[key.code() as int]
    }

    /// The state after a run of decoded characters has been queued and the
    /// queue trimmed.
    pub open spec fn with_text(self, chars: Seq<char>) -> KeyboardState {
        let (queue, backspaces) = feed_chars(self.queue, self.backspaces, chars);
        KeyboardState { queue: trimmed(queue), backspaces, ..self }
    }

    /// The state after one UTF-16 code unit of text input.
    ///
    /// A unit that follows a pending surrogate is decoded together with it. A
    /// surrogate that arrives with nothing pending is held back until the
    /// next unit; any other unit is queued as the character it encodes.
    pub open spec fn with_input(self, wchar: u16) -> KeyboardState {
        match self.pending_surrogate {
            Some(first) => KeyboardState { pending_surrogate: None, ..self }.with_text(
                pair_text(first, wchar),
            ),
            None => match unit_char(wchar) {
                Some(c) => self.with_text(seq![c]),
                None => KeyboardState { pending_surrogate: Some(wchar), ..self },
            },
        }
    }

    /// The state after `evt`.
    pub open spec fn apply(self, evt: KeyEvent) -> KeyboardState {
        match evt {
            KeyEvent::KeyDown { key_code, flags } => if flags.was_previous_state_down {
                self
            } else {
                KeyboardState { pressed: self.pressed.update(key_code.code() as int, true), ..self }
            },
            KeyEvent::KeyUp { key_code, .. } => KeyboardState {
                pressed: self.pressed.update(key_code.code() as int, false),
                ..self
            },
            KeyEvent::Input { wchar, .. } => self.with_input(wchar),
        }
    }

    /// The state that draining leaves behind: the queue and the backspace
    /// count are handed out, keys and a pending surrogate stay.
    pub open spec fn drained(self) -> KeyboardState {
        KeyboardState { queue: Seq::empty(), backspaces: 0, ..self }
    }

    /// The state after a reset: that of a fresh tracker. No key is down,
    /// nothing is queued, no backspace is counted and nothing is pending.
    pub open spec fn cleared(self) -> KeyboardState {
        Self::initial()
    }
}

/// The text and the backspace count handed out by [`Keyboard::drain_input`].
pub struct InputBuffer {
    chars: Vec<char>,
    n_backspaces: usize,
}

impl InputBuffer {
    /// The drained characters, oldest first.
    pub closed spec fn text(&self) -> Seq<char> {
        self.chars@
    }

    /// The drained backspace count.
    pub closed spec fn backspaces(&self) -> nat {
        self.n_backspaces as nat
    }

    /// The number of backspaces which preceded any text in the buffer and
    /// should be applied to any previously drained input.
    pub fn num_backspaces(&self) -> (n: usize)
        ensures
            n == self.backspaces(),
    {
        self.n_backspaces
    }

    /// The drained input. Any backspace events which happened within the
    /// buffer have already been applied to its contents.
    pub fn chars(&self) -> (chars: &Vec<char>)
        ensures
            chars@ == self.text(),
    {
        &self.chars
    }
}

/// A simple abstraction over keyboard input to help track pressed keys and a
/// queue of text input.
pub struct Keyboard {
    /// Bitfield which tracks the press state for the keyboard keys.
    pressed: KeyBits,
    /// A queue of printable input text which has been fully processed into
    /// valid unicode.
    input_queue: VecDeque<char>,
    /// The number of pending backspace events which should be applied to any
    /// previously retrieved text.
    n_backspaces: usize,
    /// A surrogate that arrived with nothing pending. Once the following code
    /// unit arrives, the two are decoded together and appended to
    /// `input_queue`.
    pending_surrogate: Option<u16>,
}

impl View for Keyboard {
    type V = KeyboardState;

    closed spec fn view(&self) -> KeyboardState {
        KeyboardState {
            pressed: key_bits(self.pressed),
            queue: self.input_queue@,
            backspaces: self.n_backspaces as nat,
            pending_surrogate: self.pending_surrogate,
        }
    }
}

impl Keyboard {
    /// The tracker's invariant.
    pub open spec fn wf(&self) -> bool {
        self@.wf()
    }

    /// A tracker with no key down and no input.
    pub fn new() -> (kbd: Keyboard)
        ensures
            kbd.wf(),
            kbd@ == KeyboardState::initial(),
    {
        Keyboard {
            pressed: bits_zero(),
            input_queue: VecDeque::with_capacity(INPUT_QUEUE_CAPACITY),
            n_backspaces: 0,
            pending_surrogate: None,
        }
    }

    /// Processes one keyboard event and updates the tracked state. The event
    /// is reflected in the next call to [`Keyboard::is_key_pressed`] or
    /// [`Keyboard::drain_input`].
    pub fn process_evt(&mut self, evt: KeyEvent)
        requires
            old(self).wf(),
        ensures
            final(self).wf(),
            final(self)@ == old(self)@.apply(evt),
    {
        match evt {
            KeyEvent::KeyDown { key_code, flags } => {
                if !flags.was_previous_state_down {
                    bits_set(&mut self.pressed, key_code.value() as usize, true);
                }
            },
            KeyEvent::KeyUp { key_code, .. } => {
                bits_set(&mut self.pressed, key_code.value() as usize, false);
            },
            KeyEvent::Input { wchar, .. } => {
                match self.pending_surrogate.take() {
                    Some(first) => {
                        let text = decode_pair(first, wchar);
                        self.process_char_input(&text);
                    },
                    None => match decode_unit(wchar) {
                        Err(unpaired) => {
                            self.pending_surrogate = Some(unpaired);
                        },
                        Ok(c) => {
                            let mut text: Vec<char> = Vec::new();
                            text.push(c);
                            assert(text@ =~= seq![c]);
                            self.process_char_input(&text);
                        },
                    },
                }
            },
        }
    }

    /// Tells whether `key` is currently down.
    pub fn is_key_pressed(&self, key: KeyCode) -> (pressed: bool)
        requires
            self.wf(),
        ensures
            pressed == self@.is_pressed(key),
    {
        bits_get(&self.pressed, key.value() as usize)
    }

    /// Drains all accumulated characters in the input queue and clears any
    /// pending backspace events.
    pub fn drain_input(&mut self) -> (buffer: InputBuffer)
        requires
            old(self).wf(),
        ensures
            final(self).wf(),
            final(self)@ == old(self)@.drained(),
            buffer.text() == old(self)@.queue,
            buffer.backspaces() == old(self)@.backspaces,
    {
        let n_backspaces = self.n_backspaces;
        self.n_backspaces = 0;
        let mut chars: Vec<char> = Vec::new();
        while self.input_queue.len() > 0
            invariant
                chars@ + self.input_queue@ == old(self).input_queue@,
                self.pressed == old(self).pressed,
                self.pending_surrogate == old(self).pending_surrogate,
                self.n_backspaces == 0,
            decreases self.input_queue.len(),
        {
            let ghost before = self.input_queue@;
            match self.input_queue.pop_front() {
                Some(c) => {
                    chars.push(c);
                    assert(chars@ + self.input_queue@ =~= old(self).input_queue@) by {
                        assert(before =~= seq![c] + self.input_queue@);
                    }
                },
                None => {},
            }
        }
        assert(chars@ =~= old(self).input_queue@);
        assert(self.input_queue@ =~= Seq::<char>::empty());
        InputBuffer { chars, n_backspaces }
    }

    /// Resets all keyboard state: the keys, the input queue, the backspace
    /// count and a pending surrogate.
    pub fn reset(&mut self)
        requires
            old(self).wf(),
        ensures
            final(self).wf(),
            final(self)@ == old(self)@.cleared(),
    {
        self.input_queue.clear();
        self.n_backspaces = 0;
        self.pending_surrogate = None;
        self.pressed = bits_zero();
    }

    /// Handles character input and appends to or modifies the input queue.
    /// The characters may include control characters such as backspace;
    /// deletions are accounted for. Afterwards the queue is trimmed so that it
    /// cannot grow without bound.
    fn process_char_input(&mut self, chars: &Vec<char>)
        requires
            old(self)@.pressed.len() == KEY_BITS,
        ensures
            final(self)@ == old(self)@.with_text(chars@),
            final(self)@.wf(),
    {
        let mut i: usize = 0;
        assert(chars@.subrange(0, chars.len() as int) =~= chars@);
        while i < chars.len()
            invariant
                i <= chars.len(),
                self.pressed == old(self).pressed,
                self.pending_surrogate == old(self).pending_surrogate,
                feed_chars(
                    self.input_queue@,
                    self.n_backspaces as nat,
                    chars@.subrange(i as int, chars.len() as int),
                ) == feed_chars(old(self).input_queue@, old(self).n_backspaces as nat, chars@),
            decreases chars.len() - i,
        {
            let c = chars[i];
            let ghost rest = chars@.subrange(i as int, chars.len() as int);
            assert(rest[0] == c);
            assert(rest.drop_first() =~= chars@.subrange(i + 1, chars.len() as int));
            if c == BACKSPACE {
                let ghost before = self.input_queue@;
                if self.input_queue.pop_back().is_none() {
                    if self.n_backspaces < usize::MAX {
                        self.n_backspaces += 1;
                    }
                } else {
                    assert(self.input_queue@ =~= before.drop_last());
                }
            } else if char_is_control(c) && !char_is_whitespace(c) {
            } else {
                self.input_queue.push_back(c);
            }
            i += 1;
        }
        assert(chars@.subrange(chars.len() as int, chars.len() as int) =~= Seq::<char>::empty());
        let ghost fed = self.input_queue@;
        assert(fed.subrange(0, fed.len() as int) =~= fed);
        // Trim the queue to avoid growing continuously.
        while self.input_queue.len() >= INPUT_QUEUE_CAPACITY
            invariant
                self.pressed == old(self).pressed,
                self.pending_surrogate == old(self).pending_surrogate,
                self.n_backspaces as nat == feed_chars(
                    old(self).input_queue@,
                    old(self).n_backspaces as nat,
                    chars@,
                ).1,
                self.input_queue@.len() <= fed.len(),
                self.input_queue@ == fed.subrange(
                    fed.len() - self.input_queue@.len(),
                    fed.len() as int,
                ),
                fed.len() >= INPUT_QUEUE_CAPACITY ==> self.input_queue@.len()
                    >= INPUT_QUEUE_CAPACITY - 1,
                fed.len() < INPUT_QUEUE_CAPACITY ==> self.input_queue@ == fed,
                fed == feed_chars(
                    old(self).input_queue@,
                    old(self).n_backspaces as nat,
                    chars@,
                ).0,
            decreases self.input_queue.len(),
        {
            let ghost before = self.input_queue@;
            let _ = self.input_queue.pop_front();
            assert(self.input_queue@ =~= fed.subrange(
                fed.len() - self.input_queue@.len(),
                fed.len() as int,
            ));
        }
        assert(self.input_queue@ =~= trimmed(fed));
    }
}

} // verus!
