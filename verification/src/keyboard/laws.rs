//! What holds of the keyboard tracker for every input.

use vstd::prelude::*;

use crate::keyboard::adapter::KeyEvent;
use crate::keyboard::codes::KeyCode;
use crate::keyboard::flags::KeystrokeFlags;
use crate::keyboard::kbd::{feed_char, feed_chars, trimmed, KeyboardState, INPUT_QUEUE_CAPACITY};
use crate::keyboard::text::{
    is_discarded, is_high_surrogate, is_low_surrogate, pair_scalar, pair_text, unit_char,
    BACKSPACE,
};
use crate::strings::{utf16, utf16_units};

verus! {

/// Whether `unit` is queued as a character of its own: no surrogate, no
/// backspace, and no control character that the queue discards.
pub open spec fn is_plain(unit: u16) -> bool {
    &&& unit_char(unit) is Some
    &&& unit_char(unit).unwrap() != BACKSPACE
    &&& !is_discarded(unit_char(unit).unwrap())
}

/// The state after a run of text-input code units, fed one at a time.
pub open spec fn fed(state: KeyboardState, units: Seq<u16>) -> KeyboardState
    decreases units.len(),
{
    if units.len() == 0 {
        state
    } else {
        fed(state, units.drop_last()).with_input(units.last())
    }
}

/// Every event keeps the tracker well formed: in particular the queue never
/// reaches its capacity.
pub proof fn lemma_apply_keeps_wf(state: KeyboardState, evt: KeyEvent)
    requires
        state.wf(),
    ensures
        state.apply(evt).wf(),
        state.apply(evt).queue.len() <= INPUT_QUEUE_CAPACITY - 1,
{
    match evt {
        KeyEvent::Input { wchar, .. } => {
            match state.pending_surrogate {
                Some(first) => {
                    lemma_feed_chars_bounds(state.queue, state.backspaces, pair_text(first, wchar));
                },
                None => {
                    match unit_char(wchar) {
                        Some(c) => {
                            lemma_feed_chars_bounds(state.queue, state.backspaces, seq![c]);
                        },
                        None => {},
                    }
                },
            }
        },
        _ => {},
    }
}

/// Feeding characters never lets the backspace count pass `usize::MAX`.
pub proof fn lemma_feed_chars_bounds(queue: Seq<char>, backspaces: nat, chars: Seq<char>)
    requires
        backspaces <= usize::MAX,
    ensures
        feed_chars(queue, backspaces, chars).1 <= usize::MAX,
        feed_chars(queue, backspaces, chars).1 >= backspaces,
        feed_chars(queue, backspaces, chars).0.len() <= queue.len() + chars.len(),
    decreases chars.len(),
{
    if chars.len() > 0 {
        let (q, n) = feed_char(queue, backspaces, chars[0]);
        lemma_feed_chars_bounds(q, n, chars.drop_first());
    }
}

/// Key presses are tracked per key.
///
/// A key-down event that is no repeat marks its key as pressed, a key-down
/// event of a key that was down already changes nothing, and a key-up event
/// marks its key as released. No key event touches another key, the input
/// queue or the backspace count.
pub proof fn lemma_key_tracking(state: KeyboardState, key: KeyCode, flags: KeystrokeFlags)
    requires
        state.wf(),
    ensures
        ({
            let down = state.apply(KeyEvent::KeyDown { key_code: key, flags });
            let up = state.apply(KeyEvent::KeyUp { key_code: key, flags });
            &&& !flags.was_previous_state_down ==> down.is_pressed(key)
            &&& flags.was_previous_state_down ==> down == state
            &&& !up.is_pressed(key)
            &&& forall|other: KeyCode|
                other != key ==> down.is_pressed(other) == state.is_pressed(other)
                    && up.is_pressed(other) == state.is_pressed(other)
            &&& down.queue == state.queue && up.queue == state.queue
            &&& down.backspaces == state.backspaces && up.backspaces == state.backspaces
        }),
{
    KeyCode::lemma_code_round_trip();
    assert forall|other: KeyCode| other != key implies other.code() != key.code() by {
        assert(KeyCode::from_code(other.code()) == Some(other));
        assert(KeyCode::from_code(key.code()) == Some(key));
    }
}

/// A fresh tracker reports no key as pressed.
pub proof fn lemma_initially_released(key: KeyCode)
    ensures
        !KeyboardState::initial().is_pressed(key),
{
}

/// What one plain code unit does to a tracker with no surrogate pending: its
/// character joins the queue, and if the queue was full the oldest character
/// leaves.
pub proof fn lemma_plain_input(state: KeyboardState, unit: u16)
    requires
        state.wf(),
        state.pending_surrogate is None,
        is_plain(unit),
    ensures
        state.with_input(unit).queue == trimmed(state.queue.push(unit_char(unit).unwrap())),
        state.with_input(unit).backspaces == state.backspaces,
        state.with_input(unit).pending_surrogate is None,
        state.with_input(unit).pressed == state.pressed,
        state.with_input(unit).wf(),
{
    let c = unit_char(unit).unwrap();
    let chars = seq![c];
    assert(chars.drop_first() =~= Seq::<char>::empty());
    assert(feed_chars(state.queue, state.backspaces, chars) == feed_chars(
        state.queue.push(c),
        state.backspaces,
        Seq::<char>::empty(),
    ));
    }

/// A surrogate pair is queued as one character, and nothing is queued until
/// its second half arrives.
///
/// A high surrogate that arrives with nothing pending is held back: the
/// queue stays as it was. The low surrogate that follows completes the
/// pair, which joins the queue as the single character it encodes.
pub proof fn lemma_surrogate_pair(state: KeyboardState, high: u16, low: u16)
    requires
        state.wf(),
        state.pending_surrogate is None,
        is_high_surrogate(high),
        is_low_surrogate(low),
    ensures
        state.with_input(high).queue == state.queue,
        state.with_input(high).pending_surrogate == Some(high),
        state.with_input(high).with_input(low).pending_surrogate is None,
        state.with_input(high).with_input(low).queue == trimmed(
            state.queue.push(pair_scalar(high, low) as char),
        ),
        state.with_input(high).with_input(low).backspaces == state.backspaces,
        state.with_input(high).with_input(low).pressed == state.pressed,
        state.with_input(high).with_input(low).wf(),
        0x10000 <= pair_scalar(high, low) <= 0x10FFFF,
{
    let scalar = pair_scalar(high, low);
    let c = scalar as char;
    assert(0x10000 <= scalar <= 0x10FFFF);
    assert(c as u32 == scalar);
    let held = state.with_input(high);
    let chars = pair_text(high, low);
    assert(chars =~= seq![c]);
    assert(chars.drop_first() =~= Seq::<char>::empty());
    assert(c != BACKSPACE);
    assert(!is_discarded(c));
    assert(feed_chars(held.queue, held.backspaces, chars) == feed_chars(
        held.queue.push(c),
        held.backspaces,
        Seq::<char>::empty(),
    ));
    }

/// A backspace deletes queued text first and is counted only when there is
/// none.
///
/// With text in the queue, a backspace removes the newest character and the
/// count stays. With an empty queue, the backspace is counted, to be applied
/// to text that was drained earlier; a count that has reached `usize::MAX`
/// stays there. The pressed keys are never touched. Draining hands out the
/// count and resets it.
pub proof fn lemma_backspace(state: KeyboardState)
    requires
        state.wf(),
        state.pending_surrogate is None,
    ensures
        ({
            let after = state.with_input(0x08);
            &&& state.queue.len() > 0 ==> after.queue == state.queue.drop_last()
                && after.backspaces == state.backspaces
            &&& state.queue.len() == 0 ==> after.queue == state.queue && after.backspaces == if state.backspaces
                < usize::MAX {
                state.backspaces + 1
            } else {
                state.backspaces
            }
            &&& after.pressed == state.pressed
            &&& after.wf()
            &&& after.drained().backspaces == 0
            &&& after.pending_surrogate is None
        }),
{
    let c = unit_char(0x08).unwrap();
    assert(c == BACKSPACE);
    let chars = seq![c];
    assert(chars.drop_first() =~= Seq::<char>::empty());
    let (q, n) = feed_char(state.queue, state.backspaces, c);
    assert(feed_chars(state.queue, state.backspaces, chars) == feed_chars(
        q,
        n,
        Seq::<char>::empty(),
    ));
}

/// Whether `c` is text that the input queue keeps: neither a backspace nor a
/// control character that the queue discards.
pub open spec fn is_text(c: char) -> bool {
    c != BACKSPACE && !is_discarded(c)
}

/// Decoding undoes encoding: the UTF-16 code units of a character decode to
/// that character.
///
/// A character of the basic plane is encoded as one unit, which stands for
/// the character on its own. Any other character is encoded as a high
/// surrogate followed by a low surrogate, and the pair decodes to it.
pub proof fn lemma_utf16_round_trip(c: char)
    ensures
        (c as u32) < 0x10000 ==> utf16_units(c).len() == 1 && unit_char(utf16_units(c)[0]) == Some(
            c,
        ),
        (c as u32) >= 0x10000 ==> {
            &&& utf16_units(c).len() == 2
            &&& is_high_surrogate(utf16_units(c)[0])
            &&& is_low_surrogate(utf16_units(c)[1])
            &&& pair_scalar(utf16_units(c)[0], utf16_units(c)[1]) as char == c
        },
{
    let v = c as u32;
    if v < 0x10000 {
        assert(v as u16 as char == c);
    } else {
        let offset = (v - 0x10000) as int;
        assert(0 <= offset <= 0xFFFFF);
        let high = (0xD800 + offset / 0x400) as u16;
        let low = (0xDC00 + offset % 0x400) as u16;
        assert(utf16_units(c) =~= seq![high, low]);
        assert(pair_scalar(high, low) == v);
        assert(v as char == c);
    }
}

/// Feeding two runs of code units one after the other is feeding them as one
/// run.
pub proof fn lemma_fed_concat(state: KeyboardState, first: Seq<u16>, second: Seq<u16>)
    ensures
        fed(state, first + second) == fed(fed(state, first), second),
    decreases second.len(),
{
    if second.len() == 0 {
        assert(first + second =~= first);
    } else {
        assert((first + second).drop_last() =~= first + second.drop_last());
        assert((first + second).last() == second.last());
        lemma_fed_concat(state, first, second.drop_last());
    }
}

/// What the code units of one character of text do to a tracker with no
/// surrogate pending: the character joins the queue, whether it took one
/// unit or two, and if the queue was full the oldest character leaves.
pub proof fn lemma_text_char(state: KeyboardState, c: char)
    requires
        state.wf(),
        state.pending_surrogate is None,
        is_text(c),
    ensures
        fed(state, utf16_units(c)).wf(),
        fed(state, utf16_units(c)).pending_surrogate is None,
        fed(state, utf16_units(c)).queue == trimmed(state.queue.push(c)),
        fed(state, utf16_units(c)).backspaces == state.backspaces,
        fed(state, utf16_units(c)).pressed == state.pressed,
{
    lemma_utf16_round_trip(c);
    let units = utf16_units(c);
    if (c as u32) < 0x10000 {
        assert(units.drop_last() =~= Seq::<u16>::empty());
        assert(fed(state, units.drop_last()) == state);
        assert(units.last() == units[0]);
        assert(fed(state, units) == state.with_input(units[0]));
        lemma_plain_input(state, units[0]);
    } else {
        let one = units.drop_last();
        assert(one =~= seq![units[0]]);
        assert(one.drop_last() =~= Seq::<u16>::empty());
        assert(fed(state, one.drop_last()) == state);
        assert(one.last() == units[0]);
        assert(fed(state, one) == state.with_input(units[0]));
        assert(units.last() == units[1]);
        assert(fed(state, units) == state.with_input(units[0]).with_input(units[1]));
        lemma_surrogate_pair(state, units[0], units[1]);
    }
}

/// Text comes out as it was typed.
///
/// Feeding the UTF-16 encoding of any text, one code unit at a time, to a
/// tracker with no surrogate pending leaves in the queue the newest
/// characters of what was queued before followed by the text: all of them
/// while they number less than the capacity, else the last
/// `INPUT_QUEUE_CAPACITY - 1`. Characters outside the basic plane count as
/// one, so the queue never holds half of a surrogate pair. Draining then
/// hands out exactly these characters and leaves the queue empty.
pub proof fn lemma_typed_text(state: KeyboardState, text: Seq<char>)
    requires
        state.wf(),
        state.pending_surrogate is None,
        forall|i: int| 0 <= i < text.len() ==> is_text(#[trigger] text[i]),
    ensures
        fed(state, utf16(text)).wf(),
        fed(state, utf16(text)).pending_surrogate is None,
        fed(state, utf16(text)).queue == trimmed(state.queue + text),
        fed(state, utf16(text)).backspaces == state.backspaces,
        fed(state, utf16(text)).pressed == state.pressed,
        state.queue.len() + text.len() < INPUT_QUEUE_CAPACITY ==> fed(state, utf16(text)).queue
            == state.queue + text,
        fed(state, utf16(text)).drained().queue == Seq::<char>::empty(),
    decreases text.len(),
{
    if text.len() == 0 {
        assert(state.queue + text =~= state.queue);
    } else {
        let c = text[0];
        let rest = text.drop_first();
        lemma_text_char(state, c);
        let next = fed(state, utf16_units(c));
        lemma_fed_concat(state, utf16_units(c), utf16(rest));
        lemma_typed_text(next, rest);
        let all = state.queue + text;
        assert(state.queue.push(c) + rest =~= all);
        assert(trimmed(trimmed(state.queue.push(c)) + rest) =~= trimmed(state.queue.push(c) + rest));
    }
}

} // verus!
