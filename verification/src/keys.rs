//! Keyboard input: which character, if any, a frame's key presses produce.
//!
//! The mapping is a table. Each row names a physical key, the character it
//! gives on its own and the character it gives while shift is held. The rows
//! stand in priority order: when several keys are pressed in the same frame,
//! the earliest row wins and the others are ignored.

use crate::text::stored_length;
use vstd::prelude::*;
use vstd::utf8::{is_ascii_chars, is_ascii_chars_encode_utf8};

verus! {

/// A physical key that the widgets react to.
#[derive(Clone, Copy, Debug, PartialEq, Eq, Structural)]
pub enum Key {
    A,
    B,
    C,
    D,
    E,
    F,
    G,
    H,
    I,
    J,
    K,
    L,
    M,
    N,
    O,
    P,
    Q,
    R,
    S,
    T,
    U,
    V,
    W,
    X,
    Y,
    Z,
    Space,
    One,
    Two,
    Three,
    Four,
    Five,
    Six,
    Seven,
    Eight,
    Nine,
    Zero,
    Period,
    Slash,
    Minus,
    Semicolon,
    Backspace,
}

/// Number of rows in [`KEY_TABLE`].
pub const KEY_COUNT: usize = 41;

/// Number of letter rows, which open the table.
pub const LETTER_ROWS: usize = 26;

/// Row of the semicolon key, the last of the table.
pub const SEMICOLON_ROW: usize = 40;

/// Rows of `(key, plain character, shifted character)`, highest priority
/// first: the letters, the space bar, the digits, the punctuation keys, and
/// the semicolon key last.
pub const KEY_TABLE: [(Key, char, char); 41] = [
    (Key::A, 'a', 'A'),
    (Key::B, 'b', 'B'),
    (Key::C, 'c', 'C'),
    (Key::D, 'd', 'D'),
    (Key::E, 'e', 'E'),
    (Key::F, 'f', 'F'),
    (Key::G, 'g', 'G'),
    (Key::H, 'h', 'H'),
    (Key::I, 'i', 'I'),
    (Key::J, 'j', 'J'),
    (Key::K, 'k', 'K'),
    (Key::L, 'l', 'L'),
    (Key::M, 'm', 'M'),
    (Key::N, 'n', 'N'),
    (Key::O, 'o', 'O'),
    (Key::P, 'p', 'P'),
    (Key::Q, 'q', 'Q'),
    (Key::R, 'r', 'R'),
    (Key::S, 's', 'S'),
    (Key::T, 't', 'T'),
    (Key::U, 'u', 'U'),
    (Key::V, 'v', 'V'),
    (Key::W, 'w', 'W'),
    (Key::X, 'x', 'X'),
    (Key::Y, 'y', 'Y'),
    (Key::Z, 'z', 'Z'),
    (Key::Space, ' ', ' '),
    (Key::One, '1', '1'),
    (Key::Two, '2', '2'),
    (Key::Three, '3', '3'),
    (Key::Four, '4', '4'),
    (Key::Five, '5', '5'),
    (Key::Six, '6', '6'),
    (Key::Seven, '7', '7'),
    (Key::Eight, '8', '8'),
    (Key::Nine, '9', '9'),
    (Key::Zero, '0', '0'),
    (Key::Period, '.', '.'),
    (Key::Slash, '/', '/'),
    (Key::Minus, '-', '-'),
    (Key::Semicolon, ';', ':'),
];

/// The keyboard as one frame sees it.
#[derive(Debug)]
pub struct KeyInput {
    /// Keys that went down during this frame, in any order.
    pub pressed: Vec<Key>,
    /// Whether the shift modifier is being held.
    pub shift: bool,
}

/// Whether row `row` of the table may produce its character: its key was
/// pressed, and it is not the space bar of a widget that refuses spaces.
pub open spec fn row_fires(row: int, pressed: Seq<Key>, spaces_allowed: bool) -> bool {
    &&& 0 <= row < KEY_COUNT
    &&& pressed.contains(KEY_TABLE[row].0)
    &&& (KEY_TABLE[row].0 != Key::Space || spaces_allowed)
}

/// Whether `row` fires and no row before it does.
pub open spec fn fires_first(row: int, pressed: Seq<Key>, spaces_allowed: bool) -> bool {
    &&& row_fires(row, pressed, spaces_allowed)
    &&& forall|earlier: int| 0 <= earlier < row ==> !row_fires(earlier, pressed, spaces_allowed)
}

/// The character of row `row` under the given modifier state.
pub open spec fn row_char(row: int, shift: bool) -> char {
    if shift {
        KEY_TABLE[row].2
    } else {
        KEY_TABLE[row].1
    }
}

/// The first row at or after `from` that fires, if any.
pub open spec fn first_firing_row(from: int, pressed: Seq<Key>, spaces_allowed: bool) -> Option<int>
    decreases KEY_COUNT - from,
{
    if from < 0 || from >= KEY_COUNT {
        None
    } else if row_fires(from, pressed, spaces_allowed) {
        Some(from)
    } else {
        first_firing_row(from + 1, pressed, spaces_allowed)
    }
}

/// The character that a frame's key presses produce: that of the first row
/// of the table that fires, or none when no row does.
pub open spec fn resolved(pressed: Seq<Key>, shift: bool, spaces_allowed: bool) -> Option<char> {
    match first_firing_row(0, pressed, spaces_allowed) {
        Some(row) => Some(row_char(row, shift)),
        None => None,
    }
}

/// Whether `key` is among the keys pressed this frame.
pub fn is_pressed(pressed: &Vec<Key>, key: Key) -> (found: bool)
    ensures
        found == pressed@.contains(key),
{
    let mut i: usize = 0;
    while i < pressed.len()
        invariant
            i <= pressed.len(),
            forall|j: int| 0 <= j < i ==> pressed@[j] != key,
        decreases pressed.len() - i,
    {
        if pressed[i] == key {
            return true;
        }
        i += 1;
    }
    false
}

/// Picks the one character, if any, that this frame's key presses produce:
/// the character of the row that fires first, under the frame's shift state.
pub fn resolve(keys: &KeyInput, spaces_allowed: bool) -> (out: Option<char>)
    ensures
        out == resolved(keys.pressed@, keys.shift, spaces_allowed),
        match out {
            Some(ch) => exists|row: int|
                fires_first(row, keys.pressed@, spaces_allowed) && ch == row_char(row, keys.shift),
            None => forall|row: int| !row_fires(row, keys.pressed@, spaces_allowed),
        },
{
    let mut row: usize = 0;
    while row < KEY_COUNT
        invariant
            row <= KEY_COUNT,
            first_firing_row(0, keys.pressed@, spaces_allowed) == first_firing_row(
                row as int,
                keys.pressed@,
                spaces_allowed,
            ),
            forall|earlier: int|
                0 <= earlier < row ==> !row_fires(earlier, keys.pressed@, spaces_allowed),
        decreases KEY_COUNT - row,
    {
        let (key, plain, shifted) = KEY_TABLE[row];
        if (key != Key::Space || spaces_allowed) && is_pressed(&keys.pressed, key) {
            assert(fires_first(row as int, keys.pressed@, spaces_allowed));
            return Some(if keys.shift { shifted } else { plain });
        }
        row += 1;
    }
    None
}

/// The text once a pressed backspace key has taken its last character; an
/// empty text stays empty.
pub open spec fn erased(text: Seq<char>, pressed: Seq<Key>) -> Seq<char> {
    if pressed.contains(Key::Backspace) && text.len() > 0 {
        text.drop_last()
    } else {
        text
    }
}

/// The text once the frame's character, if there is one, has been added;
/// a text that has reached `max_length` takes no more.
pub open spec fn appended(
    text: Seq<char>,
    keys: KeyInput,
    max_length: u8,
    spaces_allowed: bool,
) -> Seq<char> {
    if stored_length(text) < max_length {
        match resolved(keys.pressed@, keys.shift, spaces_allowed) {
            Some(ch) => text.push(ch),
            None => text,
        }
    } else {
        text
    }
}

/// The text after one frame of keyboard input: backspace acts first, then
/// at most one character is added.
pub open spec fn typed(text: Seq<char>, keys: KeyInput, max_length: u8, spaces_allowed: bool) -> Seq<
    char,
> {
    appended(erased(text, keys.pressed@), keys, max_length, spaces_allowed)
}

/// Applies one frame of keyboard input to `text`.
///
/// Backspace removes the last character whatever the length. After that, if
/// the text is shorter than `max_length`, the character of the
/// highest-priority pressed key is appended.
pub fn type_into(text: &mut String, keys: &KeyInput, max_length: u8, spaces_allowed: bool)
    ensures
        final(text)@ == typed(old(text)@, *keys, max_length, spaces_allowed),
{
    if is_pressed(&keys.pressed, Key::Backspace) {
        let _ = text.pop();
    }
    if text.len() < max_length as usize {
        match resolve(keys, spaces_allowed) {
            Some(ch) => text.push(ch),
            None => {},
        }
    }
}

/// The row that [`first_firing_row`] names fires and no row between `from`
/// and it does; where it names none, no row from `from` on fires.
pub proof fn first_firing_row_is_first(from: int, pressed: Seq<Key>, spaces_allowed: bool)
    requires
        0 <= from,
    ensures
        match first_firing_row(from, pressed, spaces_allowed) {
            Some(row) => {
                &&& from <= row < KEY_COUNT
                &&& row_fires(row, pressed, spaces_allowed)
                &&& forall|earlier: int|
                    from <= earlier < row ==> !row_fires(earlier, pressed, spaces_allowed)
            },
            None => forall|row: int| from <= row ==> !row_fires(row, pressed, spaces_allowed),
        },
    decreases KEY_COUNT - from,
{
    if from < KEY_COUNT && !row_fires(from, pressed, spaces_allowed) {
        first_firing_row_is_first(from + 1, pressed, spaces_allowed);
    }
}

/// A frame produces a character exactly when some row fires, and the
/// character is that of the row that fires first.
pub proof fn resolved_is_earliest(pressed: Seq<Key>, shift: bool, spaces_allowed: bool)
    ensures
        resolved(pressed, shift, spaces_allowed).is_none() <==> forall|row: int|
            !row_fires(row, pressed, spaces_allowed),
        forall|row: int|
            fires_first(row, pressed, spaces_allowed) ==> resolved(pressed, shift, spaces_allowed)
                == Some(row_char(row, shift)),
        resolved(pressed, shift, spaces_allowed).is_some() ==> exists|row: int|
            fires_first(row, pressed, spaces_allowed) && resolved(pressed, shift, spaces_allowed)
                == Some(row_char(row, shift)),
{
    first_firing_row_is_first(0, pressed, spaces_allowed);
    match first_firing_row(0, pressed, spaces_allowed) {
        Some(first) => {
            assert(fires_first(first, pressed, spaces_allowed));
            assert forall|row: int| fires_first(row, pressed, spaces_allowed) implies resolved(
                pressed,
                shift,
                spaces_allowed,
            ) == Some(row_char(row, shift)) by {
                if row < first {
                } else if first < row {
                }
            }
        },
        None => {},
    }
}

/// No two rows of the table share a key.
pub proof fn table_keys_are_distinct(a: int, b: int)
    requires
        0 <= a < b < KEY_COUNT,
    ensures
        KEY_TABLE[a].0 != KEY_TABLE[b].0,
{
}

/// A key pressed on its own gives the character of its row, unless it is
/// the space bar of a widget that refuses spaces.
pub proof fn single_key_gives_its_row(row: int, shift: bool, spaces_allowed: bool)
    requires
        0 <= row < KEY_COUNT,
        KEY_TABLE[row].0 != Key::Space || spaces_allowed,
    ensures
        resolved(seq![KEY_TABLE[row].0], shift, spaces_allowed) == Some(row_char(row, shift)),
{
    let pressed = seq![KEY_TABLE[row].0];
    assert(pressed[0] == KEY_TABLE[row].0);
    assert(row_fires(row, pressed, spaces_allowed));
    assert forall|earlier: int| 0 <= earlier < row implies !row_fires(
        earlier,
        pressed,
        spaces_allowed,
    ) by {
        table_keys_are_distinct(earlier, row);
    }
    assert(fires_first(row, pressed, spaces_allowed));
    resolved_is_earliest(pressed, shift, spaces_allowed);
}

/// What shift does. A letter row gives the small letter without shift and
/// the capital with it; on the semicolon row shift turns `;` into `:`; every
/// other row gives the same character either way.
pub proof fn shift_changes_letters_and_semicolon(row: int)
    requires
        0 <= row < KEY_COUNT,
    ensures
        row < LETTER_ROWS ==> row_char(row, false) as int == 'a' as int + row,
        row < LETTER_ROWS ==> row_char(row, true) as int == 'A' as int + row,
        LETTER_ROWS <= row < SEMICOLON_ROW ==> row_char(row, true) == row_char(row, false),
        row == SEMICOLON_ROW ==> row_char(row, false) == ';' && row_char(row, true) == ':',
{
}

/// Only the space bar gives a space, and every character of the table is
/// an ASCII character.
pub proof fn table_chars(row: int, shift: bool)
    requires
        0 <= row < KEY_COUNT,
    ensures
        row_char(row, shift) == ' ' ==> KEY_TABLE[row].0 == Key::Space,
        ' ' <= row_char(row, shift) <= 'z',
{
}

/// A widget that refuses spaces never gets one, whatever is pressed; if
/// nothing but the space bar is pressed, it gets no character at all.
pub proof fn refused_space_adds_nothing(pressed: Seq<Key>, shift: bool)
    ensures
        resolved(pressed, shift, false) != Some(' '),
        (forall|i: int| 0 <= i < pressed.len() ==> pressed[i] == Key::Space) ==> resolved(
            pressed,
            shift,
            false,
        ).is_none(),
{
    first_firing_row_is_first(0, pressed, false);
    match first_firing_row(0, pressed, false) {
        Some(row) => {
            table_chars(row, shift);
        },
        None => {},
    }
}

/// A text that has reached `max_length` takes no character, while backspace
/// still removes one: without backspace the text stays as it is, and with
/// it a non-empty text loses its last character before anything is added.
pub proof fn full_text_only_shrinks(
    text: Seq<char>,
    keys: KeyInput,
    max_length: u8,
    spaces_allowed: bool,
)
    ensures
        stored_length(text) >= max_length && !keys.pressed@.contains(Key::Backspace) ==> typed(
            text,
            keys,
            max_length,
            spaces_allowed,
        ) == text,
        keys.pressed@.contains(Key::Backspace) && text.len() > 0 ==> typed(
            text,
            keys,
            max_length,
            spaces_allowed,
        ) == appended(text.drop_last(), keys, max_length, spaces_allowed),
        text.len() == 0 ==> erased(text, keys.pressed@) == text,
{
}

/// A frame adds at most one character, at the end, and takes at most one
/// away, from the end.
pub proof fn one_character_per_frame(
    text: Seq<char>,
    keys: KeyInput,
    max_length: u8,
    spaces_allowed: bool,
)
    ensures
        ({
            let kept = erased(text, keys.pressed@);
            let after = typed(text, keys, max_length, spaces_allowed);
            &&& kept == text || (text.len() > 0 && kept == text.drop_last())
            &&& after == kept || (after.len() == kept.len() + 1 && after.drop_last() == kept)
        }),
{
    let kept = erased(text, keys.pressed@);
    match resolved(keys.pressed@, keys.shift, spaces_allowed) {
        Some(ch) => {
            assert(kept.push(ch).drop_last() =~= kept);
        },
        None => {},
    }
}

/// Typing keeps ASCII text ASCII and within `max_length` characters.
pub proof fn typed_stays_within_limit(
    text: Seq<char>,
    keys: KeyInput,
    max_length: u8,
    spaces_allowed: bool,
)
    requires
        is_ascii_chars(text),
        text.len() <= max_length,
    ensures
        is_ascii_chars(typed(text, keys, max_length, spaces_allowed)),
        typed(text, keys, max_length, spaces_allowed).len() <= max_length,
{
    let shorter = erased(text, keys.pressed@);
    assert(is_ascii_chars(shorter));
    is_ascii_chars_encode_utf8(shorter);
    first_firing_row_is_first(0, keys.pressed@, spaces_allowed);
    match first_firing_row(0, keys.pressed@, spaces_allowed) {
        Some(row) => {
            table_chars(row, keys.shift);
        },
        None => {},
    }
}

} // verus!
