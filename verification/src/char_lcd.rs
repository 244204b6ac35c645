//! What the character LCD task writes for a message: a clear, then the first line, and,
//! if the message has a line break, the cursor moved to the second line and the rest.

use vstd::prelude::*;

use crate::char_lcd_i2c::{set_cursor_command, CMD_CLEAR};

verus! {

/// Longest message, in bytes.
pub const MESSAGE_CAPACITY: usize = 64;

/// The line feed byte.
pub const NEWLINE: u8 = 10;

/// The command that moves the cursor to the start of the second line.
pub open spec fn second_line_command() -> u8 {
    0xC0
}

/// Each byte of `line` written as a character.
pub open spec fn characters(line: Seq<u8>) -> Seq<(u8, bool)> {
    line.map_values(|b: u8| (b, true))
}

/// `p` is the first line feed in `text`.
pub open spec fn is_first_newline(text: Seq<u8>, p: int) -> bool {
    0 <= p < text.len() && text[p] == NEWLINE && forall|j: int| 0 <= j < p ==> text[j] != NEWLINE
}

/// The position of the first line feed in `text`, if any.
pub open spec fn first_newline(text: Seq<u8>) -> Option<int> {
    if exists|i: int| is_first_newline(text, i) {
        Some(choose|i: int| is_first_newline(text, i))
    } else {
        None
    }
}

/// The bytes written for `text` (each with whether it is a character rather than a
/// command): clear, the text up to the first line feed, and after a line feed the
/// cursor on the second line and the rest of the text.
pub open spec fn message_writes_spec(text: Seq<u8>, newline: Option<int>) -> Seq<(u8, bool)> {
    match newline {
        None => seq![(CMD_CLEAR, false)] + characters(text),
        Some(p) => seq![(CMD_CLEAR, false)] + characters(text.subrange(0, p)) + seq![(second_line_command(), false)]
            + characters(text.subrange(p + 1, text.len() as int)),
    }
}

/// The position of the first line feed in `text`, if any.
pub fn find_newline(text: &[u8]) -> (position: Option<usize>)
    ensures
        match position {
            Some(p) => p < text@.len() && text@[p as int] == NEWLINE && forall|j: int| 0 <= j < p ==> text@[j] != NEWLINE,
            None => forall|j: int| 0 <= j < text@.len() ==> text@[j] != NEWLINE,
        },
{
    let mut i: usize = 0;
    while i < text.len()
        invariant
            i <= text@.len(),
            forall|j: int| 0 <= j < i ==> text@[j] != NEWLINE,
        decreases text@.len() - i,
    {
        if text[i] == NEWLINE {
            return Some(i);
        }
        i += 1;
    }
    None
}

/// Appends `text[from..to]` as characters.
fn push_characters(writes: &mut Vec<(u8, bool)>, text: &[u8], from: usize, to: usize)
    requires
        from <= to <= text@.len(),
    ensures
        final(writes)@ == old(writes)@ + characters(text@.subrange(from as int, to as int)),
{
    let mut i = from;
    while i < to
        invariant
            from <= i <= to,
            to <= text@.len(),
            writes@ == old(writes)@ + characters(text@.subrange(from as int, i as int)),
        decreases to - i,
    {
        writes.push((text[i], true));
        proof {
            assert(text@.subrange(from as int, i + 1) == text@.subrange(from as int, i as int).push(text@[i as int]));
            assert(characters(text@.subrange(from as int, i + 1)) =~= characters(
                text@.subrange(from as int, i as int),
            ).push((text@[i as int], true)));
        }
        i += 1;
    }
}

/// The bytes the LCD task writes for a message; see [`message_writes_spec`].
pub fn message_writes(text: &[u8]) -> (writes: Vec<(u8, bool)>)
    ensures
        writes@ == message_writes_spec(text@, first_newline(text@)),
{
    let length = text.len();
    let mut writes: Vec<(u8, bool)> = Vec::new();
    writes.push((CMD_CLEAR, false));
    let newline = find_newline(text);
    match newline {
        Some(p) => {
            proof {
                assert(is_first_newline(text@, p as int));
                let q = choose|i: int| is_first_newline(text@, i);
                assert(q == p as int) by {
                    if q < p {
                        assert(text@[q] != NEWLINE);
                    } else if q > p {
                        assert(text@[p as int] != NEWLINE);
                    }
                }
            }
            push_characters(&mut writes, text, 0, p);
            let command = set_cursor_command(1, 0);
            assert(0x80u8 | 0x40u8 == 0xC0u8) by (bit_vector);
            writes.push((command, false));
            push_characters(&mut writes, text, p + 1, length);
            assert(writes@ =~= message_writes_spec(text@, first_newline(text@)));
        },
        None => {
            proof {
                assert(!exists|i: int| is_first_newline(text@, i));
            }
            push_characters(&mut writes, text, 0, length);
            assert(text@.subrange(0, text@.len() as int) =~= text@);
            assert(writes@ =~= message_writes_spec(text@, first_newline(text@)));
        },
    }
    writes
}

} // verus!
