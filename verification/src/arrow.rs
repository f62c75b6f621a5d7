use vstd::prelude::*;

use crate::geom::Coord;
use crate::grid::Grid;

verus! {

/// The direction of the cursor's most recent movement, inferred from the
/// previous and the current cursor position.
#[derive(Clone, Copy, Debug, PartialEq, Eq, Structural)]
pub enum Direction {
    Right,
    Left,
    Down,
    Up,
    Undetermined,
}

/// Classify the movement from `prev` to `cur`, in the priority order
/// right, left, down, up.  Anything else — a jump of more than one
/// cell, a diagonal, or no movement at all — is undetermined.
pub open spec fn classify(prev: Coord, cur: Coord) -> Direction {
    if prev.x + 1 == cur.x {
        Direction::Right
    } else if prev.x - 1 == cur.x {
        Direction::Left
    } else if prev.y + 1 == cur.y {
        Direction::Down
    } else if prev.y - 1 == cur.y {
        Direction::Up
    } else {
        Direction::Undetermined
    }
}

/// The head glyph marking the tip of the line for each direction.
pub open spec fn head_glyph(d: Direction) -> char {
    match d {
        Direction::Right => '▶',
        Direction::Left => '◀',
        Direction::Down => '▼',
        Direction::Up => '▲',
        Direction::Undetermined => '◆',
    }
}

/// Whether `g` is one of the four directional head glyphs.
pub open spec fn is_head(g: char) -> bool {
    g == '▶' || g == '◀' || g == '▼' || g == '▲'
}

/// The connector that replaces a former head glyph once the line moves
/// on in direction `d`: a straight segment when the axis is kept, a
/// round corner when the axis changes, and a junction glyph when the
/// new movement is undetermined.
pub open spec fn connector(head: char, d: Direction) -> char {
    if d == Direction::Undetermined {
        '+'
    } else if head == '▶' {
        if d == Direction::Right || d == Direction::Left {
            '─'
        } else if d == Direction::Down {
            '╮'
        } else {
            '╯'
        }
    } else if head == '◀' {
        if d == Direction::Right || d == Direction::Left {
            '─'
        } else if d == Direction::Down {
            '╭'
        } else {
            '╰'
        }
    } else if head == '▼' {
        if d == Direction::Right {
            '╰'
        } else if d == Direction::Left {
            '╯'
        } else {
            '│'
        }
    } else {
        if d == Direction::Right {
            '╭'
        } else if d == Direction::Left {
            '╮'
        } else {
            '│'
        }
    }
}

/// One step of the arrow automaton: write the head glyph for the new
/// direction at the cursor; then, if the cell the cursor came from holds
/// a head glyph, replace it by its connector.  A first segment, or a
/// foreign glyph at the previous cell, is left untouched.
pub open spec fn arrow_step_map(m: Map<Coord, char>, prev: Coord, cur: Coord) -> Map<
    Coord,
    char,
> {
    let d = classify(prev, cur);
    let m1 = m.insert(cur, head_glyph(d));
    if m1.contains_key(prev) && is_head(m1[prev]) {
        m1.insert(prev, connector(m1[prev], d))
    } else {
        m1
    }
}

/// Executable twin of `classify`.
pub fn classify_move(prev: Coord, cur: Coord) -> (d: Direction)
    ensures
        d == classify(prev, cur),
{
    if (prev.x as u32) + 1 == (cur.x as u32) {
        Direction::Right
    } else if (prev.x as u32) == (cur.x as u32) + 1 {
        Direction::Left
    } else if (prev.y as u32) + 1 == (cur.y as u32) {
        Direction::Down
    } else if (prev.y as u32) == (cur.y as u32) + 1 {
        Direction::Up
    } else {
        Direction::Undetermined
    }
}

/// Executable twin of `head_glyph`.
fn head_char(d: Direction) -> (c: char)
    ensures
        c == head_glyph(d),
{
    match d {
        Direction::Right => '▶',
        Direction::Left => '◀',
        Direction::Down => '▼',
        Direction::Up => '▲',
        Direction::Undetermined => '◆',
    }
}

/// Executable twin of `connector`.
fn connector_char(head: char, d: Direction) -> (c: char)
    requires
        is_head(head),
    ensures
        c == connector(head, d),
{
    if d == Direction::Undetermined {
        '+'
    } else if head == '▶' {
        if d == Direction::Right || d == Direction::Left {
            '─'
        } else if d == Direction::Down {
            '╮'
        } else {
            '╯'
        }
    } else if head == '◀' {
        if d == Direction::Right || d == Direction::Left {
            '─'
        } else if d == Direction::Down {
            '╭'
        } else {
            '╰'
        }
    } else if head == '▼' {
        if d == Direction::Right {
            '╰'
        } else if d == Direction::Left {
            '╯'
        } else {
            '│'
        }
    } else {
        if d == Direction::Right {
            '╭'
        } else if d == Direction::Left {
            '╮'
        } else {
            '│'
        }
    }
}

/// Extend the arrow preview by the movement from `prev` to `cur`.
pub fn extend_arrow_preview(preview: &mut Grid, prev: Coord, cur: Coord)
    requires
        old(preview).wf(),
    ensures
        final(preview).wf(),
        final(preview)@ == arrow_step_map(old(preview)@, prev, cur),
{
    let d = classify_move(prev, cur);
    preview.insert(cur, head_char(d));
    match preview.get(prev) {
        Some(g) => {
            if g == '▶' || g == '◀' || g == '▼' || g == '▲' {
                preview.insert(prev, connector_char(g, d));
            }
        },
        None => {},
    }
}

} // verus!
