use vstd::prelude::*;

use crate::geom::Coord;
use crate::grid::Grid;

verus! {

/// The character shown at `(x, y)`: the preview layer wins over the
/// diagram layer, and an unoccupied cell shows a space.
pub open spec fn cell_char(
    diagram: Map<Coord, char>,
    preview: Map<Coord, char>,
    x: u16,
    y: u16,
) -> char {
    let p = Coord { x, y };
    if preview.contains_key(p) {
        preview[p]
    } else if diagram.contains_key(p) {
        diagram[p]
    } else {
        ' '
    }
}

/// Row `y` of the composed frame, `width` characters wide.
pub open spec fn row_chars(
    diagram: Map<Coord, char>,
    preview: Map<Coord, char>,
    width: u16,
    y: u16,
) -> Seq<char> {
    Seq::new(width as nat, |j: int| cell_char(diagram, preview, j as u16, y))
}

/// The composed frame as flat text: each of the `height` rows followed
/// by a line break.
pub open spec fn screen_text(
    diagram: Map<Coord, char>,
    preview: Map<Coord, char>,
    width: u16,
    height: u16,
) -> Seq<char>
    decreases height,
{
    if height == 0 {
        Seq::empty()
    } else {
        screen_text(diagram, preview, width, (height - 1) as u16) + row_chars(
            diagram,
            preview,
            width,
            (height - 1) as u16,
        ) + seq!['\n']
    }
}

/// Law (preview precedence): at a coordinate occupied in both layers,
/// the composed frame shows the preview glyph.
pub proof fn lemma_preview_precedence(
    diagram: Map<Coord, char>,
    preview: Map<Coord, char>,
    x: u16,
    y: u16,
)
    requires
        diagram.contains_key(Coord { x, y }),
        preview.contains_key(Coord { x, y }),
    ensures
        cell_char(diagram, preview, x, y) == preview[Coord { x, y }],
{
}

/// Merge the two layers into exactly `height` rows of exactly `width`
/// characters; the preview wins over the diagram at a shared coordinate,
/// and an empty cell renders as a space.  A pure function of its inputs.
pub fn compose(diagram: &Grid, preview: &Grid, width: u16, height: u16) -> (rows: Vec<Vec<char>>)
    ensures
        rows@.len() == height,
        forall|i: int| 0 <= i < height ==> (#[trigger] rows@[i])@.len() == width,
        forall|i: int, j: int|
            0 <= i < height && 0 <= j < width ==> #[trigger] rows@[i]@[j] == cell_char(
                diagram@,
                preview@,
                j as u16,
                i as u16,
            ),
{
    let mut rows: Vec<Vec<char>> = Vec::new();
    let mut y: u16 = 0;
    while y < height
        invariant
            y <= height,
            rows@.len() == y,
            forall|i: int| 0 <= i < y ==> (#[trigger] rows@[i])@.len() == width,
            forall|i: int, j: int|
                0 <= i < y && 0 <= j < width ==> #[trigger] rows@[i]@[j] == cell_char(
                    diagram@,
                    preview@,
                    j as u16,
                    i as u16,
                ),
        decreases height - y,
    {
        let row = compose_row(diagram, preview, width, y);
        rows.push(row);
        y = y + 1;
    }
    rows
}

/// One composed row of the frame.
fn compose_row(diagram: &Grid, preview: &Grid, width: u16, y: u16) -> (row: Vec<char>)
    ensures
        row@ == row_chars(diagram@, preview@, width, y),
{
    let mut row: Vec<char> = Vec::new();
    let mut x: u16 = 0;
    while x < width
        invariant
            x <= width,
            row@.len() == x,
            forall|j: int|
                0 <= j < x ==> #[trigger] row@[j] == cell_char(diagram@, preview@, j as u16, y),
        decreases width - x,
    {
        let p = Coord { x, y };
        let c = match preview.get(p) {
            Some(g) => g,
            None => match diagram.get(p) {
                Some(g) => g,
                None => ' ',
            },
        };
        row.push(c);
        x = x + 1;
    }
    proof {
        assert(row@ =~= row_chars(diagram@, preview@, width, y));
    }
    row
}

/// The composed frame reshaped as one flat character buffer with a line
/// break after each row, ready for a renderer or for saving as text.
pub fn compose_text(diagram: &Grid, preview: &Grid, width: u16, height: u16) -> (text: Vec<char>)
    ensures
        text@ == screen_text(diagram@, preview@, width, height),
{
    let mut text: Vec<char> = Vec::new();
    let mut y: u16 = 0;
    proof {
        assert(text@ =~= screen_text(diagram@, preview@, width, 0));
    }
    while y < height
        invariant
            y <= height,
            text@ == screen_text(diagram@, preview@, width, y),
        decreases height - y,
    {
        let mut row = compose_row(diagram, preview, width, y);
        text.append(&mut row);
        text.push('\n');
        proof {
            assert(text@ =~= screen_text(diagram@, preview@, width, (y + 1) as u16));
        }
        y = y + 1;
    }
    text
}

} // verus!
