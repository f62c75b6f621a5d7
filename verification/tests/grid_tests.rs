use asciidraw::{classify_move, extend_arrow_preview, generate_box_preview, Coord, Direction, Grid};

fn at(x: u16, y: u16) -> Coord {
    Coord { x, y }
}

#[test]
fn grid_insert_get_remove() {
    let mut g = Grid::new();
    assert_eq!(g.get(at(0, 0)), None);
    g.insert(at(0, 0), 'a');
    g.insert(at(2, 5), 'b');
    assert_eq!(g.get(at(0, 0)), Some('a'));
    assert_eq!(g.get(at(2, 5)), Some('b'));
    assert_eq!(g.len(), 2);
    g.insert(at(0, 0), 'c');
    assert_eq!(g.get(at(0, 0)), Some('c'));
    assert_eq!(g.len(), 2);
    g.remove(at(0, 0));
    assert_eq!(g.get(at(0, 0)), None);
    assert_eq!(g.len(), 1);
    g.remove(at(9, 9));
    assert_eq!(g.len(), 1);
    g.clear();
    assert_eq!(g.len(), 0);
    assert_eq!(g.get(at(2, 5)), None);
}

#[test]
fn grid_merge_prefers_the_other_layer() {
    let mut base = Grid::new();
    base.insert(at(0, 0), 'a');
    base.insert(at(1, 0), 'b');
    let mut over = Grid::new();
    over.insert(at(1, 0), 'x');
    over.insert(at(2, 0), 'y');
    base.merge_from(&over);
    assert_eq!(base.get(at(0, 0)), Some('a'));
    assert_eq!(base.get(at(1, 0)), Some('x'));
    assert_eq!(base.get(at(2, 0)), Some('y'));
    assert_eq!(base.len(), 3);
}

fn box_of(anchor: Coord, cursor: Coord) -> Grid {
    let mut g = Grid::new();
    g.insert(at(9, 9), '?');
    generate_box_preview(&mut g, anchor, cursor);
    g
}

fn grids_equal_on(a: &Grid, b: &Grid, w: u16, h: u16) -> bool {
    if a.len() != b.len() {
        return false;
    }
    for y in 0..h {
        for x in 0..w {
            if a.get(at(x, y)) != b.get(at(x, y)) {
                return false;
            }
        }
    }
    true
}

#[test]
fn box_generation_is_idempotent() {
    let g1 = box_of(at(1, 2), at(5, 6));
    let mut g2 = box_of(at(1, 2), at(5, 6));
    generate_box_preview(&mut g2, at(1, 2), at(5, 6));
    assert!(grids_equal_on(&g1, &g2, 10, 10));
}

#[test]
fn box_degenerate_case_is_one_bottom_right_corner() {
    let g = box_of(at(3, 4), at(3, 4));
    assert_eq!(g.len(), 1);
    assert_eq!(g.get(at(3, 4)), Some('╯'));
}

#[test]
fn box_outline_is_symmetric_in_its_two_points() {
    let g1 = box_of(at(5, 6), at(1, 2));
    let g2 = box_of(at(1, 2), at(5, 6));
    assert!(grids_equal_on(&g1, &g2, 10, 10));
    let g3 = box_of(at(1, 6), at(5, 2));
    assert!(grids_equal_on(&g1, &g3, 10, 10));
}

#[test]
fn box_single_row_and_single_column() {
    let row = box_of(at(1, 1), at(4, 1));
    assert_eq!(row.get(at(1, 1)), Some('╰'));
    assert_eq!(row.get(at(2, 1)), Some('─'));
    assert_eq!(row.get(at(3, 1)), Some('─'));
    assert_eq!(row.get(at(4, 1)), Some('╯'));
    assert_eq!(row.len(), 4);
    let col = box_of(at(1, 1), at(1, 3));
    assert_eq!(col.get(at(1, 1)), Some('╮'));
    assert_eq!(col.get(at(1, 2)), Some('│'));
    assert_eq!(col.get(at(1, 3)), Some('╯'));
    assert_eq!(col.len(), 3);
}

#[test]
fn classify_move_matches_single_cell_steps() {
    assert_eq!(classify_move(at(3, 3), at(4, 3)), Direction::Right);
    assert_eq!(classify_move(at(3, 3), at(2, 3)), Direction::Left);
    assert_eq!(classify_move(at(3, 3), at(3, 4)), Direction::Down);
    assert_eq!(classify_move(at(3, 3), at(3, 2)), Direction::Up);
    assert_eq!(classify_move(at(3, 3), at(3, 3)), Direction::Undetermined);
    assert_eq!(classify_move(at(3, 3), at(5, 3)), Direction::Undetermined);
    assert_eq!(classify_move(at(0, 0), at(1, 1)), Direction::Right);
}

fn arrow_after(head: char, step_to: Coord) -> Option<char> {
    let mut g = Grid::new();
    let prev = at(5, 5);
    g.insert(prev, head);
    extend_arrow_preview(&mut g, prev, step_to);
    g.get(prev)
}

#[test]
fn former_heads_become_segments_or_corners() {
    let right = at(6, 5);
    let left = at(4, 5);
    let down = at(5, 6);
    let up = at(5, 4);
    let jump = at(9, 9);
    assert_eq!(arrow_after('▶', right), Some('─'));
    assert_eq!(arrow_after('▶', left), Some('─'));
    assert_eq!(arrow_after('▶', down), Some('╮'));
    assert_eq!(arrow_after('▶', up), Some('╯'));
    assert_eq!(arrow_after('▶', jump), Some('+'));
    assert_eq!(arrow_after('◀', right), Some('─'));
    assert_eq!(arrow_after('◀', left), Some('─'));
    assert_eq!(arrow_after('◀', down), Some('╭'));
    assert_eq!(arrow_after('◀', up), Some('╰'));
    assert_eq!(arrow_after('◀', jump), Some('+'));
    assert_eq!(arrow_after('▼', right), Some('╰'));
    assert_eq!(arrow_after('▼', left), Some('╯'));
    assert_eq!(arrow_after('▼', down), Some('│'));
    assert_eq!(arrow_after('▼', up), Some('│'));
    assert_eq!(arrow_after('▼', jump), Some('+'));
    assert_eq!(arrow_after('▲', right), Some('╭'));
    assert_eq!(arrow_after('▲', left), Some('╮'));
    assert_eq!(arrow_after('▲', down), Some('│'));
    assert_eq!(arrow_after('▲', up), Some('│'));
    assert_eq!(arrow_after('▲', jump), Some('+'));
}

#[test]
fn head_glyphs_follow_the_movement_direction() {
    let mut g = Grid::new();
    extend_arrow_preview(&mut g, at(5, 5), at(6, 5));
    assert_eq!(g.get(at(6, 5)), Some('▶'));
    extend_arrow_preview(&mut g, at(6, 5), at(5, 5));
    assert_eq!(g.get(at(5, 5)), Some('◀'));
    let mut g2 = Grid::new();
    extend_arrow_preview(&mut g2, at(5, 5), at(5, 6));
    assert_eq!(g2.get(at(5, 6)), Some('▼'));
    extend_arrow_preview(&mut g2, at(5, 6), at(5, 5));
    assert_eq!(g2.get(at(5, 5)), Some('▲'));
    let mut g3 = Grid::new();
    extend_arrow_preview(&mut g3, at(5, 5), at(7, 7));
    assert_eq!(g3.get(at(7, 7)), Some('◆'));
}

#[test]
fn a_foreign_glyph_at_the_previous_cell_is_left_untouched() {
    let mut g = Grid::new();
    g.insert(at(5, 5), '#');
    extend_arrow_preview(&mut g, at(5, 5), at(6, 5));
    assert_eq!(g.get(at(5, 5)), Some('#'));
    assert_eq!(g.get(at(6, 5)), Some('▶'));
}
