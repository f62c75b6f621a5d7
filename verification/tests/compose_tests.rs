use asciidraw::{compose, compose_text, Command, Coord, EditorState, Grid};

fn at(x: u16, y: u16) -> Coord {
    Coord { x, y }
}

#[test]
fn compose_returns_height_rows_of_width_chars() {
    let diagram = Grid::new();
    let preview = Grid::new();
    for (w, h) in [(0u16, 0u16), (1, 1), (5, 3), (3, 5), (80, 24)] {
        let rows = compose(&diagram, &preview, w, h);
        assert_eq!(rows.len(), h as usize);
        for row in rows.iter() {
            assert_eq!(row.len(), w as usize);
        }
    }
}

#[test]
fn compose_shape_holds_with_content_outside_the_viewport() {
    let mut diagram = Grid::new();
    diagram.insert(at(7, 9), 'z');
    let mut preview = Grid::new();
    preview.insert(at(4, 4), 'p');
    let rows = compose(&diagram, &preview, 3, 2);
    assert_eq!(rows.len(), 2);
    for row in rows.iter() {
        assert_eq!(row.len(), 3);
    }
}

#[test]
fn preview_wins_over_diagram_and_empty_cells_are_spaces() {
    let mut diagram = Grid::new();
    diagram.insert(at(1, 1), 'd');
    diagram.insert(at(0, 0), 'a');
    let mut preview = Grid::new();
    preview.insert(at(1, 1), 'p');
    let rows = compose(&diagram, &preview, 3, 2);
    assert_eq!(rows[0], vec!['a', ' ', ' ']);
    assert_eq!(rows[1], vec![' ', 'p', ' ']);
}

#[test]
fn compose_text_breaks_lines_after_each_row() {
    let mut diagram = Grid::new();
    diagram.insert(at(0, 0), 'a');
    diagram.insert(at(2, 1), 'b');
    let preview = Grid::new();
    let text: String = compose_text(&diagram, &preview, 3, 2).into_iter().collect();
    assert_eq!(text, "a  \n  b\n");
}

#[test]
fn compose_text_of_an_empty_viewport_is_empty() {
    let diagram = Grid::new();
    let preview = Grid::new();
    assert_eq!(compose_text(&diagram, &preview, 0, 0).len(), 0);
    assert_eq!(compose_text(&diagram, &preview, 5, 0).len(), 0);
    let only_breaks: String = compose_text(&diagram, &preview, 0, 2).into_iter().collect();
    assert_eq!(only_breaks, "\n\n");
}

#[test]
fn render_text_matches_the_session_layers() {
    let mut s = EditorState::new();
    s.set_viewport(4, 2);
    s.apply(Command::InsertChar('h'));
    s.apply(Command::InsertChar('i'));
    s.apply(Command::StartBox);
    let text: String = s.render_text().into_iter().collect();
    assert_eq!(text, "hi╯ \n    \n");
}
