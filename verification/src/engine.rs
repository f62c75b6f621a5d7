use vstd::prelude::*;

use crate::arrow::{arrow_step_map, extend_arrow_preview};
use crate::boxgen::{box_outline, generate_box_preview};
use crate::compose::{cell_char, compose, compose_text, screen_text};
use crate::geom::Coord;
use crate::grid::Grid;

verus! {

/// The editing mode: free text entry, or drawing one of the two shapes.
#[derive(Clone, Copy, Debug, PartialEq, Eq, Structural)]
pub enum Mode {
    Insert,
    DrawBox,
    DrawArrow,
}

/// One logical input command, independent of physical key bindings.
#[derive(Clone, Copy, Debug, PartialEq, Eq, Structural)]
pub enum Command {
    StartBox,
    StartArrow,
    Save,
    Quit,
    Confirm,
    Backspace,
    InsertChar(char),
    MoveLeft,
    MoveRight,
    MoveUp,
    MoveDown,
}

/// The abstract value of an editing session.
#[verifier::ext_equal]
pub ghost struct SessionView {
    pub mode: Mode,
    pub should_quit: bool,
    pub anchor: Coord,
    pub prev_cursor: Coord,
    pub cursor: Coord,
    pub diagram: Map<Coord, char>,
    pub preview: Map<Coord, char>,
    pub width: u16,
    pub height: u16,
}

/// Clamp an index to `[0, bound)`, or to 0 when the bound is 0.
pub open spec fn clamped(v: u16, bound: u16) -> u16 {
    if bound == 0 {
        0
    } else if v < bound {
        v
    } else {
        (bound - 1) as u16
    }
}

/// Cursor after one movement command: one cell along the axis, clamped
/// at the viewport edges; a blocked move leaves the cursor in place.
pub open spec fn moved_cursor(cur: Coord, cmd: Command, width: u16, height: u16) -> Coord {
    match cmd {
        Command::MoveLeft => if cur.x > 0 {
            Coord { x: (cur.x - 1) as u16, y: cur.y }
        } else {
            cur
        },
        Command::MoveRight => if cur.x + 1 < width {
            Coord { x: (cur.x + 1) as u16, y: cur.y }
        } else {
            cur
        },
        Command::MoveUp => if cur.y > 0 {
            Coord { x: cur.x, y: (cur.y - 1) as u16 }
        } else {
            cur
        },
        Command::MoveDown => if cur.y + 1 < height {
            Coord { x: cur.x, y: (cur.y + 1) as u16 }
        } else {
            cur
        },
        _ => cur,
    }
}

/// The session after one command: the mode state machine of the engine.
///
/// Entering a shape mode captures the anchor and discards any preview in
/// progress; confirm in a shape mode merges the preview into the diagram
/// (preview entries win) and returns to insert mode; confirm in insert
/// mode is a newline.  Typing and backspace touch the diagram only in
/// insert mode.  Movement updates the previous-cursor record only when
/// the cursor actually moves, and then feeds the shape generator of the
/// active mode.
pub open spec fn step(v: SessionView, cmd: Command) -> SessionView {
    match cmd {
        Command::Quit => SessionView { should_quit: true, ..v },
        Command::Save => v,
        Command::StartBox => if v.mode == Mode::DrawBox {
            v
        } else {
            SessionView {
                mode: Mode::DrawBox,
                anchor: v.cursor,
                preview: box_outline(v.cursor, v.cursor),
                ..v
            }
        },
        Command::StartArrow => if v.mode == Mode::DrawArrow {
            v
        } else {
            SessionView {
                mode: Mode::DrawArrow,
                anchor: v.cursor,
                preview: Map::empty(),
                ..v
            }
        },
        Command::Confirm => match v.mode {
            Mode::Insert => SessionView {
                cursor: Coord {
                    x: 0,
                    y: if v.cursor.y + 1 < v.height {
                        (v.cursor.y + 1) as u16
                    } else {
                        v.cursor.y
                    },
                },
                ..v
            },
            _ => SessionView {
                mode: Mode::Insert,
                diagram: v.diagram.union_prefer_right(v.preview),
                preview: Map::empty(),
                ..v
            },
        },
        Command::InsertChar(c) => if v.mode == Mode::Insert {
            SessionView {
                diagram: v.diagram.insert(v.cursor, c),
                cursor: Coord {
                    x: if v.cursor.x + 1 < v.width {
                        (v.cursor.x + 1) as u16
                    } else {
                        v.cursor.x
                    },
                    y: v.cursor.y,
                },
                ..v
            }
        } else {
            v
        },
        Command::Backspace => if v.mode == Mode::Insert && v.cursor.x > 0 {
            let np = Coord { x: (v.cursor.x - 1) as u16, y: v.cursor.y };
            SessionView { cursor: np, diagram: v.diagram.remove(np), ..v }
        } else {
            v
        },
        Command::MoveLeft | Command::MoveRight | Command::MoveUp | Command::MoveDown => {
            let target = moved_cursor(v.cursor, cmd, v.width, v.height);
            let moved = if target == v.cursor {
                v
            } else {
                SessionView { prev_cursor: v.cursor, cursor: target, ..v }
            };
            match v.mode {
                Mode::DrawBox => SessionView {
                    preview: box_outline(moved.anchor, moved.cursor),
                    ..moved
                },
                Mode::DrawArrow => SessionView {
                    preview: arrow_step_map(moved.preview, moved.prev_cursor, moved.cursor),
                    ..moved
                },
                Mode::Insert => moved,
            }
        },
    }
}

/// The session after the host supplies this frame's viewport size: the
/// cursor is re-clamped, and in box mode the preview is recomputed
/// against the clamped cursor.
pub open spec fn viewport_view(v: SessionView, width: u16, height: u16) -> SessionView {
    let cur = Coord { x: clamped(v.cursor.x, width), y: clamped(v.cursor.y, height) };
    let v2 = SessionView { width, height, cursor: cur, ..v };
    if v.mode == Mode::DrawBox {
        SessionView { preview: box_outline(v2.anchor, cur), ..v2 }
    } else {
        v2
    }
}

/// A fresh session: insert mode, origin cursor, empty layers, zero
/// viewport.
pub open spec fn init_view() -> SessionView {
    SessionView {
        mode: Mode::Insert,
        should_quit: false,
        anchor: Coord { x: 0, y: 0 },
        prev_cursor: Coord { x: 0, y: 0 },
        cursor: Coord { x: 0, y: 0 },
        diagram: Map::empty(),
        preview: Map::empty(),
        width: 0,
        height: 0,
    }
}

/// Session invariant: the cursor lies inside the viewport (or at 0 on a
/// collapsed axis), the preview is empty in insert mode, and in box mode
/// the preview is exactly the outline spanned by anchor and cursor.
pub open spec fn inv(v: SessionView) -> bool {
    &&& if v.width == 0 {
        v.cursor.x == 0
    } else {
        v.cursor.x < v.width
    }
    &&& if v.height == 0 {
        v.cursor.y == 0
    } else {
        v.cursor.y < v.height
    }
    &&& v.mode == Mode::Insert ==> v.preview == Map::<Coord, char>::empty()
    &&& v.mode == Mode::DrawBox ==> v.preview == box_outline(v.anchor, v.cursor)
}

/// An editing session: the mode, the cursor bookkeeping and the two
/// grid layers.
pub struct EditorState {
    mode: Mode,
    should_quit: bool,
    anchor: Coord,
    prev_cursor: Coord,
    cursor: Coord,
    diagram: Grid,
    preview: Grid,
    width: u16,
    height: u16,
}

impl View for EditorState {
    type V = SessionView;

    closed spec fn view(&self) -> SessionView {
        SessionView {
            mode: self.mode,
            should_quit: self.should_quit,
            anchor: self.anchor,
            prev_cursor: self.prev_cursor,
            cursor: self.cursor,
            diagram: self.diagram@,
            preview: self.preview@,
            width: self.width,
            height: self.height,
        }
    }
}

impl EditorState {
    /// Both grid layers satisfy their store invariant and the session
    /// invariant holds of the abstract state.
    pub closed spec fn wf(self) -> bool {
        self.diagram.wf() && self.preview.wf() && inv(self@)
    }

    /// A fresh session.
    pub fn new() -> (s: EditorState)
        ensures
            s.wf(),
            inv(s@),
            s@ == init_view(),
    {
        let s = EditorState {
            mode: Mode::Insert,
            should_quit: false,
            anchor: Coord { x: 0, y: 0 },
            prev_cursor: Coord { x: 0, y: 0 },
            cursor: Coord { x: 0, y: 0 },
            diagram: Grid::new(),
            preview: Grid::new(),
            width: 0,
            height: 0,
        };
        proof {
            assert(s@ =~= init_view());
        }
        s
    }

    /// Adopt the viewport size supplied by the host for this frame.
    pub fn set_viewport(&mut self, width: u16, height: u16)
        requires
            old(self).wf(),
        ensures
            final(self).wf(),
            inv(final(self)@),
            final(self)@ == viewport_view(old(self)@, width, height),
    {
        let x = if width == 0 {
            0
        } else if self.cursor.x < width {
            self.cursor.x
        } else {
            width - 1
        };
        let y = if height == 0 {
            0
        } else if self.cursor.y < height {
            self.cursor.y
        } else {
            height - 1
        };
        self.cursor = Coord { x, y };
        self.width = width;
        self.height = height;
        if self.mode == Mode::DrawBox {
            generate_box_preview(&mut self.preview, self.anchor, self.cursor);
        }
        proof {
            assert(self@ =~= viewport_view(old(self)@, width, height));
        }
    }

    /// Route one input command through the state machine.
    pub fn apply(&mut self, cmd: Command)
        requires
            old(self).wf(),
        ensures
            final(self).wf(),
            inv(final(self)@),
            final(self)@ == step(old(self)@, cmd),
    {
        match cmd {
            Command::Quit => {
                self.should_quit = true;
            },
            Command::Save => {},
            Command::StartBox => {
                if !(self.mode == Mode::DrawBox) {
                    self.mode = Mode::DrawBox;
                    self.anchor = self.cursor;
                    generate_box_preview(&mut self.preview, self.anchor, self.cursor);
                }
            },
            Command::StartArrow => {
                if !(self.mode == Mode::DrawArrow) {
                    self.mode = Mode::DrawArrow;
                    self.anchor = self.cursor;
                    self.preview.clear();
                }
            },
            Command::Confirm => {
                match self.mode {
                    Mode::Insert => {
                        let y = if (self.cursor.y as u32) + 1 < (self.height as u32) {
                            self.cursor.y + 1
                        } else {
                            self.cursor.y
                        };
                        self.cursor = Coord { x: 0, y };
                    },
                    _ => {
                        self.diagram.merge_from(&self.preview);
                        self.preview.clear();
                        self.mode = Mode::Insert;
                    },
                }
            },
            Command::InsertChar(c) => {
                if self.mode == Mode::Insert {
                    self.diagram.insert(self.cursor, c);
                    let x = if (self.cursor.x as u32) + 1 < (self.width as u32) {
                        self.cursor.x + 1
                    } else {
                        self.cursor.x
                    };
                    self.cursor = Coord { x, y: self.cursor.y };
                }
            },
            Command::Backspace => {
                if self.mode == Mode::Insert && self.cursor.x > 0 {
                    self.cursor = Coord { x: self.cursor.x - 1, y: self.cursor.y };
                    self.diagram.remove(self.cursor);
                }
            },
            Command::MoveLeft | Command::MoveRight | Command::MoveUp | Command::MoveDown => {
                let target = self.movement_target(cmd);
                if !(target == self.cursor) {
                    self.prev_cursor = self.cursor;
                    self.cursor = target;
                }
                match self.mode {
                    Mode::DrawBox => {
                        generate_box_preview(&mut self.preview, self.anchor, self.cursor);
                    },
                    Mode::DrawArrow => {
                        extend_arrow_preview(&mut self.preview, self.prev_cursor, self.cursor);
                    },
                    Mode::Insert => {},
                }
            },
        }
        proof {
            assert(self@ =~= step(old(self)@, cmd));
        }
    }

    /// Where one movement command sends the cursor.
    fn movement_target(&self, cmd: Command) -> (t: Coord)
        ensures
            t == moved_cursor(self@.cursor, cmd, self@.width, self@.height),
    {
        match cmd {
            Command::MoveLeft => if self.cursor.x > 0 {
                Coord { x: self.cursor.x - 1, y: self.cursor.y }
            } else {
                self.cursor
            },
            Command::MoveRight => if (self.cursor.x as u32) + 1 < (self.width as u32) {
                Coord { x: self.cursor.x + 1, y: self.cursor.y }
            } else {
                self.cursor
            },
            Command::MoveUp => if self.cursor.y > 0 {
                Coord { x: self.cursor.x, y: self.cursor.y - 1 }
            } else {
                self.cursor
            },
            Command::MoveDown => if (self.cursor.y as u32) + 1 < (self.height as u32) {
                Coord { x: self.cursor.x, y: self.cursor.y + 1 }
            } else {
                self.cursor
            },
            _ => self.cursor,
        }
    }

    /// The composed frame for the current viewport, as rows of cells.
    pub fn render(&self) -> (rows: Vec<Vec<char>>)
        ensures
            rows@.len() == self@.height,
            forall|i: int| 0 <= i < self@.height ==> (#[trigger] rows@[i])@.len() == self@.width,
            forall|i: int, j: int|
                0 <= i < self@.height && 0 <= j < self@.width ==> #[trigger] rows@[i]@[j]
                    == cell_char(self@.diagram, self@.preview, j as u16, i as u16),
    {
        compose(&self.diagram, &self.preview, self.width, self.height)
    }

    /// The composed frame as one flat character buffer with a line break
    /// after each row, for the renderer and for saving.
    pub fn render_text(&self) -> (text: Vec<char>)
        ensures
            text@ == screen_text(self@.diagram, self@.preview, self@.width, self@.height),
    {
        compose_text(&self.diagram, &self.preview, self.width, self.height)
    }

    pub fn mode(&self) -> (m: Mode)
        ensures
            m == self@.mode,
    {
        self.mode
    }

    pub fn should_quit(&self) -> (b: bool)
        ensures
            b == self@.should_quit,
    {
        self.should_quit
    }

    pub fn cursor(&self) -> (c: Coord)
        ensures
            c == self@.cursor,
    {
        self.cursor
    }

    pub fn anchor(&self) -> (c: Coord)
        ensures
            c == self@.anchor,
    {
        self.anchor
    }

    pub fn prev_cursor(&self) -> (c: Coord)
        ensures
            c == self@.prev_cursor,
    {
        self.prev_cursor
    }

    pub fn viewport(&self) -> (s: (u16, u16))
        ensures
            s.0 == self@.width,
            s.1 == self@.height,
    {
        (self.width, self.height)
    }

    pub fn diagram(&self) -> (g: &Grid)
        requires
            self.wf(),
        ensures
            g@ == self@.diagram,
            g.wf(),
    {
        &self.diagram
    }

    pub fn preview(&self) -> (g: &Grid)
        requires
            self.wf(),
        ensures
            g@ == self@.preview,
            g.wf(),
    {
        &self.preview
    }
}

impl Default for EditorState {
    /// Same fresh session as `new`.
    fn default() -> (s: EditorState)
        ensures
            s.wf(),
            inv(s@),
            s@ == init_view(),
    {
        EditorState::new()
    }
}

/// Law (commit): after confirm in a shape mode, every preview entry
/// appears in the diagram with the same glyph, diagram entries outside
/// the preview are unchanged, the preview is empty, and the session is
/// back in insert mode.
pub proof fn lemma_commit_semantics(v: SessionView)
    requires
        v.mode == Mode::DrawBox || v.mode == Mode::DrawArrow,
    ensures
        forall|k: Coord|
            v.preview.contains_key(k) ==> #[trigger] step(v, Command::Confirm).diagram.contains_key(
                k,
            ) && step(v, Command::Confirm).diagram[k] == v.preview[k],
        forall|k: Coord|
            !v.preview.contains_key(k) ==> ((#[trigger] step(
                v,
                Command::Confirm,
            ).diagram.contains_key(k) <==> v.diagram.contains_key(k)) && (v.diagram.contains_key(k)
                ==> step(v, Command::Confirm).diagram[k] == v.diagram[k])),
        step(v, Command::Confirm).preview == Map::<Coord, char>::empty(),
        step(v, Command::Confirm).mode == Mode::Insert,
{
}

/// Law (mode switch discards): switching from one shape mode to the
/// other without confirming leaves nothing of the old preview.  Entering
/// arrow mode starts from an empty preview; entering box mode starts
/// from the fresh degenerate outline at the cursor.
pub proof fn lemma_mode_switch_discards(v: SessionView)
    ensures
        v.mode == Mode::DrawBox ==> step(v, Command::StartArrow).preview == Map::<
            Coord,
            char,
        >::empty(),
        v.mode == Mode::DrawArrow ==> step(v, Command::StartBox).preview == box_outline(
            v.cursor,
            v.cursor,
        ),
{
}

/// Law (insert/backspace round trip): inserting a character at an
/// unoccupied cell and then backspacing restores the whole session,
/// the diagram included, to its state before the insertion.
pub proof fn lemma_insert_backspace_round_trip(v: SessionView, c: char)
    requires
        v.mode == Mode::Insert,
        v.cursor.x + 1 < v.width,
        !v.diagram.contains_key(v.cursor),
    ensures
        step(step(v, Command::InsertChar(c)), Command::Backspace) == v,
{
    assert(step(step(v, Command::InsertChar(c)), Command::Backspace).diagram =~= v.diagram);
    assert(step(step(v, Command::InsertChar(c)), Command::Backspace) =~= v);
}

} // verus!
