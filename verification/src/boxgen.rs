use vstd::prelude::*;

use crate::geom::Coord;
use crate::grid::Grid;

verus! {

pub open spec fn min_u16(a: u16, b: u16) -> u16 {
    if a <= b {
        a
    } else {
        b
    }
}

pub open spec fn max_u16(a: u16, b: u16) -> u16 {
    if a <= b {
        b
    } else {
        a
    }
}

/// Whether `p` lies on the outline of the axis-aligned rectangle with
/// top-left corner `(l, t)` and bottom-right corner `(r, b)`.
pub open spec fn on_outline(l: u16, r: u16, t: u16, b: u16, p: Coord) -> bool {
    ((p.y == t || p.y == b) && l <= p.x <= r) || ((p.x == l || p.x == r) && t <= p.y <= b)
}

/// The glyph drawn at outline cell `p`: a round corner at the four
/// rectangle corners, a vertical edge on the left and right sides, a
/// horizontal edge on the top and bottom rows.  When the rectangle is
/// degenerate and several corners coincide, the later corner of the
/// drawing order wins: bottom-right over bottom-left over top-right over
/// top-left.
pub open spec fn outline_glyph(l: u16, r: u16, t: u16, b: u16, p: Coord) -> char {
    if p == (Coord { x: r, y: b }) {
        '╯'
    } else if p == (Coord { x: l, y: b }) {
        '╰'
    } else if p == (Coord { x: r, y: t }) {
        '╮'
    } else if p == (Coord { x: l, y: t }) {
        '╭'
    } else if p.x == l || p.x == r {
        '│'
    } else {
        '─'
    }
}

/// The whole preview generated by box mode from an anchor and a cursor:
/// the outline of the rectangle the two points span.
pub open spec fn box_outline(anchor: Coord, cursor: Coord) -> Map<Coord, char> {
    let l = min_u16(anchor.x, cursor.x);
    let r = max_u16(anchor.x, cursor.x);
    let t = min_u16(anchor.y, cursor.y);
    let b = max_u16(anchor.y, cursor.y);
    Map::new(|p: Coord| on_outline(l, r, t, b, p), |p: Coord| outline_glyph(l, r, t, b, p))
}

/// Executable twin of `outline_glyph`.
fn glyph_at(l: u16, r: u16, t: u16, b: u16, p: Coord) -> (c: char)
    ensures
        c == outline_glyph(l, r, t, b, p),
{
    if p == (Coord { x: r, y: b }) {
        '╯'
    } else if p == (Coord { x: l, y: b }) {
        '╰'
    } else if p == (Coord { x: r, y: t }) {
        '╮'
    } else if p == (Coord { x: l, y: t }) {
        '╭'
    } else if p.x == l || p.x == r {
        '│'
    } else {
        '─'
    }
}

/// Recompute the box preview from scratch: afterwards `preview` holds
/// exactly the outline of the rectangle spanned by `anchor` and `cursor`.
pub fn generate_box_preview(preview: &mut Grid, anchor: Coord, cursor: Coord)
    requires
        old(preview).wf(),
    ensures
        final(preview).wf(),
        final(preview)@ == box_outline(anchor, cursor),
{
    preview.clear();
    let l = if anchor.x <= cursor.x {
        anchor.x
    } else {
        cursor.x
    };
    let r = if anchor.x <= cursor.x {
        cursor.x
    } else {
        anchor.x
    };
    let t = if anchor.y <= cursor.y {
        anchor.y
    } else {
        cursor.y
    };
    let b = if anchor.y <= cursor.y {
        cursor.y
    } else {
        anchor.y
    };
    let mut x = l;
    while x < r
        invariant
            l <= x <= r,
            preview.wf(),
            forall|p: Coord| #[trigger]
                preview@.contains_key(p) ==> on_outline(l, r, t, b, p) && preview@[p]
                    == outline_glyph(l, r, t, b, p),
            forall|c: u16|
                l <= c < x ==> #[trigger] preview@.contains_key(Coord { x: c, y: t })
                    && preview@.contains_key(Coord { x: c, y: b }),
        decreases r - x,
    {
        let pt = Coord { x, y: t };
        preview.insert(pt, glyph_at(l, r, t, b, pt));
        let pb = Coord { x, y: b };
        preview.insert(pb, glyph_at(l, r, t, b, pb));
        x = x + 1;
    }
    let mut y = t;
    while y < b
        invariant
            t <= y <= b,
            l <= r,
            preview.wf(),
            forall|p: Coord| #[trigger]
                preview@.contains_key(p) ==> on_outline(l, r, t, b, p) && preview@[p]
                    == outline_glyph(l, r, t, b, p),
            forall|c: u16|
                l <= c < r ==> #[trigger] preview@.contains_key(Coord { x: c, y: t })
                    && preview@.contains_key(Coord { x: c, y: b }),
            forall|c: u16|
                t <= c < y ==> #[trigger] preview@.contains_key(Coord { x: l, y: c })
                    && preview@.contains_key(Coord { x: r, y: c }),
        decreases b - y,
    {
        let ghost pre = preview@;
        let pl = Coord { x: l, y };
        preview.insert(pl, glyph_at(l, r, t, b, pl));
        let pr = Coord { x: r, y };
        preview.insert(pr, glyph_at(l, r, t, b, pr));
        proof {
            assert forall|c: u16| l <= c < r implies #[trigger] preview@.contains_key(
                Coord { x: c, y: t },
            ) && preview@.contains_key(Coord { x: c, y: b }) by {
                assert(pre.contains_key(Coord { x: c, y: t }));
                assert(pre.contains_key(Coord { x: c, y: b }));
            }
            assert forall|c: u16| t <= c < y + 1 implies #[trigger] preview@.contains_key(
                Coord { x: l, y: c },
            ) && preview@.contains_key(Coord { x: r, y: c }) by {
                if c < y {
                    assert(pre.contains_key(Coord { x: l, y: c }));
                    assert(pre.contains_key(Coord { x: r, y: c }));
                }
            }
        }
        y = y + 1;
    }
    let c_tl = Coord { x: l, y: t };
    preview.insert(c_tl, glyph_at(l, r, t, b, c_tl));
    let c_tr = Coord { x: r, y: t };
    preview.insert(c_tr, glyph_at(l, r, t, b, c_tr));
    let c_bl = Coord { x: l, y: b };
    preview.insert(c_bl, glyph_at(l, r, t, b, c_bl));
    let c_br = Coord { x: r, y: b };
    preview.insert(c_br, glyph_at(l, r, t, b, c_br));
    proof {
        assert forall|p: Coord| box_outline(anchor, cursor).contains_key(p) implies preview@
            .contains_key(p) by {
            if p.y == t || p.y == b {
                if l <= p.x < r {
                    assert(preview@.contains_key(Coord { x: p.x, y: t }));
                    assert(preview@.contains_key(Coord { x: p.x, y: b }));
                }
                assert(p == (Coord { x: p.x, y: p.y }));
            } else {
                assert((p.x == l || p.x == r) && t <= p.y <= b);
                if t <= p.y < b {
                    assert(preview@.contains_key(Coord { x: l, y: p.y }));
                    assert(preview@.contains_key(Coord { x: r, y: p.y }));
                }
                assert(p == (Coord { x: p.x, y: p.y }));
            }
        }
        assert(final(preview)@ =~= box_outline(anchor, cursor));
    }
}

/// Law: the box generator is a pure function of anchor and cursor — two
/// previews generated from the same pair are identical.
pub proof fn lemma_box_preview_deterministic(
    anchor: Coord,
    cursor: Coord,
    m1: Map<Coord, char>,
    m2: Map<Coord, char>,
)
    requires
        m1 == box_outline(anchor, cursor),
        m2 == box_outline(anchor, cursor),
    ensures
        m1 == m2,
{
}

/// Law: a degenerate box, anchor equal to cursor, is a single occupied
/// cell holding the bottom-right corner glyph.
pub proof fn lemma_box_degenerate(p: Coord)
    ensures
        box_outline(p, p) == map![p => '╯'],
{
    assert(box_outline(p, p) =~= map![p => '╯']);
}

/// Law: the outline does not depend on which of the two spanning points
/// is the anchor and which is the cursor.
pub proof fn lemma_box_symmetric(a: Coord, c: Coord)
    ensures
        box_outline(a, c) == box_outline(c, a),
{
    assert(box_outline(a, c) =~= box_outline(c, a));
}

} // verus!
