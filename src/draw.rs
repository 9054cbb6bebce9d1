//! Scene rendering: turns a service result into the rectangles a renderer paints.
//!
//! A renderer (a window or an offscreen capture surface) replays the commands in order:
//! each command paints one rectangle at an absolute position, then the surface is presented.
use vstd::prelude::*;

use crate::graphics::{self, Color, Dim, Elm, Elms, Fill, Out, Pos, Rect};
use crate::types::byte_ceil;

verus! {

/// One rectangle to paint, at an absolute position. Its fill is never `Fill::Empty`.
#[derive(Clone, Copy, Debug, PartialEq, Eq)]
pub struct DrawCmd {
    pub rect: Rect,
    pub fill: Fill,
}

/// A coordinate sum, clamped to the coordinate range.
pub open spec fn clamp_sum(a: int, b: int) -> u64 {
    if a + b > u64::MAX {
        u64::MAX
    } else {
        (a + b) as u64
    }
}

/// Position `d` taken relative to `p`.
pub open spec fn offset(p: Pos, d: Pos) -> Pos {
    Pos { x: clamp_sum(p.x as int, d.x as int), y: clamp_sum(p.y as int, d.y as int) }
}

pub open spec fn origin() -> Pos {
    Pos { x: 0, y: 0 }
}

/// The background that every drawing starts with: the whole window, closed black.
pub open spec fn background(dim: Dim) -> DrawCmd {
    DrawCmd { rect: Rect { pos: origin(), dim }, fill: Fill::Closed((0, 0, 0)) }
}

/// Commands for rectangle `r` with fill `f`, relative to position `pos`.
pub open spec fn rect_cmds(pos: Pos, r: Rect, f: Fill) -> Seq<DrawCmd> {
    match f {
        Fill::Empty => Seq::empty(),
        _ => seq![DrawCmd { rect: Rect { pos: offset(pos, r.pos), dim: r.dim }, fill: f }],
    }
}

/// Commands for element `e`, relative to position `pos`: a node draws its own rectangle,
/// then its children relative to its own position.
pub open spec fn elm_cmds(pos: Pos, e: Elm) -> Seq<DrawCmd>
    decreases e,
{
    match e {
        Elm::Rect(r, f) => rect_cmds(pos, r, f),
        Elm::Node(n) => {
            let p = offset(pos, n.rect.pos);
            rect_cmds(p, Rect { pos: origin(), dim: n.rect.dim }, n.fill) + elms_cmds(
                p,
                n.elms@,
            )
        },
    }
}

/// Commands for the elements `es` in order, relative to position `pos`.
pub open spec fn elms_cmds(pos: Pos, es: Seq<Elm>) -> Seq<DrawCmd>
    decreases es,
{
    if es.len() == 0 {
        Seq::empty()
    } else {
        elms_cmds(pos, es.subrange(0, es.len() - 1)) + elm_cmds(pos, es[es.len() - 1])
    }
}

/// Whether a redraw holds exactly one layer, named "screen".
pub open spec fn is_screen_layer(named: Seq<(String, Elm)>) -> bool {
    named.len() == 1 && named[0].0@ == "screen"@
}

/// Commands that draw result `rr` on a window of dimension `dim`.
pub open spec fn scene_cmds(dim: Dim, rr: graphics::Result) -> Seq<DrawCmd> {
    let bg = seq![background(dim)];
    match rr {
        graphics::Result::Drawn(Out::Draw(elm)) => bg + elm_cmds(origin(), elm),
        graphics::Result::Drawn(Out::Redraw(named)) => if is_screen_layer(named@) {
            bg + elm_cmds(origin(), named@[0].1)
        } else {
            bg
        },
        graphics::Result::Failed(_) => bg,
    }
}

/// The color a command paints with.
pub open spec fn fill_color(f: Fill) -> Color {
    match f {
        Fill::Open(c, _) => c,
        Fill::Closed(c) => c,
        Fill::Empty => (0, 0, 0),
    }
}

/// Whether point (x, y) lies in rectangle `r`.
pub open spec fn in_rect(r: Rect, x: int, y: int) -> bool {
    &&& r.pos.x <= x < r.pos.x + r.dim.width
    &&& r.pos.y <= y < r.pos.y + r.dim.height
}

/// Whether a renderer, which paints the points `covers` gives each command, paints every
/// point of a closed rectangle.
pub open spec fn paints_closed_rects(covers: spec_fn(DrawCmd, int, int) -> bool) -> bool {
    forall|c: DrawCmd, x: int, y: int|
        c.fill is Closed && in_rect(c.rect, x, y) ==> #[trigger] covers(c, x, y)
}

/// The color at point (x, y) of a surface that showed `prior`, after a renderer has painted
/// `cmds` in order, each command overwriting the points that `covers` gives it.
pub open spec fn painted(
    prior: spec_fn(int, int) -> Color,
    cmds: Seq<DrawCmd>,
    covers: spec_fn(DrawCmd, int, int) -> bool,
    x: int,
    y: int,
) -> Color
    decreases cmds.len(),
{
    if cmds.len() == 0 {
        prior(x, y)
    } else if covers(cmds.last(), x, y) {
        fill_color(cmds.last().fill)
    } else {
        painted(prior, cmds.drop_last(), covers, x, y)
    }
}

/// The whole surface after painting `cmds` over `prior`.
pub open spec fn surface_after(
    prior: spec_fn(int, int) -> Color,
    cmds: Seq<DrawCmd>,
    covers: spec_fn(DrawCmd, int, int) -> bool,
) -> spec_fn(int, int) -> Color {
    |x: int, y: int| painted(prior, cmds, covers, x, y)
}

proof fn lemma_painted_over_background(
    shown: spec_fn(int, int) -> Color,
    shown_else: spec_fn(int, int) -> Color,
    cmds: Seq<DrawCmd>,
    dim: Dim,
    covers: spec_fn(DrawCmd, int, int) -> bool,
    x: int,
    y: int,
)
    requires
        cmds.len() >= 1,
        cmds[0] == background(dim),
        paints_closed_rects(covers),
        0 <= x < dim.width,
        0 <= y < dim.height,
    ensures
        painted(shown, cmds, covers, x, y) == painted(shown_else, cmds, covers, x, y),
    decreases cmds.len(),
{
    if cmds.len() == 1 {
        assert(in_rect(cmds.last().rect, x, y));
        assert(covers(cmds.last(), x, y));
    } else if !covers(cmds.last(), x, y) {
        lemma_painted_over_background(shown, shown_else, cmds.drop_last(), dim, covers, x, y);
    }
}

/// Drawing a result paints the whole window: what the window showed before does not
/// matter, so drawing the same result twice shows the same pixels as drawing it once.
/// This holds for any renderer that paints every point of a closed rectangle.
pub proof fn lemma_draw_idempotent(
    dim: Dim,
    rr: graphics::Result,
    covers: spec_fn(DrawCmd, int, int) -> bool,
    shown: spec_fn(int, int) -> Color,
    shown_else: spec_fn(int, int) -> Color,
)
    requires
        paints_closed_rects(covers),
    ensures
        forall|x: int, y: int|
            0 <= x < dim.width && 0 <= y < dim.height ==> #[trigger] painted(
                shown,
                scene_cmds(dim, rr),
                covers,
                x,
                y,
            ) == painted(shown_else, scene_cmds(dim, rr), covers, x, y),
        forall|x: int, y: int|
            0 <= x < dim.width && 0 <= y < dim.height ==> #[trigger] painted(
                surface_after(shown, scene_cmds(dim, rr), covers),
                scene_cmds(dim, rr),
                covers,
                x,
                y,
            ) == painted(shown, scene_cmds(dim, rr), covers, x, y),
{
    let cmds = scene_cmds(dim, rr);
    assert(cmds[0] == background(dim));
    let once = surface_after(shown, cmds, covers);
    assert forall|x: int, y: int| 0 <= x < dim.width && 0 <= y < dim.height implies painted(
        shown,
        cmds,
        covers,
        x,
        y,
    ) == painted(shown_else, cmds, covers, x, y) && painted(once, cmds, covers, x, y) == painted(
        shown,
        cmds,
        covers,
        x,
        y,
    ) by {
        lemma_painted_over_background(shown, shown_else, cmds, dim, covers, x, y);
        lemma_painted_over_background(once, shown, cmds, dim, covers, x, y);
    }
}

/// An error result draws exactly the background: no rectangle besides it.
pub proof fn lemma_error_draws_background(dim: Dim, message: Option<String>)
    ensures
        scene_cmds(dim, graphics::Result::Failed(message)) == seq![background(dim)],
{
}

pub fn nat_zero() -> (r: u64)
    ensures
        r == 0,
{
    0
}

/// The rectangle `r`, moved to absolute coordinates relative to `pos`.
pub fn translate_rect(pos: &Pos, r: &Rect) -> (a: Rect)
    ensures
        a == (Rect { pos: offset(*pos, r.pos), dim: r.dim }),
{
    Rect {
        pos: Pos { x: pos.x.saturating_add(r.pos.x), y: pos.y.saturating_add(r.pos.y) },
        dim: r.dim,
    }
}

/// A color as the bytes a surface paints: each component clamped to 255.
pub fn translate_color(c: &Color) -> (b: (u8, u8, u8))
    ensures
        b.0 as int == if c.0 > 255 { 255 } else { c.0 as int },
        b.1 as int == if c.1 > 255 { 255 } else { c.1 as int },
        b.2 as int == if c.2 > 255 { 255 } else { c.2 as int },
{
    (byte_ceil(c.0), byte_ceil(c.1), byte_ceil(c.2))
}

fn draw_rect(cmds: &mut Vec<DrawCmd>, pos: &Pos, r: &Rect, f: &Fill)
    ensures
        final(cmds)@ == old(cmds)@ + rect_cmds(*pos, *r, *f),
{
    match f {
        Fill::Empty => {
            assert(old(cmds)@ + rect_cmds(*pos, *r, *f) =~= old(cmds)@);
        },
        _ => {
            let a = translate_rect(pos, r);
            cmds.push(DrawCmd { rect: a, fill: *f });
            assert(final(cmds)@ =~= old(cmds)@ + rect_cmds(*pos, *r, *f));
        },
    }
}

/// Draws a rectangle of dimension `dim` at `pos` with `fill`, then the elements `elms`
/// relative to `pos`.
pub fn draw_rect_elms(cmds: &mut Vec<DrawCmd>, pos: &Pos, dim: &Dim, fill: &Fill, elms: &Elms)
    ensures
        final(cmds)@ == old(cmds)@ + rect_cmds(
            *pos,
            Rect { pos: origin(), dim: *dim },
            *fill,
        ) + elms_cmds(*pos, elms@),
    decreases elms,
{
    let r = Rect::new(nat_zero(), nat_zero(), dim.width, dim.height);
    draw_rect(cmds, pos, &r, fill);
    let ghost start = cmds@;
    let mut i: usize = 0;
    assert(elms@.subrange(0, 0) =~= Seq::<Elm>::empty());
    assert(start + elms_cmds(*pos, elms@.subrange(0, 0)) =~= start);
    while i < elms.len()
        invariant
            0 <= i <= elms@.len(),
            cmds@ == start + elms_cmds(*pos, elms@.subrange(0, i as int)),
        decreases elms@.len() - i,
    {
        proof {
            assert(decreases_to!(elms => elms@));
            assert(decreases_to!(elms@ => elms@[i as int]));
        }
        draw_elm(cmds, pos, &elms[i]);
        proof {
            let s = elms@.subrange(0, i as int + 1);
            assert(s.subrange(0, s.len() - 1) =~= elms@.subrange(0, i as int));
            assert(s[s.len() - 1] == elms@[i as int]);
        }
        i = i + 1;
    }
    assert(elms@.subrange(0, elms@.len() as int) =~= elms@);
}

/// Draws element `elm` relative to position `pos`.
pub fn draw_elm(cmds: &mut Vec<DrawCmd>, pos: &Pos, elm: &Elm)
    ensures
        final(cmds)@ == old(cmds)@ + elm_cmds(*pos, *elm),
    decreases elm,
{
    match elm {
        Elm::Node(node) => {
            let p = Pos {
                x: pos.x.saturating_add(node.rect.pos.x),
                y: pos.y.saturating_add(node.rect.pos.y),
            };
            draw_rect_elms(cmds, &p, &node.rect.dim, &node.fill, &node.elms);
            assert(final(cmds)@ =~= old(cmds)@ + elm_cmds(*pos, *elm));
        },
        Elm::Rect(r, f) => {
            draw_rect(cmds, pos, r, f);
        },
    }
}

/// The commands that draw result `rr` on a window of dimension `dim`: the background
/// first, then the scene graph at the window origin. An error result draws the
/// background alone, and so does a redraw of anything but a single "screen" layer.
pub fn draw(dim: &Dim, rr: &graphics::Result) -> (cmds: Vec<DrawCmd>)
    ensures
        cmds@ == scene_cmds(*dim, *rr),
{
    let mut cmds: Vec<DrawCmd> = Vec::new();
    let pos = Pos { x: nat_zero(), y: nat_zero() };
    let fill = Fill::Closed((nat_zero(), nat_zero(), nat_zero()));
    let elms: Elms = Vec::new();
    draw_rect_elms(&mut cmds, &pos, dim, &fill, &elms);
    assert(cmds@ =~= seq![background(*dim)]) by {
        assert(elms@ =~= Seq::<Elm>::empty());
    }
    match rr {
        graphics::Result::Drawn(Out::Draw(elm)) => {
            draw_elm(&mut cmds, &pos, elm);
        },
        graphics::Result::Drawn(Out::Redraw(named)) => {
            let screen = String::from_str("screen");
            if named.len() == 1 && named[0].0 == screen {
                draw_elm(&mut cmds, &pos, &named[0].1);
            }
        },
        graphics::Result::Failed(_) => {},
    }
    cmds
}

} // verus!
