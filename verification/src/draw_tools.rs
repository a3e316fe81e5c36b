//! Footprint sketch mode — the drawing tools.
//!
//! Each click of a drawing tool lands on a resolved sketch point (a new
//! or snapped-to `Point` entity). The tools are small state machines
//! over `ToolPending`: a click either parks the point and waits for the
//! next one, or completes the shape, which is returned as a
//! `DrawCommit` for the sketch to mint. Where a shape is completed, the
//! topology of the minted entities (which points the lines and arcs
//! join) is fixed here as well; their coordinates come from the caller.

use vstd::prelude::*;
use crate::constraints::{find_kind, kind_of, ConstraintKind, EntityKindTag, EntityRef};
use crate::types::{FootprintEditor, FootprintEditorState, SketchEntityId, SketchTool, ToolPending};

verus! {

/// A shape completed by a drawing-tool click.
#[derive(Clone, Copy, Debug, PartialEq, Eq, Structural)]
pub enum DrawCommit {
    Line { start: SketchEntityId, end: SketchEntityId },
    Circle { center: SketchEntityId, edge: SketchEntityId },
    Rectangle { first: SketchEntityId, opposite: SketchEntityId },
    RoundedRectangle { first: SketchEntityId, opposite: SketchEntityId },
    Arc { center: SketchEntityId, start: SketchEntityId, end: SketchEntityId },
    TangentArc { first: SketchEntityId, end: SketchEntityId },
}

/// The tools handled here.
pub open spec fn is_drawing_tool(tool: SketchTool) -> bool {
    match tool {
        SketchTool::Select | SketchTool::Point | SketchTool::Line | SketchTool::Circle
        | SketchTool::RoundedRectangle | SketchTool::Rectangle | SketchTool::Arc
        | SketchTool::TangentArc => true,
        _ => false,
    }
}

/// The next pending gesture and the completed shape, if any, after a
/// click of `tool` on point `id` while `pending` was in flight.
pub open spec fn draw_step(tool: SketchTool, pending: ToolPending, id: SketchEntityId) -> (
    ToolPending,
    Option<DrawCommit>,
) {
    match tool {
        SketchTool::Line => match pending {
            ToolPending::LineFirst { first } => (
                ToolPending::LineFirst { first: id },
                Some(DrawCommit::Line { start: first, end: id }),
            ),
            _ => (ToolPending::LineFirst { first: id }, None),
        },
        SketchTool::Circle => match pending {
            ToolPending::CircleCenter { center } => (
                ToolPending::Idle,
                Some(DrawCommit::Circle { center, edge: id }),
            ),
            _ => (ToolPending::CircleCenter { center: id }, None),
        },
        SketchTool::RoundedRectangle => match pending {
            ToolPending::RoundedRectangleFirst { first } => (
                ToolPending::Idle,
                Some(DrawCommit::RoundedRectangle { first, opposite: id }),
            ),
            _ => (ToolPending::RoundedRectangleFirst { first: id }, None),
        },
        SketchTool::Rectangle => match pending {
            ToolPending::RectangleFirst { first } => (
                ToolPending::Idle,
                Some(DrawCommit::Rectangle { first, opposite: id }),
            ),
            _ => (ToolPending::RectangleFirst { first: id }, None),
        },
        SketchTool::Arc => match pending {
            ToolPending::ArcCenter { center } => (
                ToolPending::ArcStart { center, start: id },
                None,
            ),
            ToolPending::ArcStart { center, start } => (
                ToolPending::Idle,
                Some(DrawCommit::Arc { center, start, end: id }),
            ),
            _ => (ToolPending::ArcCenter { center: id }, None),
        },
        SketchTool::TangentArc => match pending {
            ToolPending::TangentArcFirst { first } => (
                ToolPending::Idle,
                Some(DrawCommit::TangentArc { first, end: id }),
            ),
            _ => (ToolPending::TangentArcFirst { first: id }, None),
        },
        _ => (ToolPending::Idle, None),
    }
}

/// `editor` after a drawing-tool click left `pending` in flight: only
/// the pending gesture changes.
pub open spec fn with_pending<P, G>(
    editor: FootprintEditor<P, G>,
    pending: ToolPending,
) -> FootprintEditor<P, G> {
    FootprintEditor {
        state: FootprintEditorState { tool_pending: pending, ..editor.state },
        ..editor
    }
}

/// Select or Point: the point (if any) was already added by the click
/// preamble; the tool drops any gesture in flight.
pub fn select_or_point<P, G>(editor: &mut FootprintEditor<P, G>)
    ensures
        *final(editor) == with_pending(*old(editor), ToolPending::Idle),
{
    editor.state.tool_pending = ToolPending::Idle;
}

/// Line: the first click parks the start point; every further click
/// completes a segment from the parked point and parks the clicked
/// point as the start of the next one (chained lines).
pub fn line<P, G>(editor: &mut FootprintEditor<P, G>, id: SketchEntityId) -> (commit: Option<
    DrawCommit,
>)
    ensures
        *final(editor) == with_pending(
            *old(editor),
            draw_step(SketchTool::Line, old(editor).state.tool_pending, id).0,
        ),
        commit == draw_step(SketchTool::Line, old(editor).state.tool_pending, id).1,
{
    let commit = match editor.state.tool_pending {
        ToolPending::LineFirst { first } => Some(DrawCommit::Line { start: first, end: id }),
        _ => None,
    };
    editor.state.tool_pending = ToolPending::LineFirst { first: id };
    commit
}

/// Circle: centre click, then edge click.
pub fn circle<P, G>(editor: &mut FootprintEditor<P, G>, id: SketchEntityId) -> (commit: Option<
    DrawCommit,
>)
    ensures
        *final(editor) == with_pending(
            *old(editor),
            draw_step(SketchTool::Circle, old(editor).state.tool_pending, id).0,
        ),
        commit == draw_step(SketchTool::Circle, old(editor).state.tool_pending, id).1,
{
    match editor.state.tool_pending {
        ToolPending::CircleCenter { center } => {
            editor.state.tool_pending = ToolPending::Idle;
            Some(DrawCommit::Circle { center, edge: id })
        },
        _ => {
            editor.state.tool_pending = ToolPending::CircleCenter { center: id };
            None
        },
    }
}

/// Rounded rectangle: first corner, then opposite corner.
pub fn rounded_rectangle<P, G>(editor: &mut FootprintEditor<P, G>, id: SketchEntityId) -> (commit:
    Option<DrawCommit>)
    ensures
        *final(editor) == with_pending(
            *old(editor),
            draw_step(SketchTool::RoundedRectangle, old(editor).state.tool_pending, id).0,
        ),
        commit == draw_step(SketchTool::RoundedRectangle, old(editor).state.tool_pending, id).1,
{
    match editor.state.tool_pending {
        ToolPending::RoundedRectangleFirst { first } => {
            editor.state.tool_pending = ToolPending::Idle;
            Some(DrawCommit::RoundedRectangle { first, opposite: id })
        },
        _ => {
            editor.state.tool_pending = ToolPending::RoundedRectangleFirst { first: id };
            None
        },
    }
}

/// Rectangle: first corner, then opposite corner.
pub fn rectangle<P, G>(editor: &mut FootprintEditor<P, G>, id: SketchEntityId) -> (commit: Option<
    DrawCommit,
>)
    ensures
        *final(editor) == with_pending(
            *old(editor),
            draw_step(SketchTool::Rectangle, old(editor).state.tool_pending, id).0,
        ),
        commit == draw_step(SketchTool::Rectangle, old(editor).state.tool_pending, id).1,
{
    match editor.state.tool_pending {
        ToolPending::RectangleFirst { first } => {
            editor.state.tool_pending = ToolPending::Idle;
            Some(DrawCommit::Rectangle { first, opposite: id })
        },
        _ => {
            editor.state.tool_pending = ToolPending::RectangleFirst { first: id };
            None
        },
    }
}

/// Arc: centre, start, then end click.
pub fn arc<P, G>(editor: &mut FootprintEditor<P, G>, id: SketchEntityId) -> (commit: Option<
    DrawCommit,
>)
    ensures
        *final(editor) == with_pending(
            *old(editor),
            draw_step(SketchTool::Arc, old(editor).state.tool_pending, id).0,
        ),
        commit == draw_step(SketchTool::Arc, old(editor).state.tool_pending, id).1,
{
    match editor.state.tool_pending {
        ToolPending::ArcCenter { center } => {
            editor.state.tool_pending = ToolPending::ArcStart { center, start: id };
            None
        },
        ToolPending::ArcStart { center, start } => {
            editor.state.tool_pending = ToolPending::Idle;
            Some(DrawCommit::Arc { center, start, end: id })
        },
        _ => {
            editor.state.tool_pending = ToolPending::ArcCenter { center: id };
            None
        },
    }
}

/// Tangent arc: first click parks the start point, the second
/// completes the arc.
pub fn tangent_arc<P, G>(editor: &mut FootprintEditor<P, G>, id: SketchEntityId) -> (commit: Option<
    DrawCommit,
>)
    ensures
        *final(editor) == with_pending(
            *old(editor),
            draw_step(SketchTool::TangentArc, old(editor).state.tool_pending, id).0,
        ),
        commit == draw_step(SketchTool::TangentArc, old(editor).state.tool_pending, id).1,
{
    match editor.state.tool_pending {
        ToolPending::TangentArcFirst { first } => {
            editor.state.tool_pending = ToolPending::Idle;
            Some(DrawCommit::TangentArc { first, end: id })
        },
        _ => {
            editor.state.tool_pending = ToolPending::TangentArcFirst { first: id };
            None
        },
    }
}

/// Route a click on point `id` to the active drawing tool.
pub fn apply<P, G>(editor: &mut FootprintEditor<P, G>, tool: SketchTool, id: SketchEntityId) -> (commit:
    Option<DrawCommit>)
    requires
        is_drawing_tool(tool),
    ensures
        *final(editor) == with_pending(
            *old(editor),
            draw_step(tool, old(editor).state.tool_pending, id).0,
        ),
        commit == draw_step(tool, old(editor).state.tool_pending, id).1,
{
    match tool {
        SketchTool::Line => line(editor, id),
        SketchTool::Circle => circle(editor, id),
        SketchTool::RoundedRectangle => rounded_rectangle(editor, id),
        SketchTool::Rectangle => rectangle(editor, id),
        SketchTool::Arc => arc(editor, id),
        SketchTool::TangentArc => tangent_arc(editor, id),
        _ => {
            select_or_point(editor);
            None
        },
    }
}

/// A sketch line by its end points.
#[derive(Clone, Copy, Debug, PartialEq, Eq, Structural)]
pub struct LineRef {
    pub id: SketchEntityId,
    pub start: SketchEntityId,
    pub end: SketchEntityId,
}

/// `id` names a point of the sketch (its first entity with that id is
/// a point).
pub open spec fn is_point(entities: Seq<EntityRef>, id: SketchEntityId) -> bool {
    kind_of(entities, id) == Some(EntityKindTag::Point)
}

/// `line` ends (or, failing that, starts) at `first`, and its other
/// end is a point: the line and that other end.
pub open spec fn incident_at(entities: Seq<EntityRef>, line: LineRef, first: SketchEntityId) -> Option<
    (SketchEntityId, SketchEntityId),
> {
    if line.end == first {
        if is_point(entities, line.start) {
            Some((line.id, line.start))
        } else {
            None
        }
    } else if line.start == first {
        if is_point(entities, line.end) {
            Some((line.id, line.end))
        } else {
            None
        }
    } else {
        None
    }
}

/// The most recently drawn line (last in `lines`) incident to `first`,
/// with its other end.
pub open spec fn last_incident(
    entities: Seq<EntityRef>,
    lines: Seq<LineRef>,
    first: SketchEntityId,
) -> Option<(SketchEntityId, SketchEntityId)>
    decreases lines.len(),
{
    if lines.len() == 0 {
        None
    } else {
        match incident_at(entities, lines.last(), first) {
            Some(hit) => Some(hit),
            None => last_incident(entities, lines.drop_last(), first),
        }
    }
}

fn point_known(entities: &Vec<EntityRef>, id: SketchEntityId) -> (r: bool)
    ensures
        r == is_point(entities@, id),
{
    match find_kind(entities, id) {
        Some(EntityKindTag::Point) => true,
        _ => false,
    }
}

/// The line a tangent arc starting at `first` is tangent to: the last
/// of `lines` (the sketch's lines in drawing order) that ends or starts
/// at `first` and whose other end is a point of `entities`.
pub fn incident_line(entities: &Vec<EntityRef>, lines: &Vec<LineRef>, first: SketchEntityId) -> (r:
    Option<(SketchEntityId, SketchEntityId)>)
    ensures
        r == last_incident(entities@, lines@, first),
{
    let mut i: usize = lines.len();
    assert(lines@.subrange(0, i as int) =~= lines@);
    while i > 0
        invariant
            i <= lines@.len(),
            last_incident(entities@, lines@, first) == last_incident(
                entities@,
                lines@.subrange(0, i as int),
                first,
            ),
        decreases i,
    {
        let ghost pre = lines@.subrange(0, i as int);
        assert(pre.drop_last() =~= lines@.subrange(0, i - 1));
        assert(pre.last() == lines@[i - 1]);
        let l = lines[i - 1];
        if l.end == first {
            if point_known(entities, l.start) {
                return Some((l.id, l.start));
            }
        } else if l.start == first {
            if point_known(entities, l.end) {
                return Some((l.id, l.end));
            }
        }
        i = i - 1;
    }
    None
}

/// Warning when a tangent arc finds no line to be tangent to.
pub open spec fn no_incident_line_text() -> Seq<char> {
    "Tangent Arc: no incident line found, placeholder centre"@
}

/// The line a tangent arc from `first` is tangent to (see
/// `incident_line`). When there is none the arc gets a placeholder
/// centre, and a warning says so.
pub fn tangent_arc_line<P, G>(
    editor: &mut FootprintEditor<P, G>,
    entities: &Vec<EntityRef>,
    lines: &Vec<LineRef>,
    first: SketchEntityId,
) -> (r: Option<(SketchEntityId, SketchEntityId)>)
    ensures
        r == last_incident(entities@, lines@, first),
        r is Some ==> *final(editor) == *old(editor),
        r is None ==> {
            &&& final(editor).state.solve_warnings@ == old(editor).state.solve_warnings@.push(
                final(editor).state.solve_warnings@.last(),
            )
            &&& final(editor).state.solve_warnings@.last()@ == no_incident_line_text()
            &&& *final(editor) == (FootprintEditor {
                state: FootprintEditorState {
                    solve_warnings: final(editor).state.solve_warnings,
                    ..old(editor).state
                },
                ..*old(editor)
            })
        },
{
    let r = incident_line(entities, lines, first);
    if r.is_none() {
        editor.state.solve_warnings.push(
            String::from_str("Tangent Arc: no incident line found, placeholder centre"),
        );
    }
    r
}

/// The axis a new line lies along (within 5 degrees; decided by the
/// caller on its coordinates).
#[derive(Clone, Copy, Debug, PartialEq, Eq, Structural)]
pub enum LineAxis {
    Horizontal,
    Vertical,
}

/// The constraint a new line gets when it lies along an axis, so that
/// the alignment survives later edits.
pub fn axis_constraint<D>(line: SketchEntityId, axis: Option<LineAxis>) -> (r: Option<ConstraintKind<D>>)
    ensures
        r == (match axis {
            Some(LineAxis::Horizontal) => Some(ConstraintKind::<D>::Horizontal { line }),
            Some(LineAxis::Vertical) => Some(ConstraintKind::<D>::Vertical { line }),
            None => None,
        }),
{
    match axis {
        Some(LineAxis::Horizontal) => Some(ConstraintKind::Horizontal { line }),
        Some(LineAxis::Vertical) => Some(ConstraintKind::Vertical { line }),
        None => None,
    }
}

/// The closed outline of a rectangle through its four corners, in
/// order: first → mid_a → opposite → mid_b → first.
pub open spec fn rectangle_loop(
    first: SketchEntityId,
    mid_a: SketchEntityId,
    opposite: SketchEntityId,
    mid_b: SketchEntityId,
) -> Seq<(SketchEntityId, SketchEntityId)> {
    seq![(first, mid_a), (mid_a, opposite), (opposite, mid_b), (mid_b, first)]
}

/// The four lines (start, end) of a rectangle whose corners are
/// `first`, `mid_a` (first's y, opposite's x), `opposite` and `mid_b`.
pub fn rectangle_edges(
    first: SketchEntityId,
    mid_a: SketchEntityId,
    opposite: SketchEntityId,
    mid_b: SketchEntityId,
) -> (r: Vec<(SketchEntityId, SketchEntityId)>)
    ensures
        r@ == rectangle_loop(first, mid_a, opposite, mid_b),
{
    let r = vec![(first, mid_a), (mid_a, opposite), (opposite, mid_b), (mid_b, first)];
    assert(r@ =~= rectangle_loop(first, mid_a, opposite, mid_b));
    r
}

/// The twelve points of a rounded rectangle: the four arc centres and,
/// per corner, the two points where its arc meets the straight sides.
#[derive(Clone, Copy, Debug, PartialEq, Eq, Structural)]
pub struct RoundedRectPoints {
    pub tl_c: SketchEntityId,
    pub tr_c: SketchEntityId,
    pub br_c: SketchEntityId,
    pub bl_c: SketchEntityId,
    pub tl_right: SketchEntityId,
    pub tr_left: SketchEntityId,
    pub tr_top: SketchEntityId,
    pub br_top: SketchEntityId,
    pub br_right: SketchEntityId,
    pub bl_left: SketchEntityId,
    pub bl_bot: SketchEntityId,
    pub tl_bot: SketchEntityId,
}

/// The straight sides (start, end): top, right, bottom, left.
pub open spec fn rounded_sides(p: RoundedRectPoints) -> Seq<(SketchEntityId, SketchEntityId)> {
    seq![(p.tl_right, p.tr_left), (p.tr_top, p.br_top), (p.br_right, p.bl_left), (p.bl_bot, p.tl_bot)]
}

/// The corner arcs (centre, start, end), swept counter-clockwise:
/// top-right, bottom-right, bottom-left, top-left.
pub open spec fn rounded_corners(p: RoundedRectPoints) -> Seq<
    (SketchEntityId, SketchEntityId, SketchEntityId),
> {
    seq![
        (p.tr_c, p.tr_left, p.tr_top),
        (p.br_c, p.br_top, p.br_right),
        (p.bl_c, p.bl_left, p.bl_bot),
        (p.tl_c, p.tl_bot, p.tl_right),
    ]
}

/// The sides and corner arcs of a rounded rectangle on points `p`.
pub fn rounded_rectangle_outline(p: RoundedRectPoints) -> (r: (
    Vec<(SketchEntityId, SketchEntityId)>,
    Vec<(SketchEntityId, SketchEntityId, SketchEntityId)>,
))
    ensures
        r.0@ == rounded_sides(p),
        r.1@ == rounded_corners(p),
{
    let sides = vec![
        (p.tl_right, p.tr_left),
        (p.tr_top, p.br_top),
        (p.br_right, p.bl_left),
        (p.bl_bot, p.tl_bot),
    ];
    let corners = vec![
        (p.tr_c, p.tr_left, p.tr_top),
        (p.br_c, p.br_top, p.br_right),
        (p.bl_c, p.bl_left, p.bl_bot),
        (p.tl_c, p.tl_bot, p.tl_right),
    ];
    assert(sides@ =~= rounded_sides(p));
    assert(corners@ =~= rounded_corners(p));
    (sides, corners)
}

/// A rectangle's outline is one closed loop: each line ends where the
/// next one (cyclically) starts.
pub proof fn lemma_rectangle_closed(
    first: SketchEntityId,
    mid_a: SketchEntityId,
    opposite: SketchEntityId,
    mid_b: SketchEntityId,
)
    ensures
        forall|i: int|
            0 <= i < 4 ==> (#[trigger] rectangle_loop(first, mid_a, opposite, mid_b)[i]).1
                == rectangle_loop(first, mid_a, opposite, mid_b)[(i + 1) % 4].0,
{
    let s = rectangle_loop(first, mid_a, opposite, mid_b);
    assert(s[0].1 == s[1].0);
    assert(s[1].1 == s[2].0);
    assert(s[2].1 == s[3].0);
    assert(s[3].1 == s[0].0);
}

/// A rounded rectangle's outline is one closed loop: side `i` ends
/// where corner arc `i` starts, and corner arc `i` ends where side
/// `i + 1` (cyclically) starts.
pub proof fn lemma_rounded_rectangle_closed(p: RoundedRectPoints)
    ensures
        forall|i: int|
            0 <= i < 4 ==> (#[trigger] rounded_sides(p)[i]).1 == rounded_corners(p)[i].1
                && rounded_corners(p)[i].2 == rounded_sides(p)[(i + 1) % 4].0,
{
    let s = rounded_sides(p);
    let c = rounded_corners(p);
    assert(s[0].1 == c[0].1 && c[0].2 == s[1].0);
    assert(s[1].1 == c[1].1 && c[1].2 == s[2].0);
    assert(s[2].1 == c[2].1 && c[2].2 == s[3].0);
    assert(s[3].1 == c[3].1 && c[3].2 == s[0].0);
}

/// Line chaining: after a click on `a`, each further Line click on `b`
/// draws the segment from the previous click to `b` and parks `b`, so
/// consecutive segments share their end points.
pub proof fn lemma_line_chains(pending: ToolPending, a: SketchEntityId, b: SketchEntityId)
    ensures
        draw_step(SketchTool::Line, pending, a).0 == (ToolPending::LineFirst { first: a }),
        draw_step(SketchTool::Line, draw_step(SketchTool::Line, pending, a).0, b)
            == (ToolPending::LineFirst { first: b }, Some(DrawCommit::Line { start: a, end: b })),
{
}

/// From no gesture, the Arc tool takes exactly three clicks (centre,
/// start, end) to draw an arc, and is then idle again.
pub proof fn lemma_arc_three_clicks(c: SketchEntityId, s: SketchEntityId, e: SketchEntityId)
    ensures
        ({
            let p1 = draw_step(SketchTool::Arc, ToolPending::Idle, c);
            let p2 = draw_step(SketchTool::Arc, p1.0, s);
            let p3 = draw_step(SketchTool::Arc, p2.0, e);
            &&& p1.1 is None
            &&& p2.1 is None
            &&& p3 == (ToolPending::Idle, Some(DrawCommit::Arc { center: c, start: s, end: e }))
        }),
{
}

/// The two-click tools (circle, rectangle, rounded rectangle, tangent
/// arc): from no gesture, the first click commits nothing, the second
/// completes the shape through both points and leaves the tool idle.
pub proof fn lemma_two_click_tools(tool: SketchTool, a: SketchEntityId, b: SketchEntityId)
    requires
        tool == SketchTool::Circle || tool == SketchTool::Rectangle || tool
            == SketchTool::RoundedRectangle || tool == SketchTool::TangentArc,
    ensures
        draw_step(tool, ToolPending::Idle, a).1 is None,
        draw_step(tool, draw_step(tool, ToolPending::Idle, a).0, b).0 == ToolPending::Idle,
        draw_step(tool, draw_step(tool, ToolPending::Idle, a).0, b).1 == Some(
            match tool {
                SketchTool::Circle => DrawCommit::Circle { center: a, edge: b },
                SketchTool::Rectangle => DrawCommit::Rectangle { first: a, opposite: b },
                SketchTool::RoundedRectangle => DrawCommit::RoundedRectangle {
                    first: a,
                    opposite: b,
                },
                _ => DrawCommit::TangentArc { first: a, end: b },
            },
        ),
{
}

} // verus!
