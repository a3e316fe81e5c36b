//! Footprint sketch mode — the Fillet tool's gesture and topology.
//!
//! Fillet takes two clicks on lines that share an end point. Which line
//! a click is near is decided by the caller on its coordinates; here
//! the gesture, the shared corner, and how the two lines are re-ended
//! at the tangent points are decided. The tangent points and the arc
//! centre are placed by the caller.

use vstd::prelude::*;
use crate::constraints::{find_kind, kind_of, EntityKindTag, EntityRef};
use crate::draw_tools::LineRef;
use crate::types::{FootprintEditor, FootprintEditorState, SketchEntityId, SketchTool, ToolPending};

verus! {

/// Warning when the first click is not near a line.
pub open spec fn missed_first_text() -> Seq<char> {
    "Fillet: click missed any Line \u{2014} try clicking closer to a line stroke"@
}

/// Warning when the second click is not near another line.
pub open spec fn missed_second_text() -> Seq<char> {
    "Fillet: second click missed a different Line \u{2014} pick the adjacent line"@
}

/// Warning when the two lines have no end point in common.
pub open spec fn no_corner_text() -> Seq<char> {
    "Fillet: the two Lines do not share an endpoint \u{2014} bridge them with a Coincident constraint first"@
}

/// `after` is `before` with the gesture reset, `text` added to the
/// sketch warnings, and, when `redraw`, the canvas due for a redraw.
pub open spec fn warned<P, G>(
    before: FootprintEditor<P, G>,
    after: FootprintEditor<P, G>,
    text: Seq<char>,
    redraw: bool,
) -> bool {
    &&& after.state.solve_warnings@.len() == before.state.solve_warnings@.len() + 1
    &&& forall|i: int|
        0 <= i < before.state.solve_warnings@.len() ==> #[trigger] after.state.solve_warnings@[i]
            == before.state.solve_warnings@[i]
    &&& after.state.solve_warnings@.last()@ == text
    &&& after == (FootprintEditor {
        state: FootprintEditorState {
            tool_pending: ToolPending::Idle,
            solve_warnings: after.state.solve_warnings,
            ..before.state
        },
        canvas_stale: if redraw {
            true
        } else {
            before.canvas_stale
        },
        ..before
    })
}

fn warn<P, G>(editor: &mut FootprintEditor<P, G>, text: &str, redraw: bool)
    ensures
        warned(*old(editor), *final(editor), text@, redraw),
{
    editor.state.solve_warnings.push(String::from_str(text));
    editor.state.tool_pending = ToolPending::Idle;
    if redraw {
        editor.canvas_stale = true;
    }
}

/// A Fillet click; `picked` is the line the click is near, if any.
/// The first click parks its line; the second, on a different line,
/// returns (first, second) to be filleted and ends the gesture. A
/// miss warns and ends the gesture.
pub fn fillet_click<P, G>(editor: &mut FootprintEditor<P, G>, picked: Option<SketchEntityId>) -> (pair:
    Option<(SketchEntityId, SketchEntityId)>)
    ensures
        match old(editor).state.tool_pending {
            ToolPending::FilletFirst { line: first } => match picked {
                Some(second) => if second != first {
                    &&& pair == Some((first, second))
                    &&& *final(editor) == (FootprintEditor {
                        state: FootprintEditorState {
                            tool_pending: ToolPending::Idle,
                            ..old(editor).state
                        },
                        ..*old(editor)
                    })
                } else {
                    pair is None && warned(*old(editor), *final(editor), missed_second_text(), false)
                },
                None => pair is None && warned(*old(editor), *final(editor), missed_second_text(), false),
            },
            _ => match picked {
                Some(id) => {
                    &&& pair is None
                    &&& *final(editor) == (FootprintEditor {
                        state: FootprintEditorState {
                            tool_pending: ToolPending::FilletFirst { line: id },
                            ..old(editor).state
                        },
                        ..*old(editor)
                    })
                },
                None => pair is None && warned(*old(editor), *final(editor), missed_first_text(), false),
            },
        },
{
    match editor.state.tool_pending {
        ToolPending::FilletFirst { line: first } => match picked {
            Some(second) => {
                if second != first {
                    editor.state.tool_pending = ToolPending::Idle;
                    Some((first, second))
                } else {
                    warn(editor, "Fillet: second click missed a different Line \u{2014} pick the adjacent line", false);
                    None
                }
            },
            None => {
                warn(editor, "Fillet: second click missed a different Line \u{2014} pick the adjacent line", false);
                None
            },
        },
        _ => match picked {
            Some(id) => {
                editor.state.tool_pending = ToolPending::FilletFirst { line: id };
                None
            },
            None => {
                warn(editor, "Fillet: click missed any Line \u{2014} try clicking closer to a line stroke", false);
                None
            },
        },
    }
}

/// The corner two lines share, with the far end of each: `a`'s start
/// when it is an end of `b`, else `a`'s end when it is; none otherwise.
pub open spec fn shared_corner(a: LineRef, b: LineRef) -> Option<
    (SketchEntityId, SketchEntityId, SketchEntityId),
> {
    let corner = if a.start == b.start || a.start == b.end {
        Some(a.start)
    } else if a.end == b.start || a.end == b.end {
        Some(a.end)
    } else {
        None
    };
    match corner {
        Some(c) => Some(
            (
                c,
                if a.start == c {
                    a.end
                } else {
                    a.start
                },
                if b.start == c {
                    b.end
                } else {
                    b.start
                },
            ),
        ),
        None => None,
    }
}

/// Two lines have a fillet corner exactly when they share an end
/// point, under any pairing of their ends; the corner is then an end of
/// both lines, and each far end is the other end of its line.
pub proof fn lemma_shared_corner_is_common_end(a: LineRef, b: LineRef)
    ensures
        shared_corner(a, b) is Some <==> (a.start == b.start || a.start == b.end || a.end
            == b.start || a.end == b.end),
        shared_corner(a, b) matches Some((c, fa, fb)) ==> {
            &&& (c == a.start && fa == a.end) || (c == a.end && fa == a.start)
            &&& (c == b.start && fb == b.end) || (c == b.end && fb == b.start)
        },
{
}

/// The shared corner of the two lines to fillet (see `shared_corner`):
/// (corner, far end of `a`, far end of `b`).
pub fn fillet_corner(a: LineRef, b: LineRef) -> (r: Option<(SketchEntityId, SketchEntityId, SketchEntityId)>)
    ensures
        r == shared_corner(a, b),
{
    let corner = if a.start == b.start || a.start == b.end {
        a.start
    } else if a.end == b.start || a.end == b.end {
        a.end
    } else {
        return None;
    };
    let a_other = if a.start == corner {
        a.end
    } else {
        a.start
    };
    let b_other = if b.start == corner {
        b.end
    } else {
        b.start
    };
    Some((corner, a_other, b_other))
}

/// Two lines without a shared corner: warn and end the gesture.
pub fn fillet_no_corner<P, G>(editor: &mut FootprintEditor<P, G>)
    ensures
        warned(*old(editor), *final(editor), no_corner_text(), false),
{
    warn(
        editor,
        "Fillet: the two Lines do not share an endpoint \u{2014} bridge them with a Coincident constraint first",
        false,
    );
}

/// A filleted line re-ended at its tangent point: the end at `corner`
/// (its start when both ends are) moves to `tangent`.
pub fn reattach_at_tangent(line: LineRef, corner: SketchEntityId, tangent: SketchEntityId) -> (r: LineRef)
    ensures
        r == (if line.start == corner {
            LineRef { start: tangent, ..line }
        } else if line.end == corner {
            LineRef { end: tangent, ..line }
        } else {
            line
        }),
{
    if line.start == corner {
        LineRef { start: tangent, ..line }
    } else if line.end == corner {
        LineRef { end: tangent, ..line }
    } else {
        line
    }
}

/// After a fillet the two lines and the arc form a path: each line
/// keeps its far end and ends at its own tangent point, which are the
/// arc's two ends.
pub proof fn lemma_fillet_path(a: LineRef, b: LineRef, ta: SketchEntityId, tb: SketchEntityId)
    requires
        shared_corner(a, b) is Some,
    ensures
        ({
            let (c, a_far, b_far) = shared_corner(a, b).unwrap();
            let a2 = if a.start == c {
                LineRef { start: ta, ..a }
            } else {
                LineRef { end: ta, ..a }
            };
            let b2 = if b.start == c {
                LineRef { start: tb, ..b }
            } else {
                LineRef { end: tb, ..b }
            };
            &&& (a2.start == ta && a2.end == a_far) || (a2.end == ta && a2.start == a_far)
            &&& (b2.start == tb && b2.end == b_far) || (b2.end == tb && b2.start == b_far)
        }),
{
}

/// Warning when Mirror has no selection to mirror across.
pub open spec fn mirror_unselected_text() -> Seq<char> {
    "Mirror: select a Line first (Select tool, click a Line, then click here to mirror)"@
}

/// Warning when Mirror's selection is not a line.
pub open spec fn mirror_not_line_text() -> Seq<char> {
    "Mirror: selection is not a Line \u{2014} pick a Line entity first"@
}

/// The first line of `lines` with id `id`.
pub open spec fn line_ends(lines: Seq<LineRef>, id: SketchEntityId) -> Option<LineRef>
    decreases lines.len(),
{
    if lines.len() == 0 {
        None
    } else if lines[0].id == id {
        Some(lines[0])
    } else {
        line_ends(lines.drop_first(), id)
    }
}

fn find_line(lines: &Vec<LineRef>, id: SketchEntityId) -> (r: Option<LineRef>)
    ensures
        r == line_ends(lines@, id),
{
    let mut i: usize = 0;
    assert(lines@.skip(0) =~= lines@);
    while i < lines.len()
        invariant
            i <= lines@.len(),
            line_ends(lines@, id) == line_ends(lines@.skip(i as int), id),
        decreases lines@.len() - i,
    {
        assert(lines@.skip(i as int).drop_first() =~= lines@.skip(i + 1));
        assert(lines@.skip(i as int)[0] == lines@[i as int]);
        if lines[i].id == id {
            return Some(lines[i]);
        }
        i = i + 1;
    }
    None
}

/// The line Mirror reflects across: the selected sketch entity, which
/// must be a line (`entities` gives the kinds, `lines` the end points
/// of the sketch's lines). Without a selection, or with one that is not
/// a line, a warning is added, the gesture ends and the canvas redraws.
pub fn mirror_axis<P, G>(
    editor: &mut FootprintEditor<P, G>,
    entities: &Vec<EntityRef>,
    lines: &Vec<LineRef>,
) -> (axis: Option<LineRef>)
    ensures
        match old(editor).state.selected_sketch {
            None => axis is None && warned(
                *old(editor),
                *final(editor),
                mirror_unselected_text(),
                true,
            ),
            Some(id) => if kind_of(entities@, id) == Some(EntityKindTag::Line) {
                axis == line_ends(lines@, id) && *final(editor) == *old(editor)
            } else {
                axis is None && warned(*old(editor), *final(editor), mirror_not_line_text(), true)
            },
        },
{
    let id = match editor.state.selected_sketch {
        Some(id) => id,
        None => {
            warn(
                editor,
                "Mirror: select a Line first (Select tool, click a Line, then click here to mirror)",
                true,
            );
            return None;
        },
    };
    match find_kind(entities, id) {
        Some(EntityKindTag::Line) => find_line(lines, id),
        _ => {
            warn(editor, "Mirror: selection is not a Line \u{2014} pick a Line entity first", true);
            None
        },
    }
}

/// Warning when Offset has no selected curve.
pub open spec fn offset_unselected_text() -> Seq<char> {
    "Offset: select a Line / Arc / Circle first (Select tool, click the curve, then click on the side to offset)"@
}

/// Warning when Offset's selected entity is gone from the sketch.
pub open spec fn offset_missing_text() -> Seq<char> {
    "Offset: selection no longer exists in the sketch"@
}

/// The curve Offset copies: the selected sketch entity and its kind
/// (`entities` lists the sketch's entities). Without a selection, or
/// when the selection is gone from the sketch, a warning is added, the
/// gesture ends and the canvas redraws; when it is a point, a warning is
/// added and the gesture ends.
pub fn offset_source<P, G>(editor: &mut FootprintEditor<P, G>, entities: &Vec<EntityRef>) -> (source:
    Option<(SketchEntityId, EntityKindTag)>)
    ensures
        match old(editor).state.selected_sketch {
            None => source is None && warned(
                *old(editor),
                *final(editor),
                offset_unselected_text(),
                true,
            ),
            Some(id) => match kind_of(entities@, id) {
                None => source is None && warned(
                    *old(editor),
                    *final(editor),
                    offset_missing_text(),
                    true,
                ),
                Some(EntityKindTag::Point) => source is None && warned(
                    *old(editor),
                    *final(editor),
                    offset_point_text(),
                    false,
                ),
                Some(k) => source == Some((id, k)) && *final(editor) == *old(editor),
            },
        },
{
    let id = match editor.state.selected_sketch {
        Some(id) => id,
        None => {
            warn(
                editor,
                "Offset: select a Line / Arc / Circle first (Select tool, click the curve, then click on the side to offset)",
                true,
            );
            return None;
        },
    };
    match find_kind(entities, id) {
        None => {
            warn(editor, "Offset: selection no longer exists in the sketch", true);
            None
        },
        Some(EntityKindTag::Point) => {
            warn(editor, "Offset: selection is a Point \u{2014} pick a Line / Arc / Circle", false);
            None
        },
        Some(k) => Some((id, k)),
    }
}

/// Warning when a Trim click is not near a line.
pub open spec fn trim_missed_text() -> Seq<char> {
    "Trim: click missed any Line \u{2014} try clicking closer to a line stroke"@
}

/// Warning when a Break Track click is not near a line.
pub open spec fn break_missed_text() -> Seq<char> {
    "Break Track: click missed any Line \u{2014} try clicking closer to a line stroke"@
}

/// The line a Trim click acts on (`picked`, the line the click is
/// near). A miss warns and ends the gesture.
pub fn trim_target<P, G>(editor: &mut FootprintEditor<P, G>, picked: Option<SketchEntityId>) -> (target:
    Option<SketchEntityId>)
    ensures
        target == picked,
        picked is Some ==> *final(editor) == *old(editor),
        picked is None ==> warned(*old(editor), *final(editor), trim_missed_text(), false),
{
    if picked.is_none() {
        warn(editor, "Trim: click missed any Line \u{2014} try clicking closer to a line stroke", false);
    }
    picked
}

/// The line a Break Track click splits (`picked`, the line the click is
/// near). A miss warns and ends the gesture.
pub fn break_track_target<P, G>(editor: &mut FootprintEditor<P, G>, picked: Option<SketchEntityId>) -> (target:
    Option<SketchEntityId>)
    ensures
        target == picked,
        picked is Some ==> *final(editor) == *old(editor),
        picked is None ==> warned(*old(editor), *final(editor), break_missed_text(), false),
{
    if picked.is_none() {
        warn(
            editor,
            "Break Track: click missed any Line \u{2014} try clicking closer to a line stroke",
            false,
        );
    }
    picked
}

/// Warning when Offset's selection is a point.
pub open spec fn offset_point_text() -> Seq<char> {
    "Offset: selection is a Point \u{2014} pick a Line / Arc / Circle"@
}

/// A pattern (array) a pattern tool asks the sketch to add, with its
/// default expressions.
#[derive(Clone, Copy, Debug, PartialEq, Eq)]
pub enum ArrayRequest {
    /// A grid of copies of `source`.
    Grid {
        source: SketchEntityId,
        nx_expr: &'static str,
        ny_expr: &'static str,
        dx_expr: &'static str,
        dy_expr: &'static str,
    },
    /// Copies of `source` around a new centre point (minted 5 mm to the
    /// right of the click by the caller).
    Polar { source: SketchEntityId, count_expr: &'static str, sweep_angle_expr: &'static str },
}

/// A click of a pattern tool on `source`: a 2×2 grid at 5 mm pitch, or
/// four copies over a full turn; the gesture ends.
pub fn pattern_click<P, G>(
    editor: &mut FootprintEditor<P, G>,
    tool: SketchTool,
    source: SketchEntityId,
) -> (request: ArrayRequest)
    requires
        tool == SketchTool::RectPattern || tool == SketchTool::CircularPattern,
    ensures
        tool == SketchTool::RectPattern ==> (request matches ArrayRequest::Grid {
            source: s,
            nx_expr,
            ny_expr,
            dx_expr,
            dy_expr,
        } && s == source && nx_expr@ == "2"@ && ny_expr@ == "2"@ && dx_expr@ == "5mm"@ && dy_expr@
            == "5mm"@),
        tool == SketchTool::CircularPattern ==> (request matches ArrayRequest::Polar {
            source: s,
            count_expr,
            sweep_angle_expr,
        } && s == source && count_expr@ == "4"@ && sweep_angle_expr@ == "360deg"@),
        *final(editor) == (FootprintEditor {
            state: FootprintEditorState { tool_pending: ToolPending::Idle, ..old(editor).state },
            ..*old(editor)
        }),
{
    editor.state.tool_pending = ToolPending::Idle;
    match tool {
        SketchTool::RectPattern => ArrayRequest::Grid {
            source,
            nx_expr: "2",
            ny_expr: "2",
            dx_expr: "5mm",
            dy_expr: "5mm",
        },
        _ => ArrayRequest::Polar { source, count_expr: "4", sweep_angle_expr: "360deg" },
    }
}

/// Warning when Mirror's line has zero length.
pub open spec fn mirror_degenerate_text() -> Seq<char> {
    "Mirror: degenerate Line (zero length)"@
}

/// Mirror across a zero-length line: warn, end the gesture, redraw.
pub fn mirror_degenerate<P, G>(editor: &mut FootprintEditor<P, G>)
    ensures
        warned(*old(editor), *final(editor), mirror_degenerate_text(), true),
{
    warn(editor, "Mirror: degenerate Line (zero length)", true);
}

/// A sketch entity as Mirror sees it; `R` is a circle's radius.
#[derive(Clone, Copy, Debug, PartialEq, Eq)]
pub enum ShapeRef<R> {
    Point { id: SketchEntityId },
    Line { start: SketchEntityId, end: SketchEntityId },
    Arc { center: SketchEntityId, start: SketchEntityId, end: SketchEntityId, sweep_ccw: bool },
    Circle { center: SketchEntityId, radius: R },
}

/// The points Mirror reflects for `shape`, in order; each reflected
/// point gets a symmetry constraint to its source.
pub open spec fn points_to_mirror<R>(shape: ShapeRef<R>) -> Seq<SketchEntityId> {
    match shape {
        ShapeRef::Point { id } => seq![id],
        ShapeRef::Line { start, end } => seq![start, end],
        ShapeRef::Arc { center, start, end, .. } => seq![center, start, end],
        ShapeRef::Circle { center, .. } => seq![center],
    }
}

/// The mirrored copy of `shape` on the reflected points `m` (in the
/// order of `points_to_mirror`): a reflected arc turns the other way; a
/// point needs no new entity.
pub open spec fn mirrored<R>(shape: ShapeRef<R>, m: Seq<SketchEntityId>) -> Option<ShapeRef<R>> {
    match shape {
        ShapeRef::Point { .. } => None,
        ShapeRef::Line { .. } => Some(ShapeRef::Line { start: m[0], end: m[1] }),
        ShapeRef::Arc { sweep_ccw, .. } => Some(
            ShapeRef::Arc { center: m[0], start: m[1], end: m[2], sweep_ccw: !sweep_ccw },
        ),
        ShapeRef::Circle { radius, .. } => Some(ShapeRef::Circle { center: m[0], radius }),
    }
}

/// The points Mirror reflects (see `points_to_mirror`).
pub fn mirror_points<R>(shape: &ShapeRef<R>) -> (r: Vec<SketchEntityId>)
    ensures
        r@ == points_to_mirror(*shape),
{
    let r = match shape {
        ShapeRef::Point { id } => vec![*id],
        ShapeRef::Line { start, end } => vec![*start, *end],
        ShapeRef::Arc { center, start, end, .. } => vec![*center, *start, *end],
        ShapeRef::Circle { center, .. } => vec![*center],
    };
    assert(r@ =~= points_to_mirror(*shape));
    r
}

/// The mirrored copy of `shape` (see `mirrored`), given the reflected
/// points.
pub fn mirrored_shape<R: Copy>(shape: &ShapeRef<R>, reflected: &Vec<SketchEntityId>) -> (r: Option<
    ShapeRef<R>,
>)
    requires
        reflected@.len() == points_to_mirror(*shape).len(),
    ensures
        r == mirrored(*shape, reflected@),
{
    match shape {
        ShapeRef::Point { .. } => None,
        ShapeRef::Line { .. } => Some(ShapeRef::Line { start: reflected[0], end: reflected[1] }),
        ShapeRef::Arc { sweep_ccw, .. } => Some(
            ShapeRef::Arc {
                center: reflected[0],
                start: reflected[1],
                end: reflected[2],
                sweep_ccw: !*sweep_ccw,
            },
        ),
        ShapeRef::Circle { radius, .. } => Some(
            ShapeRef::Circle { center: reflected[0], radius: *radius },
        ),
    }
}

/// Mirroring the mirror image (on its own points) restores the shape:
/// an arc's winding flips back, everything else is kept.
pub proof fn lemma_mirror_twice<R>(shape: ShapeRef<R>, m: Seq<SketchEntityId>)
    requires
        m.len() == points_to_mirror(shape).len(),
        !(shape is Point),
    ensures
        mirrored(mirrored(shape, m).unwrap(), points_to_mirror(shape)) == Some(shape),
{
}

/// What a Trim click does to the picked line.
#[derive(Clone, Copy, Debug, PartialEq, Eq, Structural)]
pub enum TrimPlan {
    /// No other line crosses it: it is deleted.
    Delete { line: SketchEntityId },
    /// It is cut back to one crossing: the line with its new ends.
    Shorten { line: LineRef },
    /// The clicked stretch between two crossings goes: the line keeps
    /// the part before it, and a new line takes the part after it.
    Split { kept: LineRef, added: LineRef },
}

/// The Trim plan for `line`. The caller has located the crossings
/// along it: `uncrossed` when there are none; `from_start` when no
/// crossing lies before the click and `to_end` when none lies after it.
/// `lo` and `hi` are the new points at the crossings just before and
/// just after the click, `new_line` the id for a split-off line.
pub fn trim_plan(
    line: LineRef,
    uncrossed: bool,
    from_start: bool,
    to_end: bool,
    lo: SketchEntityId,
    hi: SketchEntityId,
    new_line: SketchEntityId,
) -> (plan: TrimPlan)
    ensures
        plan == (if uncrossed {
            TrimPlan::Delete { line: line.id }
        } else if from_start && !to_end {
            TrimPlan::Shorten { line: LineRef { start: hi, ..line } }
        } else if to_end && !from_start {
            TrimPlan::Shorten { line: LineRef { end: lo, ..line } }
        } else {
            TrimPlan::Split {
                kept: LineRef { end: lo, ..line },
                added: LineRef { id: new_line, start: hi, end: line.end },
            }
        }),
{
    if uncrossed {
        TrimPlan::Delete { line: line.id }
    } else if from_start && !to_end {
        TrimPlan::Shorten { line: LineRef { start: hi, ..line } }
    } else if to_end && !from_start {
        TrimPlan::Shorten { line: LineRef { end: lo, ..line } }
    } else {
        TrimPlan::Split {
            kept: LineRef { end: lo, ..line },
            added: LineRef { id: new_line, start: hi, end: line.end },
        }
    }
}

/// Problems the caller finds on its coordinates (or in the sketch's
/// answer) while carrying out a tool.
#[derive(Clone, Copy, Debug, PartialEq, Eq, Structural)]
pub enum ToolProblem {
    /// The two fillet lines are colinear.
    FilletColinear,
    /// The fillet radius does not fit the two lines.
    FilletRadiusTooLarge,
    /// The line to offset has zero length.
    OffsetDegenerate,
    /// Splitting the line dropped a Midpoint constraint on it.
    BreakTrackMidpointDropped,
}

/// The warning for a tool problem.
pub open spec fn problem_text(p: ToolProblem) -> Seq<char> {
    match p {
        ToolProblem::FilletColinear => "Fillet: lines are colinear \u{2014} nothing to round"@,
        ToolProblem::FilletRadiusTooLarge => "Fillet: radius too large for these lines \u{2014} pick a smaller r"@,
        ToolProblem::OffsetDegenerate => "Offset: degenerate Line (zero length)"@,
        ToolProblem::BreakTrackMidpointDropped => "Break Track: a Midpoint constraint on the split Line was dropped"@,
    }
}

/// The split of a Break Track failed: its error, prefixed with the
/// tool's name, is reported and the gesture ends.
pub fn report_break_track_error<P, G>(editor: &mut FootprintEditor<P, G>, error: &str)
    ensures
        warned(*old(editor), *final(editor), "Break Track: "@ + error@, false),
{
    let mut text = String::from_str("Break Track: ");
    crate::text::append_str(&mut text, error);
    editor.state.solve_warnings.push(text);
    editor.state.tool_pending = ToolPending::Idle;
}

/// Report a tool problem: its warning is added and the gesture ends;
/// a degenerate offset line also redraws the canvas.
pub fn report_tool_problem<P, G>(editor: &mut FootprintEditor<P, G>, problem: ToolProblem)
    ensures
        warned(
            *old(editor),
            *final(editor),
            problem_text(problem),
            problem == ToolProblem::OffsetDegenerate,
        ),
{
    match problem {
        ToolProblem::FilletColinear => warn(
            editor,
            "Fillet: lines are colinear \u{2014} nothing to round",
            false,
        ),
        ToolProblem::FilletRadiusTooLarge => warn(
            editor,
            "Fillet: radius too large for these lines \u{2014} pick a smaller r",
            false,
        ),
        ToolProblem::OffsetDegenerate => warn(editor, "Offset: degenerate Line (zero length)", true),
        ToolProblem::BreakTrackMidpointDropped => warn(
            editor,
            "Break Track: a Midpoint constraint on the split Line was dropped",
            false,
        ),
    }
}

} // verus!
