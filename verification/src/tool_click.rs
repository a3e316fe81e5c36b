//! Footprint sketch mode — the decisions of a tool click.
//!
//! A click of a sketch tool is resolved in steps: typed placement
//! numbers may pin the click position (`resolve_effective_click`
//! decides which rule applies; the caller does the trigonometry), the
//! click becomes a sketch point (`resolve_click_point`), a pending
//! re-pick of a polar pattern's centre may swallow it
//! (`try_consume_repick_polar_center`), and otherwise the active tool
//! handles it (`tool_family`). `finish_tool_click` consumes the typed
//! numbers.

use vstd::prelude::*;
use crate::draw_tools::{apply as draw_apply, draw_step, DrawCommit};
use crate::types::{
    FootprintEditor, FootprintEditorState, PlacementInputKind, SketchEntityId, SketchTool,
    ToolPending,
};

verus! {

/// Which typed-number rule pins the click position.
#[derive(Clone, Copy, Debug, PartialEq, Eq, Structural)]
pub enum ClickOverride {
    /// Line end from the first point by typed length and/or angle.
    LineTyped { first: SketchEntityId },
    /// Circle edge at the typed radius along the cursor direction.
    CircleRadius { center: SketchEntityId },
    /// Arc start at the typed radius along the cursor direction.
    ArcRadius { center: SketchEntityId },
    /// Arc end swept from the start by the typed angle.
    ArcSweep { center: SketchEntityId, start: SketchEntityId },
    /// Rectangle corner from typed width and/or height.
    RectTyped { first: SketchEntityId },
    /// No rule: the raw click position is used.
    Raw,
}

/// The rule for a click of `tool` while `pending` is in flight.
/// `focused` is the kind of the focused placement field and
/// `focused_value` tells whether its text reads as a number (`Some`)
/// and, if so, whether that number is positive. `typed` lists the
/// kinds whose field (focused or parked) reads as a number.
pub open spec fn click_override(
    tool: SketchTool,
    pending: ToolPending,
    focused: Option<PlacementInputKind>,
    focused_value: Option<bool>,
    typed: Seq<PlacementInputKind>,
) -> ClickOverride {
    match (tool, pending) {
        (SketchTool::Line, ToolPending::LineFirst { first }) => {
            if typed.contains(PlacementInputKind::LineLength) || typed.contains(
                PlacementInputKind::LineAngle,
            ) {
                ClickOverride::LineTyped { first }
            } else {
                ClickOverride::Raw
            }
        },
        (SketchTool::Circle, ToolPending::CircleCenter { center }) => {
            if focused == Some(PlacementInputKind::CircleRadius) && focused_value == Some(true) {
                ClickOverride::CircleRadius { center }
            } else {
                ClickOverride::Raw
            }
        },
        (SketchTool::Arc, ToolPending::ArcCenter { center }) => {
            if focused == Some(PlacementInputKind::ArcRadius) && focused_value == Some(true) {
                ClickOverride::ArcRadius { center }
            } else {
                ClickOverride::Raw
            }
        },
        (SketchTool::Arc, ToolPending::ArcStart { center, start }) => {
            if focused == Some(PlacementInputKind::ArcSweep) && focused_value is Some {
                ClickOverride::ArcSweep { center, start }
            } else {
                ClickOverride::Raw
            }
        },
        (SketchTool::Rectangle, ToolPending::RectangleFirst { first })
        | (SketchTool::RoundedRectangle, ToolPending::RoundedRectangleFirst { first }) => {
            if typed.contains(PlacementInputKind::RectWidth) || typed.contains(
                PlacementInputKind::RectHeight,
            ) {
                ClickOverride::RectTyped { first }
            } else {
                ClickOverride::Raw
            }
        },
        _ => ClickOverride::Raw,
    }
}

fn kind_listed(kinds: &Vec<PlacementInputKind>, kind: PlacementInputKind) -> (r: bool)
    ensures
        r == kinds@.contains(kind),
{
    let mut i: usize = 0;
    while i < kinds.len()
        invariant
            i <= kinds@.len(),
            forall|j: int| 0 <= j < i ==> kinds@[j] != kind,
        decreases kinds@.len() - i,
    {
        if kinds[i] == kind {
            return true;
        }
        i = i + 1;
    }
    false
}

/// Which typed-number rule pins this click (see `click_override`):
/// `focused_value` and `typed` describe what the placement fields read
/// as numbers, as `click_override` states.
pub fn resolve_effective_click<P, G>(
    editor: &FootprintEditor<P, G>,
    focused_value: Option<bool>,
    typed: &Vec<PlacementInputKind>,
) -> (r: ClickOverride)
    ensures
        r == click_override(
            editor.state.active_tool,
            editor.state.tool_pending,
            match editor.state.placement_input {
                Some(p) => Some(p.kind),
                None => None,
            },
            focused_value,
            typed@,
        ),
{
    let focused: Option<PlacementInputKind> = match &editor.state.placement_input {
        Some(p) => Some(p.kind),
        None => None,
    };
    match (editor.state.active_tool, editor.state.tool_pending) {
        (SketchTool::Line, ToolPending::LineFirst { first }) => {
            if kind_listed(typed, PlacementInputKind::LineLength) || kind_listed(
                typed,
                PlacementInputKind::LineAngle,
            ) {
                ClickOverride::LineTyped { first }
            } else {
                ClickOverride::Raw
            }
        },
        (SketchTool::Circle, ToolPending::CircleCenter { center }) => {
            if focused == Some(PlacementInputKind::CircleRadius) && focused_value == Some(true) {
                ClickOverride::CircleRadius { center }
            } else {
                ClickOverride::Raw
            }
        },
        (SketchTool::Arc, ToolPending::ArcCenter { center }) => {
            if focused == Some(PlacementInputKind::ArcRadius) && focused_value == Some(true) {
                ClickOverride::ArcRadius { center }
            } else {
                ClickOverride::Raw
            }
        },
        (SketchTool::Arc, ToolPending::ArcStart { center, start }) => {
            if focused == Some(PlacementInputKind::ArcSweep) && focused_value.is_some() {
                ClickOverride::ArcSweep { center, start }
            } else {
                ClickOverride::Raw
            }
        },
        (SketchTool::Rectangle, ToolPending::RectangleFirst { first })
        | (SketchTool::RoundedRectangle, ToolPending::RoundedRectangleFirst { first }) => {
            if kind_listed(typed, PlacementInputKind::RectWidth) || kind_listed(
                typed,
                PlacementInputKind::RectHeight,
            ) {
                ClickOverride::RectTyped { first }
            } else {
                ClickOverride::Raw
            }
        },
        _ => ClickOverride::Raw,
    }
}

/// How a click becomes a sketch point.
#[derive(Clone, Copy, Debug, PartialEq, Eq, Structural)]
pub enum ClickPoint {
    /// Reuse the snapped-to point, so shapes share end points.
    Snapped { id: SketchEntityId },
    /// Mint a point at the click and make it coincident with `target`.
    MintCoincident { target: SketchEntityId },
    /// Mint a point at the click.
    Mint,
}

/// The snap target honoured for a click: none when typed numbers
/// pinned the position.
pub open spec fn effective_snap(snap: Option<SketchEntityId>, pinned: bool) -> Option<
    SketchEntityId,
> {
    if pinned {
        None
    } else {
        snap
    }
}

/// How a click with snap target `snap` (after `effective_snap`)
/// becomes a point: the Point tool always mints its own point (tied to
/// the target by a coincidence), other tools reuse the target.
pub open spec fn click_point_of(tool: SketchTool, snap: Option<SketchEntityId>) -> ClickPoint {
    match snap {
        Some(target) => if tool == SketchTool::Point {
            ClickPoint::MintCoincident { target }
        } else {
            ClickPoint::Snapped { id: target }
        },
        None => ClickPoint::Mint,
    }
}

/// How a click becomes a point (see `click_point_of`).
pub fn resolve_click_point(tool: SketchTool, snap: Option<SketchEntityId>) -> (r: ClickPoint)
    ensures
        r == click_point_of(tool, snap),
{
    match snap {
        Some(target) => match tool {
            SketchTool::Point => ClickPoint::MintCoincident { target },
            _ => ClickPoint::Snapped { id: target },
        },
        None => ClickPoint::Mint,
    }
}

/// If a polar pattern's centre is being re-picked, the click is
/// consumed: the pending gesture ends and the pattern whose centre
/// becomes the clicked point is returned. Otherwise nothing changes.
pub fn try_consume_repick_polar_center<P, G>(editor: &mut FootprintEditor<P, G>) -> (array: Option<
    SketchEntityId,
>)
    ensures
        match old(editor).state.tool_pending {
            ToolPending::RepickPolarCenter { array_id } => {
                &&& array == Some(array_id)
                &&& *final(editor) == (FootprintEditor {
                    state: FootprintEditorState {
                        tool_pending: ToolPending::Idle,
                        ..old(editor).state
                    },
                    dirty: true,
                    canvas_stale: true,
                    ..*old(editor)
                })
            },
            _ => array == None::<SketchEntityId> && *final(editor) == *old(editor),
        },
{
    match editor.state.tool_pending {
        ToolPending::RepickPolarCenter { array_id } => {
            editor.state.tool_pending = ToolPending::Idle;
            editor.dirty = true;
            editor.canvas_stale = true;
            Some(array_id)
        },
        _ => None,
    }
}

/// The group of tools that handles a click.
#[derive(Clone, Copy, Debug, PartialEq, Eq, Structural)]
pub enum ToolFamily {
    /// Select, Point and the shape-drawing tools.
    Draw,
    /// Mirror, Offset and the patterns.
    Transform,
    /// Fillet, Trim and Break Track.
    Edit,
    /// Drag Track End acts on press, never on click.
    Nothing,
}

/// The group of tools that handles a click of `tool`.
pub open spec fn spec_tool_family(tool: SketchTool) -> ToolFamily {
    match tool {
        SketchTool::Select | SketchTool::Point | SketchTool::Line | SketchTool::Circle
        | SketchTool::RoundedRectangle | SketchTool::Rectangle | SketchTool::Arc
        | SketchTool::TangentArc => ToolFamily::Draw,
        SketchTool::Mirror | SketchTool::Offset | SketchTool::RectPattern
        | SketchTool::CircularPattern => ToolFamily::Transform,
        SketchTool::Fillet | SketchTool::Trim | SketchTool::BreakTrack => ToolFamily::Edit,
        SketchTool::DragTrackEnd => ToolFamily::Nothing,
    }
}

/// The group of tools that handles a click of `tool`.
pub fn tool_family(tool: SketchTool) -> (r: ToolFamily)
    ensures
        r == spec_tool_family(tool),
{
    match tool {
        SketchTool::Select | SketchTool::Point | SketchTool::Line | SketchTool::Circle
        | SketchTool::RoundedRectangle | SketchTool::Rectangle | SketchTool::Arc
        | SketchTool::TangentArc => ToolFamily::Draw,
        SketchTool::Mirror | SketchTool::Offset | SketchTool::RectPattern
        | SketchTool::CircularPattern => ToolFamily::Transform,
        SketchTool::Fillet | SketchTool::Trim | SketchTool::BreakTrack => ToolFamily::Edit,
        SketchTool::DragTrackEnd => ToolFamily::Nothing,
    }
}

/// After a handled click: typed numbers that pinned the click are
/// consumed (focused and parked fields alike), and the footprint is
/// marked changed.
pub fn finish_tool_click<P, G>(editor: &mut FootprintEditor<P, G>, pinned: bool)
    ensures
        final(editor).dirty,
        final(editor).canvas_stale,
        pinned ==> final(editor).state.placement_input is None,
        pinned ==> final(editor).state.placement_input_others@.len() == 0,
        !pinned ==> final(editor).state == old(editor).state,
        final(editor).footprint_count == old(editor).footprint_count,
        final(editor).active_idx == old(editor).active_idx,
        final(editor).silk_f == old(editor).silk_f,
        pinned ==> final(editor).state == (FootprintEditorState {
            placement_input: None,
            placement_input_others: final(editor).state.placement_input_others,
            ..old(editor).state
        }),
{
    if pinned {
        editor.state.placement_input = None;
        editor.state.placement_input_others.clear();
    }
    editor.dirty = true;
    editor.canvas_stale = true;
}

/// What the caller found out about a tool click.
pub struct ToolClickEvent {
    /// The sketch point the click snapped to, if any.
    pub snap: Option<SketchEntityId>,
    /// Whether the focused placement field reads as a number, and if
    /// so whether it is positive (see `click_override`).
    pub focused_value: Option<bool>,
    /// The kinds whose placement field reads as a number.
    pub typed: Vec<PlacementInputKind>,
    /// Whether the typed-number rule could be applied to the click
    /// position (its reference points exist and the cursor is not on
    /// them); only meaningful when a rule applies.
    pub geometry_pinned: bool,
    /// The id the click's point gets when one is minted.
    pub fresh_id: SketchEntityId,
}

/// What a tool click does.
#[derive(Clone, Copy, Debug, PartialEq, Eq, Structural)]
pub struct ToolClickPlan {
    /// The typed-number rule for the click position.
    pub rule: ClickOverride,
    /// Whether typed numbers pinned the click position.
    pub pinned: bool,
    /// How the click becomes a sketch point.
    pub point: ClickPoint,
    /// The click's sketch point.
    pub resolved: SketchEntityId,
    /// The polar pattern whose centre becomes `resolved`, when a re-pick
    /// swallowed the click.
    pub repicked: Option<SketchEntityId>,
    /// The tools that handle the click (when no re-pick swallowed it).
    pub family: ToolFamily,
    /// The shape a drawing tool completed.
    pub commit: Option<DrawCommit>,
}

/// Whether the click position is pinned by typed numbers.
pub open spec fn pinned_by(rule: ClickOverride, geometry_pinned: bool) -> bool {
    rule != ClickOverride::Raw && geometry_pinned
}

/// The point a click resolves to: the snapped-to point, else the
/// freshly minted one.
pub open spec fn resolved_point(point: ClickPoint, fresh_id: SketchEntityId) -> SketchEntityId {
    match point {
        ClickPoint::Snapped { id } => id,
        _ => fresh_id,
    }
}

/// The whole of a sketch-tool click. While placement is paused (Tab)
/// the click is dropped: `None`, nothing changes. Otherwise the
/// typed-number rule is chosen (`click_override`), the click becomes a
/// point (`click_point_of`, ignoring the snap target when typed numbers
/// pinned the position), and then either a pending re-pick of a polar
/// pattern's centre swallows it, or the active tool handles it: a
/// drawing tool takes its step (`draw_step`), the other families are
/// left to the caller with the resolved point. A handled click uses up
/// the typed numbers that pinned it and marks the footprint changed.
pub fn handle_tool_click<P, G>(editor: &mut FootprintEditor<P, G>, event: &ToolClickEvent) -> (plan:
    Option<ToolClickPlan>)
    ensures
        old(editor).state.placement_paused ==> plan is None && *final(editor) == *old(editor),
        !old(editor).state.placement_paused ==> (plan matches Some(p) && {
            let o = old(editor).state;
            let rule = click_override(
                o.active_tool,
                o.tool_pending,
                match o.placement_input {
                    Some(pi) => Some(pi.kind),
                    None => None,
                },
                event.focused_value,
                event.typed@,
            );
            let pinned = pinned_by(rule, event.geometry_pinned);
            let point = click_point_of(o.active_tool, effective_snap(event.snap, pinned));
            let resolved = resolved_point(point, event.fresh_id);
            &&& p.rule == rule
            &&& p.pinned == pinned
            &&& p.point == point
            &&& p.resolved == resolved
            &&& match o.tool_pending {
                ToolPending::RepickPolarCenter { array_id } => {
                    &&& p.repicked == Some(array_id)
                    &&& p.commit is None
                    &&& *final(editor) == (FootprintEditor {
                        state: FootprintEditorState { tool_pending: ToolPending::Idle, ..o },
                        dirty: true,
                        canvas_stale: true,
                        ..*old(editor)
                    })
                },
                _ => {
                    let family = crate::tool_click::spec_tool_family(o.active_tool);
                    let step = draw_step(o.active_tool, o.tool_pending, resolved);
                    &&& p.repicked is None
                    &&& p.family == family
                    &&& p.commit == (if family == ToolFamily::Draw {
                        step.1
                    } else {
                        None
                    })
                    &&& pinned ==> final(editor).state.placement_input_others@.len() == 0
                    &&& *final(editor) == (FootprintEditor {
                        state: FootprintEditorState {
                            tool_pending: if family == ToolFamily::Draw {
                                step.0
                            } else {
                                o.tool_pending
                            },
                            placement_input: if pinned {
                                None
                            } else {
                                o.placement_input
                            },
                            placement_input_others: if pinned {
                                final(editor).state.placement_input_others
                            } else {
                                o.placement_input_others
                            },
                            ..o
                        },
                        dirty: true,
                        canvas_stale: true,
                        ..*old(editor)
                    })
                },
            }
        }),
{
    if editor.state.placement_paused {
        return None;
    }
    let rule = resolve_effective_click(editor, event.focused_value, &event.typed);
    let pinned = match rule {
        ClickOverride::Raw => false,
        _ => event.geometry_pinned,
    };
    let effective = if pinned {
        None
    } else {
        event.snap
    };
    let point = resolve_click_point(editor.state.active_tool, effective);
    let resolved = match point {
        ClickPoint::Snapped { id } => id,
        _ => event.fresh_id,
    };
    let tool = editor.state.active_tool;
    let family = tool_family(tool);
    if let Some(array) = try_consume_repick_polar_center(editor) {
        return Some(ToolClickPlan {
            rule,
            pinned,
            point,
            resolved,
            repicked: Some(array),
            family,
            commit: None,
        });
    }
    let commit = match family {
        ToolFamily::Draw => draw_apply(editor, tool, resolved),
        _ => None,
    };
    finish_tool_click(editor, pinned);
    Some(ToolClickPlan { rule, pinned, point, resolved, repicked: None, family, commit })
}

} // verus!
