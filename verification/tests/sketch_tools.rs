use signex_app::constraints::{ConstraintKind, EntityKindTag, EntityRef};
use signex_app::dispatch::{
    apply_footprint_primitive_edit, concern_of, mutates_footprint_state, Concern,
    FootprintMsgKind,
};
use signex_app::draw_tools::{
    apply, arc, axis_constraint, circle, incident_line, tangent_arc_line, LineAxis, rectangle_edges, rounded_rectangle,
    rounded_rectangle_outline, select_or_point, tangent_arc, DrawCommit, LineRef,
    RoundedRectPoints,
};
use signex_app::tool_click::{
    finish_tool_click, handle_tool_click, resolve_click_point, resolve_effective_click, tool_family,
    try_consume_repick_polar_center, ClickOverride, ClickPoint, ToolClickEvent, ToolFamily,
};
use signex_app::types::{
    EditorMode, FootprintEditor, FootprintEditorState, FpSelectionMode, PadsTool,
    PlaceArcPending, PlacementInput, PlacementInputKind, SelectionFilter, SketchTool,
    SnapOptions, ToolPending,
};

fn editor() -> FootprintEditor<(f64, f64), u32> {
    FootprintEditor {
        state: FootprintEditorState {
            pads: Vec::new(),
            mode: EditorMode::Sketch,
            selected_pad: None,
            selected_pads_extra: Vec::new(),
            selected_silk_f: None,
            selected_sketch: None,
            selected_sketch_secondary: None,
            selected_sketch_extra: Vec::new(),
            cursor_mm: None,
            last_click_world_mm: None,
            numeric_buffers: Vec::new(),
            selection_filter: SelectionFilter::all_on(),
            selection_mode_2d: FpSelectionMode::Inside,
            active_bar_menu: None,
            lasso_mode_active: false,
            lasso_vertices: Vec::new(),
            touching_line_active: false,
            touching_line_first: None,
            context_menu: None,
            fit_pending: false,
            active_tool: SketchTool::Line,
            tool_pending: ToolPending::Idle,
            construction_mode: false,
            centerline_mode: false,
            placement_input: None,
            placement_input_others: Vec::new(),
            dimension_input: String::new(),
            pads_tool: PadsTool::Select,
            track_first: None,
            place_arc_pending: PlaceArcPending::Idle,
            place_polygon_vertices: Vec::new(),
            placement_paused: false,
            snap_options: SnapOptions { flags: vec![true; 19] },
            move_by_modal: None,
            align_modal: None,
            solve_warnings: Vec::new(),
        },
        footprint_count: 1,
        active_idx: 0,
        silk_f: Vec::new(),
        dirty: false,
        canvas_stale: false,
    }
}

#[test]
fn line_tool_chains_segments() {
    let mut e = editor();
    assert_eq!(signex_app::draw_tools::line(&mut e, 1), None);
    assert_eq!(e.state.tool_pending, ToolPending::LineFirst { first: 1 });
    assert_eq!(signex_app::draw_tools::line(&mut e, 2), Some(DrawCommit::Line { start: 1, end: 2 }));
    assert_eq!(signex_app::draw_tools::line(&mut e, 3), Some(DrawCommit::Line { start: 2, end: 3 }));
    assert_eq!(e.state.tool_pending, ToolPending::LineFirst { first: 3 });
}

#[test]
fn arc_tool_takes_three_clicks() {
    let mut e = editor();
    assert_eq!(arc(&mut e, 10), None);
    assert_eq!(arc(&mut e, 11), None);
    assert_eq!(e.state.tool_pending, ToolPending::ArcStart { center: 10, start: 11 });
    assert_eq!(
        arc(&mut e, 12),
        Some(DrawCommit::Arc { center: 10, start: 11, end: 12 })
    );
    assert_eq!(e.state.tool_pending, ToolPending::Idle);
}

#[test]
fn two_click_tools_commit_on_second_click() {
    let mut e = editor();
    assert_eq!(circle(&mut e, 1), None);
    assert_eq!(circle(&mut e, 2), Some(DrawCommit::Circle { center: 1, edge: 2 }));
    assert_eq!(rounded_rectangle(&mut e, 3), None);
    assert_eq!(
        rounded_rectangle(&mut e, 4),
        Some(DrawCommit::RoundedRectangle { first: 3, opposite: 4 })
    );
    assert_eq!(tangent_arc(&mut e, 5), None);
    assert_eq!(tangent_arc(&mut e, 6), Some(DrawCommit::TangentArc { first: 5, end: 6 }));
    assert_eq!(e.state.tool_pending, ToolPending::Idle);
}

#[test]
fn switching_tools_mid_gesture_restarts() {
    let mut e = editor();
    e.state.tool_pending = ToolPending::CircleCenter { center: 1 };
    assert_eq!(apply(&mut e, SketchTool::Rectangle, 2), None);
    assert_eq!(e.state.tool_pending, ToolPending::RectangleFirst { first: 2 });
    assert_eq!(
        apply(&mut e, SketchTool::Rectangle, 3),
        Some(DrawCommit::Rectangle { first: 2, opposite: 3 })
    );
    e.state.tool_pending = ToolPending::LineFirst { first: 4 };
    select_or_point(&mut e);
    assert_eq!(e.state.tool_pending, ToolPending::Idle);
    assert_eq!(apply(&mut e, SketchTool::Point, 9), None);
}

#[test]
fn rectangle_outline_is_closed() {
    let edges = rectangle_edges(1, 2, 3, 4);
    assert_eq!(edges, vec![(1, 2), (2, 3), (3, 4), (4, 1)]);
    for i in 0..4 {
        assert_eq!(edges[i].1, edges[(i + 1) % 4].0);
    }
}

#[test]
fn rounded_rectangle_outline_alternates_sides_and_arcs() {
    let p = RoundedRectPoints {
        tl_c: 1,
        tr_c: 2,
        br_c: 3,
        bl_c: 4,
        tl_right: 5,
        tr_left: 6,
        tr_top: 7,
        br_top: 8,
        br_right: 9,
        bl_left: 10,
        bl_bot: 11,
        tl_bot: 12,
    };
    let (sides, corners) = rounded_rectangle_outline(p);
    assert_eq!(sides, vec![(5, 6), (7, 8), (9, 10), (11, 12)]);
    assert_eq!(corners, vec![(2, 6, 7), (3, 8, 9), (4, 10, 11), (1, 12, 5)]);
    for i in 0..4 {
        assert_eq!(sides[i].1, corners[i].1);
        assert_eq!(corners[i].2, sides[(i + 1) % 4].0);
    }
}

fn pt(id: u64) -> EntityRef {
    EntityRef { id, kind: EntityKindTag::Point }
}

#[test]
fn tangent_arc_uses_the_latest_incident_line() {
    let entities = vec![
        pt(1),
        pt(2),
        pt(3),
        EntityRef { id: 10, kind: EntityKindTag::Line },
        EntityRef { id: 11, kind: EntityKindTag::Line },
    ];
    let lines = vec![
        LineRef { id: 10, start: 1, end: 2 },
        LineRef { id: 11, start: 3, end: 2 },
    ];
    assert_eq!(incident_line(&entities, &lines, 2), Some((11, 3)));
    assert_eq!(incident_line(&entities, &lines, 1), Some((10, 2)));
    assert_eq!(incident_line(&entities, &lines, 7), None);
    // The far end must be a point of the sketch.
    let only_line = vec![LineRef { id: 12, start: 99, end: 2 }];
    assert_eq!(incident_line(&entities, &only_line, 2), None);
}

#[test]
fn typed_numbers_pick_the_click_rule() {
    let mut e = editor();
    e.state.tool_pending = ToolPending::LineFirst { first: 4 };
    assert_eq!(resolve_effective_click(&e, None, &vec![]), ClickOverride::Raw);
    assert_eq!(
        resolve_effective_click(&e, None, &vec![PlacementInputKind::LineAngle]),
        ClickOverride::LineTyped { first: 4 }
    );
    e.state.active_tool = SketchTool::Circle;
    e.state.tool_pending = ToolPending::CircleCenter { center: 8 };
    e.state.placement_input = Some(PlacementInput {
        buffer: "2".to_string(),
        kind: PlacementInputKind::CircleRadius,
    });
    assert_eq!(
        resolve_effective_click(&e, Some(true), &vec![PlacementInputKind::CircleRadius]),
        ClickOverride::CircleRadius { center: 8 }
    );
    assert_eq!(
        resolve_effective_click(&e, Some(false), &vec![PlacementInputKind::CircleRadius]),
        ClickOverride::Raw
    );
    e.state.active_tool = SketchTool::Arc;
    e.state.tool_pending = ToolPending::ArcStart { center: 1, start: 2 };
    e.state.placement_input = Some(PlacementInput {
        buffer: "-90".to_string(),
        kind: PlacementInputKind::ArcSweep,
    });
    assert_eq!(
        resolve_effective_click(&e, Some(false), &vec![]),
        ClickOverride::ArcSweep { center: 1, start: 2 }
    );
}

#[test]
fn clicks_become_points() {
    assert_eq!(
        resolve_click_point(SketchTool::Point, Some(5)),
        ClickPoint::MintCoincident { target: 5 }
    );
    assert_eq!(resolve_click_point(SketchTool::Line, Some(5)), ClickPoint::Snapped { id: 5 });
    assert_eq!(resolve_click_point(SketchTool::Line, None), ClickPoint::Mint);
}

#[test]
fn repick_polar_center_swallows_the_click() {
    let mut e = editor();
    assert_eq!(try_consume_repick_polar_center(&mut e), None);
    assert!(!e.dirty);
    e.state.tool_pending = ToolPending::RepickPolarCenter { array_id: 42 };
    assert_eq!(try_consume_repick_polar_center(&mut e), Some(42));
    assert_eq!(e.state.tool_pending, ToolPending::Idle);
    assert!(e.dirty);
}

#[test]
fn tools_route_to_their_family() {
    assert_eq!(tool_family(SketchTool::TangentArc), ToolFamily::Draw);
    assert_eq!(tool_family(SketchTool::Mirror), ToolFamily::Transform);
    assert_eq!(tool_family(SketchTool::BreakTrack), ToolFamily::Edit);
    assert_eq!(tool_family(SketchTool::DragTrackEnd), ToolFamily::Nothing);
}

#[test]
fn pinned_click_consumes_typed_numbers() {
    let mut e = editor();
    e.state.placement_input = Some(PlacementInput {
        buffer: "3".to_string(),
        kind: PlacementInputKind::LineLength,
    });
    e.state.placement_input_others = vec![PlacementInput {
        buffer: "45".to_string(),
        kind: PlacementInputKind::LineAngle,
    }];
    finish_tool_click(&mut e, false);
    assert!(e.state.placement_input.is_some());
    finish_tool_click(&mut e, true);
    assert!(e.state.placement_input.is_none());
    assert!(e.state.placement_input_others.is_empty());
    assert!(e.dirty);
}

#[test]
fn ui_messages_take_no_undo_snapshot() {
    assert!(!mutates_footprint_state(FootprintMsgKind::CursorAt));
    assert!(!mutates_footprint_state(FootprintMsgKind::CutPad));
    assert!(!mutates_footprint_state(FootprintMsgKind::Save));
    assert!(mutates_footprint_state(FootprintMsgKind::AddPad));
    assert!(mutates_footprint_state(FootprintMsgKind::SketchPlacementInputTab));
    assert!(mutates_footprint_state(FootprintMsgKind::SelectPads));
    assert_eq!(concern_of(FootprintMsgKind::SketchToolClick), Concern::SketchTools);
    assert_eq!(concern_of(FootprintMsgKind::Symbol), Concern::Ignored);
    assert!(!mutates_footprint_state(FootprintMsgKind::Symbol));
    let mut e = editor();
    let r = apply_footprint_primitive_edit(&mut e, FootprintMsgKind::Symbol, None, &vec![]);
    assert!(!r.snapshot);
    assert!(!e.dirty);
    assert_eq!(concern_of(FootprintMsgKind::MoveByConfirm), Concern::ActiveBar);
}

#[test]
fn pad_role_on_a_line_makes_a_pad_from_its_profile() {
    let mut e = editor();
    let entities = vec![pt(1), EntityRef { id: 2, kind: EntityKindTag::Line }];
    let r = apply_footprint_primitive_edit(&mut e, FootprintMsgKind::SketchSetRole, Some(2), &entities);
    assert_eq!(r.msg, FootprintMsgKind::SketchMakePadFromProfile);
    assert!(r.snapshot);
    assert_eq!(r.concern, Concern::SketchPadBridge);
    assert_eq!(e.state.selected_sketch, Some(2));
    let mut e2 = editor();
    let r2 = apply_footprint_primitive_edit(&mut e2, FootprintMsgKind::SketchSetRole, Some(1), &entities);
    assert_eq!(r2.msg, FootprintMsgKind::SketchSetRole);
    assert_eq!(e2.state.selected_sketch, None);
}

#[test]
fn paused_placement_drops_clicks() {
    let mut e = editor();
    e.state.active_tool = SketchTool::Point;
    let click = ToolClickEvent {
        snap: Some(3),
        focused_value: None,
        typed: Vec::new(),
        geometry_pinned: false,
        fresh_id: 20,
    };
    e.state.placement_paused = true;
    assert_eq!(handle_tool_click(&mut e, &click), None);
    assert!(!e.dirty);
    e.state.placement_paused = false;
    let plan = handle_tool_click(&mut e, &click).unwrap();
    assert_eq!(plan.point, ClickPoint::MintCoincident { target: 3 });
    assert_eq!(plan.resolved, 20);
    assert_eq!(plan.family, ToolFamily::Draw);
    assert_eq!(plan.commit, None);
    assert!(e.dirty);
}

#[test]
fn tool_click_runs_the_whole_gesture() {
    let mut e = editor();
    e.state.tool_pending = ToolPending::LineFirst { first: 4 };
    let snapped = ToolClickEvent {
        snap: Some(9),
        focused_value: None,
        typed: Vec::new(),
        geometry_pinned: false,
        fresh_id: 30,
    };
    let plan = handle_tool_click(&mut e, &snapped).unwrap();
    assert_eq!(plan.rule, ClickOverride::Raw);
    assert!(!plan.pinned);
    assert_eq!(plan.point, ClickPoint::Snapped { id: 9 });
    assert_eq!(plan.resolved, 9);
    assert_eq!(plan.commit, Some(DrawCommit::Line { start: 4, end: 9 }));
    assert_eq!(e.state.tool_pending, ToolPending::LineFirst { first: 9 });

    // Typed length pins the end point: the snap target is ignored and
    // the typed numbers are used up.
    e.state.placement_input = Some(PlacementInput {
        buffer: "5".to_string(),
        kind: PlacementInputKind::LineLength,
    });
    let typed = ToolClickEvent {
        snap: Some(2),
        focused_value: Some(true),
        typed: vec![PlacementInputKind::LineLength],
        geometry_pinned: true,
        fresh_id: 31,
    };
    let plan = handle_tool_click(&mut e, &typed).unwrap();
    assert_eq!(plan.rule, ClickOverride::LineTyped { first: 9 });
    assert!(plan.pinned);
    assert_eq!(plan.point, ClickPoint::Mint);
    assert_eq!(plan.resolved, 31);
    assert_eq!(plan.commit, Some(DrawCommit::Line { start: 9, end: 31 }));
    assert!(e.state.placement_input.is_none());

    // A pending re-pick of a polar centre swallows the click.
    e.state.tool_pending = ToolPending::RepickPolarCenter { array_id: 77 };
    let plan = handle_tool_click(&mut e, &snapped).unwrap();
    assert_eq!(plan.repicked, Some(77));
    assert_eq!(plan.commit, None);
    assert_eq!(e.state.tool_pending, ToolPending::Idle);

    // Transform tools are left to the caller with the resolved point.
    e.state.active_tool = SketchTool::Mirror;
    let plan = handle_tool_click(&mut e, &snapped).unwrap();
    assert_eq!(plan.family, ToolFamily::Transform);
    assert_eq!(plan.resolved, 9);
    assert_eq!(plan.commit, None);
}

#[test]
fn tangent_arc_without_a_line_warns() {
    let entities = vec![pt(1), pt(2), EntityRef { id: 10, kind: EntityKindTag::Line }];
    let lines = vec![LineRef { id: 10, start: 1, end: 2 }];
    let mut e = editor();
    assert_eq!(tangent_arc_line(&mut e, &entities, &lines, 2), Some((10, 1)));
    assert!(e.state.solve_warnings.is_empty());
    assert_eq!(tangent_arc_line(&mut e, &entities, &lines, 5), None);
    assert_eq!(
        e.state.solve_warnings,
        vec!["Tangent Arc: no incident line found, placeholder centre".to_string()]
    );
}

#[test]
fn axis_aligned_lines_get_a_constraint() {
    assert_eq!(
        axis_constraint::<f64>(7, Some(LineAxis::Horizontal)),
        Some(ConstraintKind::Horizontal { line: 7 })
    );
    assert_eq!(
        axis_constraint::<f64>(7, Some(LineAxis::Vertical)),
        Some(ConstraintKind::Vertical { line: 7 })
    );
    assert_eq!(axis_constraint::<f64>(7, None), None);
}
