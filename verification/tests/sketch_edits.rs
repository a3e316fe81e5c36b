use signex_app::constraints::{EntityKindTag, EntityRef};
use signex_app::draw_tools::LineRef;
use signex_app::line_drag::{arc_victim_points, slide_pivot, ArcRef};
use signex_app::edit_tools::{
    break_track_target, fillet_click, fillet_corner, fillet_no_corner, mirror_axis,
    mirror_degenerate, mirror_points, mirrored_shape, offset_source, pattern_click, report_break_track_error, report_tool_problem,
    reattach_at_tangent, trim_plan, trim_target, ArrayRequest, ShapeRef, ToolProblem, TrimPlan,
};
use signex_app::pad_bridge::{drag_plan, profile_seed_line, sync_pad_role, RoleSync};
use signex_app::types::{
    EditorMode, EditorPad, FootprintEditor, FootprintEditorState, FpLayer, FpSelectionMode,
    PadsTool, PlaceArcPending, SelectionFilter, SketchTool, SnapOptions, ToolPending,
};

fn editor() -> FootprintEditor<(f64, f64), u32> {
    FootprintEditor {
        state: FootprintEditorState {
            pads: Vec::new(),
            mode: EditorMode::Sketch,
            selected_pad: None,
            selected_pads_extra: Vec::new(),
            selected_silk_f: None,
            selected_sketch: None,
            selected_sketch_secondary: None,
            selected_sketch_extra: Vec::new(),
            cursor_mm: None,
            last_click_world_mm: None,
            numeric_buffers: Vec::new(),
            selection_filter: SelectionFilter::all_on(),
            selection_mode_2d: FpSelectionMode::Inside,
            active_bar_menu: None,
            lasso_mode_active: false,
            lasso_vertices: Vec::new(),
            touching_line_active: false,
            touching_line_first: None,
            context_menu: None,
            fit_pending: false,
            active_tool: SketchTool::Fillet,
            tool_pending: ToolPending::Idle,
            construction_mode: false,
            centerline_mode: false,
            placement_input: None,
            placement_input_others: Vec::new(),
            dimension_input: String::new(),
            pads_tool: PadsTool::Select,
            track_first: None,
            place_arc_pending: PlaceArcPending::Idle,
            place_polygon_vertices: Vec::new(),
            placement_paused: false,
            snap_options: SnapOptions { flags: vec![true; 19] },
            move_by_modal: None,
            align_modal: None,
            solve_warnings: Vec::new(),
        },
        footprint_count: 1,
        active_idx: 0,
        silk_f: Vec::new(),
        dirty: false,
        canvas_stale: false,
    }
}

fn pad(number: &str, entity: Option<u64>) -> EditorPad<(f64, f64)> {
    EditorPad {
        number: number.to_string(),
        layer: FpLayer::FCu,
        position: (0.0, 0.0),
        sketch_entity_id: entity,
        corner_entity_ids: None,
    }
}

#[test]
fn fillet_takes_two_different_lines() {
    let mut e = editor();
    assert_eq!(fillet_click(&mut e, Some(10)), None);
    assert_eq!(e.state.tool_pending, ToolPending::FilletFirst { line: 10 });
    assert_eq!(fillet_click(&mut e, Some(11)), Some((10, 11)));
    assert_eq!(e.state.tool_pending, ToolPending::Idle);
    assert!(e.state.solve_warnings.is_empty());
}

#[test]
fn fillet_misses_warn_and_reset() {
    let mut e = editor();
    assert_eq!(fillet_click(&mut e, None), None);
    assert_eq!(e.state.solve_warnings.len(), 1);
    assert!(e.state.solve_warnings[0].starts_with("Fillet: click missed any Line"));
    fillet_click(&mut e, Some(10));
    assert_eq!(fillet_click(&mut e, Some(10)), None);
    assert_eq!(e.state.tool_pending, ToolPending::Idle);
    assert!(e.state.solve_warnings[1].starts_with("Fillet: second click missed a different Line"));
    fillet_no_corner(&mut e);
    assert!(e.state.solve_warnings[2].contains("do not share an endpoint"));
}

#[test]
fn fillet_corner_is_the_shared_end() {
    let a = LineRef { id: 1, start: 10, end: 11 };
    let b = LineRef { id: 2, start: 12, end: 11 };
    assert_eq!(fillet_corner(a, b), Some((11, 10, 12)));
    let c = LineRef { id: 3, start: 10, end: 13 };
    assert_eq!(fillet_corner(a, c), Some((10, 11, 13)));
    let d = LineRef { id: 4, start: 20, end: 21 };
    assert_eq!(fillet_corner(a, d), None);
    assert_eq!(reattach_at_tangent(a, 11, 99), LineRef { id: 1, start: 10, end: 99 });
    assert_eq!(reattach_at_tangent(c, 10, 98), LineRef { id: 3, start: 98, end: 13 });
    assert_eq!(reattach_at_tangent(d, 10, 98), d);
}

#[test]
fn mirror_needs_a_selected_line() {
    let entities = vec![
        EntityRef { id: 1, kind: EntityKindTag::Point },
        EntityRef { id: 2, kind: EntityKindTag::Point },
        EntityRef { id: 3, kind: EntityKindTag::Line },
    ];
    let lines = vec![LineRef { id: 3, start: 1, end: 2 }];
    let mut e = editor();
    assert_eq!(mirror_axis(&mut e, &entities, &lines), None);
    assert!(e.state.solve_warnings[0].starts_with("Mirror: select a Line first"));
    assert!(e.canvas_stale);
    e.state.selected_sketch = Some(1);
    assert_eq!(mirror_axis(&mut e, &entities, &lines), None);
    assert!(e.state.solve_warnings[1].starts_with("Mirror: selection is not a Line"));
    e.state.selected_sketch = Some(3);
    assert_eq!(mirror_axis(&mut e, &entities, &lines), Some(lines[0]));
    assert_eq!(e.state.solve_warnings.len(), 2);
}

#[test]
fn offset_trim_and_break_need_a_target() {
    let entities = vec![
        EntityRef { id: 4, kind: EntityKindTag::Point },
        EntityRef { id: 5, kind: EntityKindTag::Circle },
    ];
    let mut e = editor();
    assert_eq!(offset_source(&mut e, &entities), None);
    assert!(e.state.solve_warnings[0].starts_with("Offset: select a Line / Arc / Circle first"));
    e.state.selected_sketch = Some(5);
    assert_eq!(offset_source(&mut e, &entities), Some((5, EntityKindTag::Circle)));
    assert_eq!(e.state.solve_warnings.len(), 1);
    e.state.selected_sketch = Some(6);
    assert_eq!(offset_source(&mut e, &entities), None);
    assert_eq!(e.state.solve_warnings[1], "Offset: selection no longer exists in the sketch");
    e.state.selected_sketch = Some(4);
    assert_eq!(offset_source(&mut e, &entities), None);
    assert!(e.state.solve_warnings[2].starts_with("Offset: selection is a Point"));
    e.state.solve_warnings.clear();
    assert_eq!(trim_target(&mut e, Some(7)), Some(7));
    assert_eq!(trim_target(&mut e, None), None);
    assert!(e.state.solve_warnings[0].starts_with("Trim: click missed any Line"));
    assert_eq!(break_track_target(&mut e, None), None);
    assert!(e.state.solve_warnings[1].starts_with("Break Track: click missed any Line"));
    assert_eq!(break_track_target(&mut e, Some(8)), Some(8));
}

#[test]
fn pad_list_follows_pad_roles() {
    let mut e = editor();
    e.state.pads = vec![pad("1", Some(100)), pad("2", Some(200)), pad("3", None)];
    e.state.selected_pad = Some(2);
    assert_eq!(sync_pad_role(&mut e, 300, true, pad("4", Some(300))), RoleSync::Added);
    assert_eq!(e.state.pads.len(), 4);
    assert_eq!(sync_pad_role(&mut e, 300, true, pad("5", Some(300))), RoleSync::Unchanged);
    assert_eq!(sync_pad_role(&mut e, 100, false, pad("x", None)), RoleSync::Removed(0));
    let left: Vec<&str> = e.state.pads.iter().map(|p| p.number.as_str()).collect();
    assert_eq!(left, vec!["2", "3", "4"]);
    assert_eq!(e.state.selected_pad, Some(1));
    assert_eq!(sync_pad_role(&mut e, 999, false, pad("x", None)), RoleSync::Unchanged);
    assert!(e.dirty);
}

#[test]
fn profile_pad_seed_prefers_the_selection() {
    let entities = vec![
        EntityRef { id: 1, kind: EntityKindTag::Point },
        EntityRef { id: 2, kind: EntityKindTag::Point },
        EntityRef { id: 3, kind: EntityKindTag::Point },
        EntityRef { id: 10, kind: EntityKindTag::Line },
        EntityRef { id: 11, kind: EntityKindTag::Line },
    ];
    let lines = vec![
        LineRef { id: 10, start: 1, end: 2 },
        LineRef { id: 11, start: 2, end: 3 },
    ];
    let mut e = editor();
    e.state.selected_sketch = Some(3);
    e.state.selected_sketch_extra = vec![11];
    assert_eq!(profile_seed_line(&mut e, &entities, &lines), Some(11));
    e.state.selected_sketch_extra.clear();
    assert_eq!(profile_seed_line(&mut e, &entities, &lines), Some(11));
    e.state.selected_sketch = Some(2);
    assert_eq!(profile_seed_line(&mut e, &entities, &lines), Some(10));
    e.state.selected_sketch = None;
    assert_eq!(profile_seed_line(&mut e, &entities, &lines), Some(10));
    assert!(e.state.solve_warnings.is_empty());
    let points_only = vec![EntityRef { id: 1, kind: EntityKindTag::Point }];
    assert_eq!(profile_seed_line(&mut e, &points_only, &vec![]), None);
    assert!(e.state.solve_warnings[0].contains("no Lines in the sketch"));
}

#[test]
fn pattern_tools_request_default_arrays() {
    let mut e = editor();
    e.state.tool_pending = ToolPending::LineFirst { first: 1 };
    let grid = pattern_click(&mut e, SketchTool::RectPattern, 7);
    assert_eq!(
        grid,
        ArrayRequest::Grid { source: 7, nx_expr: "2", ny_expr: "2", dx_expr: "5mm", dy_expr: "5mm" }
    );
    assert_eq!(e.state.tool_pending, ToolPending::Idle);
    let polar = pattern_click(&mut e, SketchTool::CircularPattern, 8);
    assert_eq!(polar, ArrayRequest::Polar { source: 8, count_expr: "4", sweep_angle_expr: "360deg" });
    report_tool_problem(&mut e, ToolProblem::FilletColinear);
    assert_eq!(e.state.solve_warnings[0], "Fillet: lines are colinear \u{2014} nothing to round");
    assert!(!e.canvas_stale);
    report_tool_problem(&mut e, ToolProblem::OffsetDegenerate);
    assert_eq!(e.state.solve_warnings[1], "Offset: degenerate Line (zero length)");
    assert!(e.canvas_stale);
}

#[test]
fn mirror_reflects_points_and_flips_arcs() {
    let arc: ShapeRef<f64> = ShapeRef::Arc { center: 1, start: 2, end: 3, sweep_ccw: true };
    assert_eq!(mirror_points(&arc), vec![1, 2, 3]);
    let m = mirrored_shape(&arc, &vec![11, 12, 13]);
    assert_eq!(m, Some(ShapeRef::Arc { center: 11, start: 12, end: 13, sweep_ccw: false }));
    let back = mirrored_shape(&m.unwrap(), &vec![1, 2, 3]);
    assert_eq!(back, Some(arc));
    let circle: ShapeRef<f64> = ShapeRef::Circle { center: 4, radius: 2.5 };
    assert_eq!(mirror_points(&circle), vec![4]);
    assert_eq!(mirrored_shape(&circle, &vec![14]), Some(ShapeRef::Circle { center: 14, radius: 2.5 }));
    let line: ShapeRef<f64> = ShapeRef::Line { start: 5, end: 6 };
    assert_eq!(mirrored_shape(&line, &vec![15, 16]), Some(ShapeRef::Line { start: 15, end: 16 }));
    let point: ShapeRef<f64> = ShapeRef::Point { id: 7 };
    assert_eq!(mirror_points(&point), vec![7]);
    assert_eq!(mirrored_shape(&point, &vec![17]), None);
    let mut e = editor();
    mirror_degenerate(&mut e);
    assert_eq!(e.state.solve_warnings, vec!["Mirror: degenerate Line (zero length)".to_string()]);
    assert!(e.canvas_stale);
}

#[test]
fn dragging_a_pad_centre_takes_its_corners_along() {
    let mut a = pad("1", Some(100));
    a.corner_entity_ids = Some(vec![101, 102, 103, 104]);
    let mut b = pad("2", Some(200));
    b.corner_entity_ids = Some(vec![201, 202, 203, 204]);
    let pads = vec![a, b, pad("3", Some(300))];
    let centre = drag_plan(&pads, 200);
    assert_eq!(centre.centre_pad, Some(1));
    assert_eq!(centre.also_move, vec![201, 202, 203, 204]);
    assert_eq!(centre.corner_pad, None);
    let corner = drag_plan(&pads, 103);
    assert_eq!(corner.centre_pad, None);
    assert!(corner.also_move.is_empty());
    assert_eq!(corner.corner_pad, Some(0));
    let plain = drag_plan(&pads, 300);
    assert_eq!(plain.centre_pad, Some(2));
    assert!(plain.also_move.is_empty());
    let none = drag_plan(&pads, 999);
    assert_eq!(none.centre_pad, None);
    assert_eq!(none.corner_pad, None);
}

#[test]
fn dragging_a_line_moves_touching_corner_arcs() {
    // Line 1 -> 2; arc A ends at 2 with centre 10 and other end 3;
    // arc B is unrelated; arc C joins both ends of the line.
    let arcs = vec![
        ArcRef { id: 20, center: 10, start: 2, end: 3 },
        ArcRef { id: 21, center: 11, start: 5, end: 6 },
        ArcRef { id: 22, center: 12, start: 1, end: 2 },
        ArcRef { id: 23, center: 10, start: 7, end: 1 },
    ];
    let mut v = arc_victim_points(&arcs, 1, 2);
    v.sort();
    assert_eq!(v, vec![3, 7, 10, 12]);
    assert!(arc_victim_points(&arcs, 40, 41).is_empty());
}

#[test]
fn line_ends_slide_along_a_single_neighbour() {
    let lines = vec![
        LineRef { id: 1, start: 10, end: 11 },
        LineRef { id: 2, start: 11, end: 12 },
        LineRef { id: 3, start: 13, end: 10 },
        LineRef { id: 4, start: 10, end: 14 },
    ];
    // Dragging line 1: end 11 meets only line 2.
    assert_eq!(slide_pivot(&lines, 1, 11), Some(12));
    // End 10 meets lines 3 and 4: no unique neighbour.
    assert_eq!(slide_pivot(&lines, 1, 10), None);
    // A free end.
    assert_eq!(slide_pivot(&lines, 2, 12), None);
    // Dragging line 4: 10 meets lines 1 and 3.
    assert_eq!(slide_pivot(&lines, 4, 14), None);
    assert_eq!(slide_pivot(&lines, 3, 13), None);
}

#[test]
fn trim_deletes_shortens_or_splits() {
    let l = LineRef { id: 1, start: 10, end: 11 };
    assert_eq!(trim_plan(l, true, true, true, 20, 21, 30), TrimPlan::Delete { line: 1 });
    assert_eq!(
        trim_plan(l, false, true, false, 20, 21, 30),
        TrimPlan::Shorten { line: LineRef { id: 1, start: 21, end: 11 } }
    );
    assert_eq!(
        trim_plan(l, false, false, true, 20, 21, 30),
        TrimPlan::Shorten { line: LineRef { id: 1, start: 10, end: 20 } }
    );
    assert_eq!(
        trim_plan(l, false, false, false, 20, 21, 30),
        TrimPlan::Split {
            kept: LineRef { id: 1, start: 10, end: 20 },
            added: LineRef { id: 30, start: 21, end: 11 },
        }
    );
}

#[test]
fn break_track_errors_are_reported_with_the_tool_name() {
    let mut e = editor();
    e.state.tool_pending = ToolPending::FilletFirst { line: 3 };
    report_break_track_error(&mut e, "line not found");
    assert_eq!(e.state.solve_warnings, vec!["Break Track: line not found".to_string()]);
    assert_eq!(e.state.tool_pending, ToolPending::Idle);
}
