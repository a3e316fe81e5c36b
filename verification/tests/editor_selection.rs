use signex_app::active_bar::{flip_layer, toggle_active_bar_menu};
use signex_app::context_menu::{close, show};
use signex_app::selection::{
    delete_selected, lasso_add_vertex, lasso_arm, lasso_commit, select_off_grid_pads,
    select_active_idx, select_overlapped, select_pad, select_pads, toggle_selection_filter,
};
use signex_app::sketch_ui::{set_tool, toggle_centerline, toggle_construction};
use signex_app::types::{
    EditorMode, EditorPad, FootprintActiveBarMenu, FootprintContextTarget, FootprintEditor,
    FootprintEditorState, FpLayer, FpSelectionMode, PadsTool, PlaceArcPending, SelectionFilter,
    SelectionFilterKind, SketchTool, SnapOptions, ToolPending,
};

type Mm = (f64, f64);

fn pad(number: &str, position: Mm) -> EditorPad<Mm> {
    EditorPad {
        number: number.to_string(),
        layer: FpLayer::FCu,
        position,
        sketch_entity_id: None,
        corner_entity_ids: None,
    }
}

fn editor(pads: Vec<EditorPad<Mm>>) -> FootprintEditor<Mm, u32> {
    FootprintEditor {
        state: FootprintEditorState {
            pads,
            mode: EditorMode::Normal,
            selected_pad: None,
            selected_pads_extra: Vec::new(),
            selected_silk_f: None,
            selected_sketch: None,
            selected_sketch_secondary: None,
            selected_sketch_extra: Vec::new(),
            cursor_mm: None,
            last_click_world_mm: None,
            numeric_buffers: Vec::new(),
            selection_filter: SelectionFilter::all_on(),
            selection_mode_2d: FpSelectionMode::Inside,
            active_bar_menu: None,
            lasso_mode_active: false,
            lasso_vertices: Vec::new(),
            touching_line_active: false,
            touching_line_first: None,
            context_menu: None,
            fit_pending: false,
            active_tool: SketchTool::Select,
            tool_pending: ToolPending::Idle,
            construction_mode: false,
            centerline_mode: false,
            placement_input: None,
            placement_input_others: Vec::new(),
            dimension_input: String::new(),
            pads_tool: PadsTool::Select,
            track_first: None,
            place_arc_pending: PlaceArcPending::Idle,
            place_polygon_vertices: Vec::new(),
            placement_paused: false,
            snap_options: SnapOptions { flags: vec![true; 19] },
            move_by_modal: None,
            align_modal: None,
            solve_warnings: Vec::new(),
        },
        footprint_count: 1,
        active_idx: 0,
        silk_f: Vec::new(),
        dirty: false,
        canvas_stale: false,
    }
}

fn four_pads() -> FootprintEditor<Mm, u32> {
    editor(vec![
        pad("1", (0.0, 0.0)),
        pad("2", (1.0, 0.0)),
        pad("3", (2.0, 0.0)),
        pad("4", (3.0, 0.0)),
    ])
}

#[test]
fn select_pads_sorts_and_dedups() {
    let mut e = four_pads();
    e.state.cursor_mm = Some((5.0, 5.0));
    select_pads(&mut e, vec![3, 1, 3]);
    assert_eq!(e.state.selected_pad, Some(1));
    assert_eq!(e.state.selected_pads_extra, vec![3]);
    assert_eq!(e.state.last_click_world_mm, Some((5.0, 5.0)));
    select_pads(&mut e, vec![]);
    assert_eq!(e.state.selected_pad, None);
    assert!(e.state.selected_pads_extra.is_empty());
}

#[test]
fn select_pad_replaces_multi_selection() {
    let mut e = four_pads();
    select_pads(&mut e, vec![0, 2]);
    e.state.selected_silk_f = Some(0);
    select_pad(&mut e, Some(3));
    assert_eq!(e.state.selected_pad, Some(3));
    assert!(e.state.selected_pads_extra.is_empty());
    assert_eq!(e.state.selected_silk_f, None);
    assert!(e.canvas_stale);
}

#[test]
fn lasso_selects_exactly_the_pads_inside() {
    let mut e = four_pads();
    lasso_arm(&mut e);
    assert!(e.state.lasso_mode_active);
    lasso_add_vertex(&mut e, (0.5, -1.0));
    lasso_add_vertex(&mut e, (2.5, -1.0));
    lasso_add_vertex(&mut e, (2.5, 1.0));
    assert_eq!(e.state.lasso_vertices.len(), 3);
    lasso_commit(&mut e, &vec![false, true, true, false]);
    assert_eq!(e.state.selected_pad, Some(1));
    assert_eq!(e.state.selected_pads_extra, vec![2]);
    assert!(e.state.lasso_vertices.is_empty());
    assert!(!e.state.lasso_mode_active);
}

#[test]
fn lasso_with_no_hit_clears_selection() {
    let mut e = four_pads();
    select_pads(&mut e, vec![0, 1]);
    lasso_arm(&mut e);
    lasso_commit(&mut e, &vec![false, false, false, false]);
    assert_eq!(e.state.selected_pad, None);
    assert!(e.state.selected_pads_extra.is_empty());
}

#[test]
fn select_overlapped_cycles_both_ways() {
    let mut e = four_pads();
    e.state.last_click_world_mm = Some((1.0, 0.0));
    let under = vec![true, false, true, true];
    select_overlapped(&mut e, true, &under);
    assert_eq!(e.state.selected_pad, Some(0));
    select_overlapped(&mut e, true, &under);
    assert_eq!(e.state.selected_pad, Some(2));
    select_overlapped(&mut e, true, &under);
    assert_eq!(e.state.selected_pad, Some(3));
    select_overlapped(&mut e, true, &under);
    assert_eq!(e.state.selected_pad, Some(0));
    select_overlapped(&mut e, false, &under);
    assert_eq!(e.state.selected_pad, Some(3));
}

#[test]
fn select_overlapped_without_click_only_closes_menu() {
    let mut e = four_pads();
    e.state.active_bar_menu = Some(FootprintActiveBarMenu::Select);
    select_overlapped(&mut e, true, &vec![true, true, true, true]);
    assert_eq!(e.state.selected_pad, None);
    assert_eq!(e.state.active_bar_menu, None);
}

#[test]
fn off_grid_pads_become_the_selection() {
    let mut e = four_pads();
    select_off_grid_pads(&mut e, &vec![false, true, false, true]);
    assert_eq!(e.state.selected_pad, Some(1));
    assert_eq!(e.state.selected_pads_extra, vec![3]);
}

#[test]
fn delete_selected_removes_exactly_the_selected_pads() {
    let mut e = four_pads();
    select_pads(&mut e, vec![0, 2]);
    let victims = delete_selected(&mut e);
    assert!(victims.is_empty());
    let left: Vec<&str> = e.state.pads.iter().map(|p| p.number.as_str()).collect();
    assert_eq!(left, vec!["2", "4"]);
    assert!(e.dirty);
}

#[test]
fn delete_selected_in_sketch_mode_hands_back_entities_once() {
    let mut e = four_pads();
    e.state.mode = EditorMode::Sketch;
    e.state.selected_sketch = Some(7);
    e.state.selected_sketch_secondary = Some(9);
    e.state.selected_sketch_extra = vec![7, 11];
    let victims = delete_selected(&mut e);
    assert_eq!(victims, vec![7, 9, 11]);
    assert_eq!(e.state.selected_sketch, None);
    assert_eq!(e.state.pads.len(), 4);
}

#[test]
fn toggling_a_filter_twice_restores_it() {
    let mut e = four_pads();
    toggle_selection_filter(&mut e, SelectionFilterKind::Tracks);
    assert!(!e.state.selection_filter.enabled[1]);
    toggle_selection_filter(&mut e, SelectionFilterKind::Tracks);
    assert!(e.state.selection_filter.enabled.iter().all(|&b| b));
}

#[test]
fn toggling_a_menu_twice_closes_it() {
    let mut e = four_pads();
    toggle_active_bar_menu(&mut e, FootprintActiveBarMenu::Snap);
    assert_eq!(e.state.active_bar_menu, Some(FootprintActiveBarMenu::Snap));
    toggle_active_bar_menu(&mut e, FootprintActiveBarMenu::Snap);
    assert_eq!(e.state.active_bar_menu, None);
}

#[test]
fn construction_and_centerline_are_exclusive() {
    let mut e = four_pads();
    toggle_construction(&mut e);
    assert!(e.state.construction_mode && !e.state.centerline_mode);
    toggle_centerline(&mut e);
    assert!(!e.state.construction_mode && e.state.centerline_mode);
    toggle_construction(&mut e);
    assert!(e.state.construction_mode && !e.state.centerline_mode);
}

#[test]
fn set_tool_drops_the_pending_gesture() {
    let mut e = four_pads();
    e.state.tool_pending = ToolPending::LineFirst { first: 5 };
    set_tool(&mut e, SketchTool::Circle);
    assert_eq!(e.state.active_tool, SketchTool::Circle);
    assert_eq!(e.state.tool_pending, ToolPending::Idle);
}

#[test]
fn right_click_on_pad_selects_it_and_opens_menu() {
    let mut e = four_pads();
    select_pads(&mut e, vec![0, 1]);
    e.state.active_bar_menu = Some(FootprintActiveBarMenu::Place);
    show(&mut e, (3.0, 0.0), FootprintContextTarget::Pad(3));
    assert_eq!(e.state.selected_pad, Some(3));
    assert!(e.state.selected_pads_extra.is_empty());
    assert_eq!(e.state.active_bar_menu, None);
    assert!(e.state.context_menu.is_some());
    close(&mut e);
    assert!(e.state.context_menu.is_none());
}

#[test]
fn flip_layer_swaps_sides_and_is_an_involution() {
    assert_eq!(flip_layer("F.Cu"), "B.Cu");
    assert_eq!(flip_layer("B.SilkS"), "F.SilkS");
    assert_eq!(flip_layer("Edge.Cuts"), "Edge.Cuts");
    assert_eq!(flip_layer(&flip_layer("F.Mask")), "F.Mask");
}

#[test]
fn select_pads_makes_the_lowest_the_primary() {
    let mut e = four_pads();
    e.state.selected_silk_f = Some(0);
    select_pads(&mut e, vec![3, 3, 2]);
    assert_eq!(e.state.selected_pad, Some(2));
    assert_eq!(e.state.selected_pads_extra, vec![3]);
    assert_eq!(e.state.selected_silk_f, None);
}

#[test]
fn select_overlapped_starts_over_from_outside_the_stack() {
    let mut e = four_pads();
    e.state.last_click_world_mm = Some((1.0, 0.0));
    e.state.selected_pad = Some(1);
    let under = vec![true, false, true, true];
    select_overlapped(&mut e, false, &under);
    assert_eq!(e.state.selected_pad, Some(0));
    e.state.selected_pad = Some(1);
    select_overlapped(&mut e, true, &under);
    assert_eq!(e.state.selected_pad, Some(0));
}

#[test]
fn switching_footprints_rederives_the_canvas() {
    let mut e = four_pads();
    e.footprint_count = 3;
    e.state.selected_pad = Some(1);
    let derive = |i: usize| {
        let mut s = editor(vec![pad(&format!("fp{}", i), (0.0, 0.0))]).state;
        s.selected_pad = Some(0);
        s
    };
    assert!(select_active_idx(&mut e, 9, derive));
    assert_eq!(e.active_idx, 2);
    assert_eq!(e.state.pads.len(), 1);
    assert_eq!(e.state.pads[0].number, "fp2");
    assert_eq!(e.state.selected_pad, None);
    assert!(e.state.fit_pending);
    assert!(e.canvas_stale);
    e.canvas_stale = false;
    assert!(!select_active_idx(&mut e, 2, derive));
    assert!(!e.canvas_stale);
    assert!(select_active_idx(&mut e, 0, derive));
    assert_eq!(e.state.pads[0].number, "fp0");
}
