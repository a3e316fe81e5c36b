use signex_app::clipboard::{apply_footprint_clipboard_op, ClipboardOp};
use signex_app::constraints::dim_input_error;
use signex_app::decimal::{parse_u64, u64_to_decimal};
use signex_app::geometry::{add_new_sibling, arc_click, polygon_click, polygon_commit, track_click};
use signex_app::pin_map::{compute_matches, Footprint, Pad, PinElectricalType, Symbol, SymbolPin};
use signex_app::pin_map::PinPadOverride;
use signex_app::pin_map_view::{
    electrical_label, match_row, pin_map_subsection, status_banner_text, PinMapNotice, RowAction,
};
use signex_app::preview::{footprint_path, symbol_path, uuid_string, ComponentRefs};
use signex_app::symbol_diff::{parse_symbol_unit_index, Side};
use signex_app::types::{
    EditorMode, EditorPad, FootprintEditor, FootprintEditorState, FpLayer, FpSelectionMode,
    PadsTool, PlaceArcPending, SelectionFilter, SketchTool, SnapOptions, ToolPending,
};

fn editor(numbers: &[&str]) -> FootprintEditor<(f64, f64), u32> {
    FootprintEditor {
        state: FootprintEditorState {
            pads: numbers
                .iter()
                .enumerate()
                .map(|(i, n)| EditorPad {
                    number: n.to_string(),
                    layer: FpLayer::FCu,
                    position: (i as f64, 0.0),
                    sketch_entity_id: Some(100 + i as u64),
                    corner_entity_ids: None,
                })
                .collect(),
            mode: EditorMode::Normal,
            selected_pad: None,
            selected_pads_extra: Vec::new(),
            selected_silk_f: None,
            selected_sketch: None,
            selected_sketch_secondary: None,
            selected_sketch_extra: Vec::new(),
            cursor_mm: None,
            last_click_world_mm: None,
            numeric_buffers: Vec::new(),
            selection_filter: SelectionFilter::all_on(),
            selection_mode_2d: FpSelectionMode::Inside,
            active_bar_menu: None,
            lasso_mode_active: false,
            lasso_vertices: Vec::new(),
            touching_line_active: false,
            touching_line_first: None,
            context_menu: None,
            fit_pending: false,
            active_tool: SketchTool::Select,
            tool_pending: ToolPending::Idle,
            construction_mode: false,
            centerline_mode: false,
            placement_input: None,
            placement_input_others: Vec::new(),
            dimension_input: String::new(),
            pads_tool: PadsTool::Select,
            track_first: None,
            place_arc_pending: PlaceArcPending::Idle,
            place_polygon_vertices: Vec::new(),
            placement_paused: false,
            snap_options: SnapOptions { flags: vec![true; 19] },
            move_by_modal: None,
            align_modal: None,
            solve_warnings: Vec::new(),
        },
        footprint_count: 2,
        active_idx: 0,
        silk_f: Vec::new(),
        dirty: false,
        canvas_stale: false,
    }
}

#[test]
fn symbol_unit_index_reads_the_middle_part() {
    assert_eq!(parse_symbol_unit_index("LM358_1_1"), Some(1));
    assert_eq!(parse_symbol_unit_index("\"LM358_2_1\""), Some(2));
    assert_eq!(parse_symbol_unit_index("MY_PART_12_3"), Some(12));
    assert_eq!(parse_symbol_unit_index("_3_1"), Some(3));
    assert_eq!(parse_symbol_unit_index("X_+4_1"), Some(4));
    assert_eq!(parse_symbol_unit_index("R0805"), None);
    assert_eq!(parse_symbol_unit_index("A_1"), None);
    assert_eq!(parse_symbol_unit_index("X_a_1"), None);
    assert_eq!(parse_symbol_unit_index("X_1_b"), None);
    assert_eq!(parse_symbol_unit_index("X__1"), None);
    assert_eq!(parse_symbol_unit_index("X_4294967296_1"), None);
    assert_eq!(parse_symbol_unit_index("X_4294967295_0"), Some(4294967295));
    assert_ne!(Side::Prev, Side::Next);
}

#[test]
fn uuid_text_is_hyphenated_lower_hex() {
    assert_eq!(uuid_string(0), "00000000-0000-0000-0000-000000000000");
    assert_eq!(
        uuid_string(0x67e5_5044_10b1_426f_9247_bb68_0e5f_e0c8),
        "67e55044-10b1-426f-9247-bb680e5fe0c8"
    );
    assert_eq!(uuid_string(u128::MAX), "ffffffff-ffff-ffff-ffff-ffffffffffff");
}

#[test]
fn preview_paths_live_under_the_library_root() {
    let lib = vec!["home".to_string(), "libs".to_string(), "passives".to_string()];
    let refs = ComponentRefs { symbol_uuid: 1, footprint_uuid: Some(0xabc) };
    assert_eq!(
        symbol_path(&lib, &refs),
        vec![
            "home".to_string(),
            "libs".to_string(),
            "passives".to_string(),
            "symbols".to_string(),
            "00000000-0000-0000-0000-000000000001.snxsym".to_string()
        ]
    );
    assert_eq!(
        footprint_path(&vec![], &refs),
        Some(vec![
            "footprints".to_string(),
            "00000000-0000-0000-0000-000000000abc.snxfpt".to_string()
        ])
    );
    let no_fp = ComponentRefs { symbol_uuid: 1, footprint_uuid: None };
    assert_eq!(footprint_path(&lib, &no_fp), None);
}

#[test]
fn decimal_text_round_trips() {
    assert_eq!(parse_u64("42"), Some(42));
    assert_eq!(parse_u64("+42"), Some(42));
    assert_eq!(parse_u64(""), None);
    assert_eq!(parse_u64("+"), None);
    assert_eq!(parse_u64("-1"), None);
    assert_eq!(parse_u64(" 1"), None);
    assert_eq!(parse_u64("18446744073709551615"), Some(u64::MAX));
    assert_eq!(parse_u64("18446744073709551616"), None);
    assert_eq!(u64_to_decimal(0), "0");
    assert_eq!(u64_to_decimal(1200), "1200");
    for n in [0u64, 7, 10, 99, 12345, u64::MAX] {
        assert_eq!(parse_u64(&u64_to_decimal(n)), Some(n));
        assert_eq!(u64_to_decimal(n), n.to_string());
    }
}

#[test]
fn paste_picks_a_fresh_designator() {
    let mut e = editor(&["1", "2", "EP"]);
    let mut clip = None;
    e.state.selected_pad = Some(2);
    assert!(!apply_footprint_clipboard_op(&mut e, &mut clip, ClipboardOp::Copy, (0.0, 0.0)));
    assert_eq!(clip.as_ref().map(|p| p.number.as_str()), Some("EP"));
    assert!(apply_footprint_clipboard_op(&mut e, &mut clip, ClipboardOp::Paste, (3.0, 1.0)));
    let new_pad = e.state.pads.last().unwrap();
    assert_eq!(new_pad.number, "3");
    assert_eq!(new_pad.position, (3.0, 1.0));
    assert_eq!(new_pad.sketch_entity_id, None);
    assert_eq!(e.state.selected_pad, Some(3));
    assert!(e.dirty);

    let mut named = editor(&["A", "B"]);
    named.state.cursor_mm = Some((9.0, 9.0));
    let mut clip2 = Some(named.state.pads[1].duplicate());
    assert!(apply_footprint_clipboard_op(&mut named, &mut clip2, ClipboardOp::Paste, (0.0, 0.0)));
    assert_eq!(named.state.pads[2].number, "B");
    assert_eq!(named.state.pads[2].position, (9.0, 9.0));
}

#[test]
fn cut_moves_the_pad_to_the_clipboard() {
    let mut e = editor(&["1", "2", "3"]);
    let mut clip = None;
    assert!(!apply_footprint_clipboard_op(&mut e, &mut clip, ClipboardOp::Cut, (0.0, 0.0)));
    e.state.selected_pad = Some(1);
    assert!(apply_footprint_clipboard_op(&mut e, &mut clip, ClipboardOp::Cut, (0.0, 0.0)));
    assert_eq!(clip.unwrap().number, "2");
    let left: Vec<&str> = e.state.pads.iter().map(|p| p.number.as_str()).collect();
    assert_eq!(left, vec!["1", "3"]);
}

#[test]
fn placement_gestures_collect_positions() {
    let mut e = editor(&[]);
    let name = add_new_sibling(&mut e);
    assert_eq!(name, "Footprint 3");
    assert_eq!(e.footprint_count, 3);
    assert_eq!(e.active_idx, 2);

    assert_eq!(track_click(&mut e, (0.0, 0.0)), None);
    assert_eq!(track_click(&mut e, (1.0, 0.0)), Some(((0.0, 0.0), (1.0, 0.0))));
    assert_eq!(track_click(&mut e, (1.0, 1.0)), Some(((1.0, 0.0), (1.0, 1.0))));

    assert_eq!(arc_click(&mut e, (0.0, 0.0)), None);
    assert_eq!(arc_click(&mut e, (1.0, 0.0)), None);
    assert_eq!(
        arc_click(&mut e, (0.0, 1.0)),
        Some(((0.0, 0.0), (1.0, 0.0), (0.0, 1.0)))
    );

    polygon_click(&mut e, (0.0, 0.0));
    polygon_click(&mut e, (1.0, 0.0));
    assert_eq!(polygon_commit(&mut e), None);
    assert!(e.state.place_polygon_vertices.is_empty());
    e.state.pads_tool = PadsTool::PlaceRegion;
    polygon_click(&mut e, (0.0, 0.0));
    polygon_click(&mut e, (1.0, 0.0));
    polygon_click(&mut e, (1.0, 1.0));
    let (verts, filled) = polygon_commit(&mut e).unwrap();
    assert_eq!(verts.len(), 3);
    assert!(filled);
}

#[test]
fn dimension_error_names_the_bad_text() {
    assert_eq!(dim_input_error("  12,5 ", false), Some("12,5".to_string()));
    assert_eq!(dim_input_error("   ", false), None);
    assert_eq!(dim_input_error("3.5", true), None);
}

fn sym(pins: &[(&str, &str, PinElectricalType)]) -> Symbol {
    Symbol {
        pins: pins
            .iter()
            .map(|(n, name, t)| SymbolPin {
                number: n.to_string(),
                name: name.to_string(),
                electrical: *t,
            })
            .collect(),
    }
}

#[test]
fn match_table_rows_and_banner() {
    let s = sym(&[
        ("1", "VCC", PinElectricalType::Power),
        ("9", "PAD", PinElectricalType::Passive),
        ("5", "X", PinElectricalType::TriState),
    ]);
    let fp = Footprint {
        pads: vec![
            Pad {
                number: "1".into(),
                size_nm: (1_200_000, 165_000),
                size_text: (format!("{:.2}", 1.2), format!("{:.2}", 0.165)),
                layers: vec!["F.Cu".into()],
            },
            Pad {
                number: "EP".into(),
                size_nm: (3_000_000, 3_000_000),
                size_text: ("3.00".into(), "3.00".into()),
                layers: vec!["F.Cu".into()],
            },
        ],
    };
    let overrides = vec![PinPadOverride::new("9", "EP")];
    let ms = compute_matches(&s, &fp, &overrides);
    assert_eq!(status_banner_text(&ms), "\u{26A0} 1 unmatched");
    let r0 = match_row(&ms[0], &None);
    assert_eq!(r0.glyph, '\u{2713}');
    assert_eq!(r0.pad_number, "1");
    assert_eq!(r0.pad_size, "1.20\u{d7}0.17");
    assert_eq!(r0.type_label, "Power");
    assert_eq!(r0.action, RowAction::Nothing);
    let r1 = match_row(&ms[1], &None);
    assert_eq!(r1.glyph, '\u{21AA}');
    assert_eq!(r1.pad_size, "3.00\u{d7}3.00");
    assert_eq!(r1.action, RowAction::ReOverrideOrRemove);
    let r2 = match_row(&ms[2], &None);
    assert_eq!(r2.pad_number, "\u{2014}");
    assert_eq!(r2.type_label, "Tri-state");
    assert_eq!(r2.action, RowAction::Override);
    let r2e = match_row(&ms[2], &Some("5".to_string()));
    assert_eq!(r2e.action, RowAction::EditOverride);
    assert_eq!(electrical_label(PinElectricalType::Free), "?");

    let all = compute_matches(&sym(&[("1", "A", PinElectricalType::Input)]), &fp, &vec![]);
    assert_eq!(status_banner_text(&all), "\u{2713} 1/1 matched");
}

#[test]
fn preview_pin_map_marks_overrides() {
    let overrides = vec![PinPadOverride::new("9", "EP")];
    assert!(matches!(
        pin_map_subsection(None, &overrides),
        Err(PinMapNotice::SymbolUnresolved)
    ));
    let empty = sym(&[]);
    assert!(matches!(pin_map_subsection(Some(&empty), &overrides), Err(PinMapNotice::NoPins)));
    let s = sym(&[("1", "A", PinElectricalType::Input), ("9", "B", PinElectricalType::Passive)]);
    let rows = match pin_map_subsection(Some(&s), &overrides) {
        Ok(rows) => rows,
        Err(_) => panic!("pins present"),
    };
    assert_eq!(rows.len(), 2);
    assert_eq!(rows[0].pad_label, "1");
    assert!(!rows[0].overridden);
    assert_eq!(rows[1].pad_label, "EP (override)");
    assert!(rows[1].overridden);
}
