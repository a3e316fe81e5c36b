use std::collections::BTreeSet;

use signex_app::footprint_diff::extract_pads;
use signex_app::history::{diff_header_label, diff_pair, DiffNotice};
use signex_app::sexpr::{parse, SExpr};
use signex_app::symbol_diff::{draws_moved_arrows, extract_pins, pin_label, pin_mark, DiffMark, Side};

const TWO_PIN: &str = r#"
    (symbol "R0805"
        (pin passive line (at -2.54 0 0) (length 1.27) (name "1") (number "1"))
        (pin passive line (at  2.54 0 180) (length 1.27) (name "2") (number "2")))
"#;

#[test]
fn extract_pins_returns_unit_keyed_pins() {
    let pins = extract_pins(TWO_PIN);
    assert_eq!(pins.len(), 2);
    assert!(pins.iter().any(|p| p.key == "0:1"));
    assert!(pins.iter().any(|p| p.key == "0:2"));
}

#[test]
fn extract_pins_handles_empty_and_garbage() {
    assert!(extract_pins("").is_empty());
    assert!(extract_pins("   ").is_empty());
    assert!(extract_pins("not actually s-expr").is_empty());
}

#[test]
fn extract_pins_keeps_multi_unit_distinct() {
    let dual = r#"
        (symbol "LM358"
            (symbol "LM358_1_1"
                (pin input line (at -5 0 0) (length 2) (name "IN+") (number "1")))
            (symbol "LM358_2_1"
                (pin input line (at -5 -10 0) (length 2) (name "IN+") (number "1"))))
    "#;
    let pins = extract_pins(dual);
    assert_eq!(pins.len(), 2);
    let keys: BTreeSet<String> = pins.iter().map(|p| p.key.clone()).collect();
    assert!(keys.contains("1:1"));
    assert!(keys.contains("2:1"));
}

#[test]
fn extract_pads_two_pads() {
    let fp = r#"(footprint "R_0805_2012Metric"
        (pad "1" smd rect (at -1.0 0))
        (pad "2" smd rect (at  1.0 0)))"#;
    let pads = extract_pads(fp);
    assert_eq!(pads.len(), 2);
    let nums: BTreeSet<String> = pads.iter().map(|p| p.number.clone()).collect();
    assert!(nums.contains("1"));
    assert!(nums.contains("2"));
}

#[test]
fn extract_pads_empty_body_returns_empty() {
    assert!(extract_pads("").is_empty());
    assert!(extract_pads("(footprint \"empty\")").is_empty());
}

#[test]
fn pins_carry_their_position_text_in_walk_order() {
    let pins = extract_pins(TWO_PIN);
    // The last child is visited first.
    assert_eq!(pins[0].key, "0:2");
    assert_eq!(pins[0].at, Some(("2.54".to_string(), "0".to_string())));
    assert_eq!(pins[1].key, "0:1");
    assert_eq!(pins[1].at, Some(("-2.54".to_string(), "0".to_string())));
    let no_at = extract_pins("(symbol \"S\" (pin (number \"7\")))");
    assert_eq!(no_at.len(), 1);
    assert_eq!(no_at[0].key, "0:7");
    assert_eq!(no_at[0].at, None);
    // A pin without a number is not a pin.
    assert!(extract_pins("(symbol \"S\" (pin (at 1 2)))").is_empty());
}

#[test]
fn reader_handles_strings_and_rejects_broken_text() {
    let chars: Vec<char> = "( a \"b \\\" c\" (d) )".chars().collect();
    match parse(&chars) {
        Some(SExpr::List(items)) => {
            assert_eq!(items.len(), 3);
            assert!(matches!(&items[0], SExpr::Atom(a) if a == "a"));
            assert!(matches!(&items[1], SExpr::Str(s) if s == "b \" c"));
            assert!(matches!(&items[2], SExpr::List(v) if v.len() == 1));
        }
        _ => panic!("expected a list"),
    }
    for bad in ["(a", "a)", "(a))", "\"open", ")", "(a) (b)"] {
        let cs: Vec<char> = bad.chars().collect();
        assert!(parse(&cs).is_none(), "{bad}");
    }
    let atom: Vec<char> = "  x  ".chars().collect();
    assert!(matches!(parse(&atom), Some(SExpr::Atom(a)) if a == "x"));
}

#[test]
fn diff_marks_depend_on_the_side() {
    let added = vec!["1:3".to_string()];
    let removed = vec!["1:4".to_string()];
    let moved = vec!["1:5".to_string(), "1:3".to_string()];
    let k = |s: &str| s.to_string();
    assert_eq!(pin_mark(Side::Next, &k("1:3"), &added, &removed, &moved), DiffMark::Added);
    assert_eq!(pin_mark(Side::Prev, &k("1:3"), &added, &removed, &moved), DiffMark::Moved);
    assert_eq!(pin_mark(Side::Prev, &k("1:4"), &added, &removed, &moved), DiffMark::Removed);
    assert_eq!(pin_mark(Side::Next, &k("1:4"), &added, &removed, &moved), DiffMark::Neutral);
    assert_eq!(pin_mark(Side::Next, &k("1:5"), &added, &removed, &moved), DiffMark::Moved);
    assert_eq!(pin_mark(Side::Next, &k("0:9"), &added, &removed, &moved), DiffMark::Neutral);
    assert!(draws_moved_arrows(Side::Next));
    assert!(!draws_moved_arrows(Side::Prev));
    assert_eq!(pin_label(&k("2:IN+")), Some("IN+".to_string()));
    assert_eq!(pin_label(&k("plain")), Some("plain".to_string()));
    assert_eq!(pin_label(&k("1:")), None);
    assert_eq!(pin_label(&k("a:b:c")), Some("c".to_string()));
}

#[test]
fn diff_view_compares_the_selection_with_its_predecessor() {
    let versions = vec![1u64, 2, 5];
    assert_eq!(diff_pair(&versions, None), Err(DiffNotice::NothingSelected));
    assert_eq!(diff_pair(&versions, Some(3)), Err(DiffNotice::NotInHistory));
    assert_eq!(diff_pair(&versions, Some(1)), Err(DiffNotice::FirstRevision));
    assert_eq!(diff_pair(&versions, Some(5)), Ok((1, 2)));
    assert_eq!(diff_header_label(2, 5), "Diff: v2  \u{2192}  v5");
}
