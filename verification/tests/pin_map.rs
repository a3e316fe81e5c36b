use signex_app::pin_map::{
    compute_matches, validate, Footprint, MatchStatus, Pad, PinElectricalType, PinPadOverride,
    Symbol, SymbolPin, WarningSeverity,
};

fn fixture_symbol(pins: Vec<(&str, &str, PinElectricalType)>) -> Symbol {
    Symbol {
        pins: pins
            .into_iter()
            .map(|(num, name, kind)| SymbolPin {
                number: num.into(),
                name: name.into(),
                electrical: kind,
            })
            .collect(),
    }
}

/// Pad size in millimetres, held in nanometres and as displayed.
fn fixture_pad(number: &str, size_mm: [f64; 2], layers: Vec<&str>) -> Pad {
    Pad {
        number: number.into(),
        size_nm: (
            (size_mm[0] * 1_000_000.0).round() as u64,
            (size_mm[1] * 1_000_000.0).round() as u64,
        ),
        size_text: (format!("{:.2}", size_mm[0]), format!("{:.2}", size_mm[1])),
        layers: layers.into_iter().map(String::from).collect(),
    }
}

fn fixture_footprint(pads: Vec<Pad>) -> Footprint {
    Footprint { pads }
}

#[test]
fn compute_matches_identity_all_matched() {
    let sym = fixture_symbol(vec![
        ("1", "IN", PinElectricalType::Input),
        ("2", "OUT", PinElectricalType::Output),
        ("3", "GND", PinElectricalType::Power),
    ]);
    let fp = fixture_footprint(vec![
        fixture_pad("1", [1.2, 1.2], vec!["F.Cu", "F.Mask"]),
        fixture_pad("2", [1.2, 1.2], vec!["F.Cu", "F.Mask"]),
        fixture_pad("3", [1.2, 1.2], vec!["F.Cu", "F.Mask"]),
    ]);
    let result = compute_matches(&sym, &fp, &vec![]);
    assert_eq!(result.len(), 3);
    for m in &result {
        assert_eq!(m.status, MatchStatus::Matched);
        assert!(m.footprint_pad.is_some());
        assert!(m.override_target.is_none());
    }
}

#[test]
fn compute_matches_override_redirects_to_ep() {
    let sym = fixture_symbol(vec![
        ("1", "VCC", PinElectricalType::Power),
        ("9", "PAD", PinElectricalType::Passive),
    ]);
    let fp = fixture_footprint(vec![
        fixture_pad("1", [1.0, 1.0], vec!["F.Cu", "F.Mask"]),
        fixture_pad("EP", [3.0, 3.0], vec!["F.Cu", "F.Mask"]),
    ]);
    let overrides = vec![PinPadOverride::new("9", "EP")];
    let result = compute_matches(&sym, &fp, &overrides);
    assert_eq!(result.len(), 2);
    assert_eq!(result[0].status, MatchStatus::Matched);
    assert_eq!(result[0].override_target, None);
    assert_eq!(result[1].status, MatchStatus::Overridden);
    assert_eq!(
        result[1].override_target.as_deref(),
        Some("EP"),
        "override target should be the redirected pad number"
    );
    assert_eq!(
        result[1].footprint_pad.as_ref().map(|p| p.number.as_str()),
        Some("EP")
    );
}

#[test]
fn compute_matches_missing_pad_yields_unmatched() {
    let sym = fixture_symbol(vec![
        ("1", "VCC", PinElectricalType::Power),
        ("9", "EP", PinElectricalType::Passive),
    ]);
    let fp = fixture_footprint(vec![fixture_pad("1", [1.0, 1.0], vec!["F.Cu", "F.Mask"])]);
    let result = compute_matches(&sym, &fp, &vec![]);
    assert_eq!(result.len(), 2);
    assert_eq!(result[0].status, MatchStatus::Matched);
    assert_eq!(result[1].status, MatchStatus::Unmatched);
    assert!(result[1].footprint_pad.is_none());
    assert!(result[1].override_target.is_none());
}

#[test]
fn compute_matches_extra_pad_not_listed() {
    let sym = fixture_symbol(vec![("1", "IN", PinElectricalType::Input)]);
    let fp = fixture_footprint(vec![
        fixture_pad("1", [1.0, 1.0], vec!["F.Cu", "F.Mask"]),
        fixture_pad("EP", [2.0, 2.0], vec!["F.Cu", "F.Mask"]),
    ]);
    let result = compute_matches(&sym, &fp, &vec![]);
    assert_eq!(result.len(), 1, "only symbol pins drive matches");
    assert_eq!(result[0].symbol_pin.number, "1");
    assert!(
        !result
            .iter()
            .any(|m| m.footprint_pad.as_ref().is_some_and(|p| p.number == "EP")),
        "extra pad must not appear in matches"
    );
}

#[test]
fn compute_matches_override_to_unknown_pad_is_unmatched() {
    let sym = fixture_symbol(vec![("9", "PAD", PinElectricalType::Passive)]);
    let fp = fixture_footprint(vec![fixture_pad("1", [1.0, 1.0], vec!["F.Cu", "F.Mask"])]);
    let overrides = vec![PinPadOverride::new("9", "DOES_NOT_EXIST")];
    let result = compute_matches(&sym, &fp, &overrides);
    assert_eq!(result.len(), 1);
    assert_eq!(result[0].status, MatchStatus::Unmatched);
    assert!(result[0].footprint_pad.is_none());
}

#[test]
fn validate_warns_power_pin_on_small_pad() {
    let sym = fixture_symbol(vec![("1", "VCC", PinElectricalType::Power)]);
    let fp = fixture_footprint(vec![fixture_pad("1", [0.6, 0.6], vec!["F.Cu", "F.Mask"])]);
    let matches = compute_matches(&sym, &fp, &vec![]);
    let warnings = validate(&matches);
    assert_eq!(warnings.len(), 1);
    assert_eq!(warnings[0].severity, WarningSeverity::Warn);
    assert!(warnings[0].message.contains("VCC"));
    assert_eq!(
        warnings[0].message,
        "VCC (1) routed to 0.60\u{d7}0.60mm pad \u{2014} under 0.8mm rec for \u{2265}1A"
    );
}

#[test]
fn validate_warns_nc_pin_connected() {
    let sym = fixture_symbol(vec![("4", "NC", PinElectricalType::NotConnected)]);
    let fp = fixture_footprint(vec![fixture_pad("4", [1.0, 1.0], vec!["F.Cu", "F.Mask"])]);
    let matches = compute_matches(&sym, &fp, &vec![]);
    let warnings = validate(&matches);
    assert_eq!(warnings.len(), 1);
    assert_eq!(warnings[0].severity, WarningSeverity::Warn);
    assert!(warnings[0].message.contains("NC"));
}

#[test]
fn validate_errors_output_on_mask_only_pad() {
    let sym = fixture_symbol(vec![("3", "Y", PinElectricalType::Output)]);
    let fp = fixture_footprint(vec![fixture_pad("3", [1.0, 1.0], vec!["F.Mask"])]);
    let matches = compute_matches(&sym, &fp, &vec![]);
    let warnings = validate(&matches);
    assert_eq!(warnings.len(), 1);
    assert_eq!(warnings[0].severity, WarningSeverity::Error);
    assert!(warnings[0].message.contains("mask-only"));
}
