//! Pin Map tab — what the match table and its banner show.

use vstd::prelude::*;
use crate::decimal::{decimal_digits, u64_to_decimal};
use crate::pin_map::{
    find_override, override_for, MatchStatus, PinElectricalType,
    PinPadMatch, PinPadOverride, Symbol,
};
use crate::text::append_str;

verus! {

/// Short label of an electrical type in the match table.
pub open spec fn electrical_name(t: PinElectricalType) -> Seq<char> {
    match t {
        PinElectricalType::Input => "Input"@,
        PinElectricalType::Output => "Output"@,
        PinElectricalType::Bidirectional => "Bidir"@,
        PinElectricalType::Power => "Power"@,
        PinElectricalType::Passive => "Passive"@,
        PinElectricalType::OpenCollector => "OpenColl"@,
        PinElectricalType::OpenEmitter => "OpenEmit"@,
        PinElectricalType::NotConnected => "NC"@,
        PinElectricalType::TriState => "Tri-state"@,
        PinElectricalType::Unspecified => "\u{2014}"@,
        _ => "?"@,
    }
}

/// Short label of an electrical type (see `electrical_name`).
pub fn electrical_label(t: PinElectricalType) -> (r: &'static str)
    ensures
        r@ == electrical_name(t),
{
    match t {
        PinElectricalType::Input => "Input",
        PinElectricalType::Output => "Output",
        PinElectricalType::Bidirectional => "Bidir",
        PinElectricalType::Power => "Power",
        PinElectricalType::Passive => "Passive",
        PinElectricalType::OpenCollector => "OpenColl",
        PinElectricalType::OpenEmitter => "OpenEmit",
        PinElectricalType::NotConnected => "NC",
        PinElectricalType::TriState => "Tri-state",
        PinElectricalType::Unspecified => "\u{2014}",
        _ => "?",
    }
}

/// Number of unbound pins among `ms`.
pub open spec fn unmatched_count(ms: Seq<PinPadMatch>) -> nat
    decreases ms.len(),
{
    if ms.len() == 0 {
        0
    } else {
        unmatched_count(ms.drop_last()) + if ms.last().status == MatchStatus::Unmatched {
            1nat
        } else {
            0nat
        }
    }
}

/// The banner over the match table: "✓ m/n matched" when every pin is
/// bound, else "⚠ u unmatched".
pub open spec fn banner_text(ms: Seq<PinPadMatch>) -> Seq<char> {
    let u = unmatched_count(ms);
    if u == 0 {
        "\u{2713} "@ + decimal_digits(ms.len()) + "/"@ + decimal_digits(ms.len()) + " matched"@
    } else {
        "\u{26A0} "@ + decimal_digits(u) + " unmatched"@
    }
}

proof fn lemma_unmatched_count_bound(ms: Seq<PinPadMatch>)
    ensures
        unmatched_count(ms) <= ms.len(),
    decreases ms.len(),
{
    if ms.len() > 0 {
        lemma_unmatched_count_bound(ms.drop_last());
    }
}

/// The banner text (see `banner_text`).
pub fn status_banner_text(matches: &Vec<PinPadMatch>) -> (r: String)
    ensures
        r@ == banner_text(matches@),
{
    let mut unmatched: usize = 0;
    let mut i: usize = 0;
    while i < matches.len()
        invariant
            i <= matches@.len(),
            unmatched == unmatched_count(matches@.take(i as int)),
            unmatched <= i,
        decreases matches@.len() - i,
    {
        assert(matches@.take(i + 1).drop_last() =~= matches@.take(i as int));
        if matches[i].status == MatchStatus::Unmatched {
            unmatched = unmatched + 1;
        }
        i = i + 1;
    }
    assert(matches@.take(matches@.len() as int) =~= matches@);
    let total = matches.len();
    if unmatched == 0 {
        let mut s = String::from_str("\u{2713} ");
        let n = u64_to_decimal(total as u64);
        append_str(&mut s, n.as_str());
        append_str(&mut s, "/");
        append_str(&mut s, n.as_str());
        append_str(&mut s, " matched");
        s
    } else {
        let mut s = String::from_str("\u{26A0} ");
        let n = u64_to_decimal(unmatched as u64);
        append_str(&mut s, n.as_str());
        append_str(&mut s, " unmatched");
        s
    }
}

/// The action offered on a row of the match table.
#[derive(Clone, Copy, Debug, PartialEq, Eq, Structural)]
pub enum RowAction {
    /// The row's override is being edited (input, Save, Cancel).
    EditOverride,
    /// An unbound pin can be overridden.
    Override,
    /// An overridden pin can be re-targeted or have its override removed.
    ReOverrideOrRemove,
    /// A pin matched by number needs nothing.
    Nothing,
}

/// What one row of the match table shows.
pub struct MatchRow {
    /// ✓ matched, ↪ overridden, ✗ unmatched.
    pub glyph: char,
    /// The bound pad's number, or an em dash.
    pub pad_number: String,
    /// The bound pad's size in millimetres (`w×h`), or an em dash.
    pub pad_size: String,
    pub type_label: &'static str,
    pub action: RowAction,
}

/// Glyph of a binding status.
pub open spec fn status_glyph(s: MatchStatus) -> char {
    match s {
        MatchStatus::Matched => '\u{2713}',
        MatchStatus::Overridden => '\u{21AA}',
        MatchStatus::Unmatched => '\u{2717}',
    }
}

/// The row of binding `m`; `expanded_row` is the pin whose override
/// editor is open, if any.
pub fn match_row(m: &PinPadMatch, expanded_row: &Option<String>) -> (row: MatchRow)
    ensures
        row.glyph == status_glyph(m.status),
        row.pad_number@ == (match m.footprint_pad {
            Some(p) => p.number@,
            None => "\u{2014}"@,
        }),
        row.pad_size@ == (match m.footprint_pad {
            Some(p) => p.size_text.0@ + "\u{d7}"@ + p.size_text.1@,
            None => "\u{2014}"@,
        }),
        row.type_label@ == electrical_name(m.symbol_pin.electrical),
        row.action == (if expanded_row matches Some(e) && e@ == m.symbol_pin.number@ {
            RowAction::EditOverride
        } else if m.status == MatchStatus::Unmatched {
            RowAction::Override
        } else if m.status == MatchStatus::Overridden {
            RowAction::ReOverrideOrRemove
        } else {
            RowAction::Nothing
        }),
{
    let glyph = match m.status {
        MatchStatus::Matched => '\u{2713}',
        MatchStatus::Overridden => '\u{21AA}',
        MatchStatus::Unmatched => '\u{2717}',
    };
    let (pad_number, pad_size) = match &m.footprint_pad {
        Some(p) => {
            let mut size = p.size_text.0.clone();
            append_str(&mut size, "\u{d7}");
            append_str(&mut size, p.size_text.1.as_str());
            (p.number.clone(), size)
        },
        None => (String::from_str("\u{2014}"), String::from_str("\u{2014}")),
    };
    let expanded = match expanded_row {
        Some(e) => *e == m.symbol_pin.number,
        None => false,
    };
    let action = if expanded {
        RowAction::EditOverride
    } else {
        match m.status {
            MatchStatus::Unmatched => RowAction::Override,
            MatchStatus::Overridden => RowAction::ReOverrideOrRemove,
            MatchStatus::Matched => RowAction::Nothing,
        }
    };
    MatchRow {
        glyph,
        pad_number,
        pad_size,
        type_label: electrical_label(m.symbol_pin.electrical),
        action,
    }
}

/// The pad column of a pin in the preview's Pin Map: the override
/// target marked "(override)", else the pin's own number.
pub open spec fn pad_label(overrides: Seq<PinPadOverride>, pin_number: Seq<char>) -> Seq<char> {
    match override_for(overrides, pin_number) {
        Some(t) => t + " (override)"@,
        None => pin_number,
    }
}

/// Why the preview's Pin Map shows no table.
#[derive(Clone, Copy, Debug, PartialEq, Eq, Structural)]
pub enum PinMapNotice {
    /// "Pin map view requires the symbol to be resolved."
    SymbolUnresolved,
    /// "Symbol has no pins yet — open the Symbol Editor to add some."
    NoPins,
}

/// One row of the preview's Pin Map: the pad label and whether the pin
/// is overridden.
pub struct PinMapPreviewRow {
    pub pad_label: String,
    pub overridden: bool,
}

/// The rows of the preview's Pin Map, one per symbol pin in order, or
/// why there is no table.
pub fn pin_map_subsection(symbol: Option<&Symbol>, overrides: &Vec<PinPadOverride>) -> (r: Result<
    Vec<PinMapPreviewRow>,
    PinMapNotice,
>)
    ensures
        match symbol {
            None => r == Err::<Vec<PinMapPreviewRow>, PinMapNotice>(PinMapNotice::SymbolUnresolved),
            Some(sym) => if sym.pins@.len() == 0 {
                r == Err::<Vec<PinMapPreviewRow>, PinMapNotice>(PinMapNotice::NoPins)
            } else {
                r matches Ok(rows) && rows@.len() == sym.pins@.len() && forall|i: int|
                    0 <= i < rows@.len() ==> {
                        &&& (#[trigger] rows@[i]).pad_label@ == pad_label(
                            overrides@,
                            sym.pins@[i].number@,
                        )
                        &&& rows@[i].overridden == override_for(
                            overrides@,
                            sym.pins@[i].number@,
                        ) is Some
                    }
            },
        },
{
    let sym = match symbol {
        None => return Err(PinMapNotice::SymbolUnresolved),
        Some(s) => s,
    };
    if sym.pins.len() == 0 {
        return Err(PinMapNotice::NoPins);
    }
    let mut rows: Vec<PinMapPreviewRow> = Vec::new();
    let mut i: usize = 0;
    while i < sym.pins.len()
        invariant
            i <= sym.pins@.len(),
            rows@.len() == i,
            forall|k: int|
                0 <= k < i ==> {
                    &&& (#[trigger] rows@[k]).pad_label@ == pad_label(
                        overrides@,
                        sym.pins@[k].number@,
                    )
                    &&& rows@[k].overridden == override_for(overrides@, sym.pins@[k].number@) is Some
                },
        decreases sym.pins@.len() - i,
    {
        let number = &sym.pins[i].number;
        let row = match find_override(overrides, number) {
            Some(t) => {
                let mut label = t;
                append_str(&mut label, " (override)");
                PinMapPreviewRow { pad_label: label, overridden: true }
            },
            None => PinMapPreviewRow { pad_label: number.clone(), overridden: false },
        };
        rows.push(row);
        i = i + 1;
    }
    Ok(rows)
}

} // verus!
