//! Pin Map tab — binding of symbol pins to footprint pads, and the
//! validation rules over the binding.
//!
//! Each symbol pin binds to the pad whose number equals the pin number,
//! unless an override redirects the pin to another pad number. Pads
//! without a pin (mounting holes, exposed pads) are not listed.
//!
//! Pad sizes are compared in whole nanometres and shown as the editor
//! writes them (millimetres with two decimals).

use vstd::prelude::*;
use crate::text::{append_str, chars_of};
use vstd::string::StrSliceExecFns;

verus! {

/// Electrical type of a symbol pin.
#[derive(Clone, Copy, Debug, PartialEq, Eq, Structural)]
pub enum PinElectricalType {
    Input,
    Output,
    Bidirectional,
    TriState,
    Passive,
    Free,
    Unspecified,
    Power,
    PowerOut,
    OpenCollector,
    OpenEmitter,
    NotConnected,
}

/// One pin of a symbol.
pub struct SymbolPin {
    pub number: String,
    pub name: String,
    pub electrical: PinElectricalType,
}

/// The pins of a symbol.
pub struct Symbol {
    pub pins: Vec<SymbolPin>,
}

/// One pad of a footprint: number, size (width, height) in
/// nanometres, the size as the editor writes it (millimetres with two
/// decimals, width then height), and the layers it is on.
pub struct Pad {
    pub number: String,
    pub size_nm: (u64, u64),
    pub size_text: (String, String),
    pub layers: Vec<String>,
}

/// The pads of a footprint.
pub struct Footprint {
    pub pads: Vec<Pad>,
}

/// Redirect of one symbol pin to a pad number other than its own.
pub struct PinPadOverride {
    pub symbol_pin_number: String,
    pub footprint_pad_number: String,
}

impl PinPadOverride {
    /// An override of pin `pin` to pad `pad`.
    pub fn new(pin: &str, pad: &str) -> (r: Self)
        ensures
            r.symbol_pin_number@ == pin@,
            r.footprint_pad_number@ == pad@,
    {
        PinPadOverride {
            symbol_pin_number: pin.to_owned(),
            footprint_pad_number: pad.to_owned(),
        }
    }
}

/// How a pin was bound.
#[derive(Clone, Copy, Debug, PartialEq, Eq, Structural)]
pub enum MatchStatus {
    /// Pin matched its default pad by number equality.
    Matched,
    /// Pin had no pad, neither default nor overridden, to bind to.
    Unmatched,
    /// Pin was redirected to a different pad number, which exists.
    Overridden,
}

/// The result of binding one symbol pin.
pub struct PinPadMatch {
    pub symbol_pin: SymbolPin,
    /// `None` when no pad, default or overridden, exists.
    pub footprint_pad: Option<Pad>,
    /// The redirect target, when the pin has an override.
    pub override_target: Option<String>,
    pub status: MatchStatus,
}

/// Target of the first override for `pin_number`, if any.
pub open spec fn override_for(overrides: Seq<PinPadOverride>, pin_number: Seq<char>) -> Option<
    Seq<char>,
>
    decreases overrides.len(),
{
    if overrides.len() == 0 {
        None
    } else if overrides[0].symbol_pin_number@ == pin_number {
        Some(overrides[0].footprint_pad_number@)
    } else {
        override_for(overrides.drop_first(), pin_number)
    }
}

/// Position of the first pad numbered `number`, or -1.
pub open spec fn pad_position(pads: Seq<Pad>, number: Seq<char>) -> int
    decreases pads.len(),
{
    if pads.len() == 0 {
        -1
    } else if pads[0].number@ == number {
        0
    } else {
        let r = pad_position(pads.drop_first(), number);
        if r < 0 {
            -1
        } else {
            r + 1
        }
    }
}

/// Two pads agree field by field.
pub open spec fn same_pad(a: Pad, b: Pad) -> bool {
    &&& a.number@ == b.number@
    &&& a.size_nm == b.size_nm
    &&& a.size_text.0@ == b.size_text.0@
    &&& a.size_text.1@ == b.size_text.1@
    &&& a.layers@.len() == b.layers@.len()
    &&& forall|i: int| 0 <= i < a.layers@.len() ==> #[trigger] a.layers@[i]@ == b.layers@[i]@
}

/// Two pins agree field by field.
pub open spec fn same_pin(a: SymbolPin, b: SymbolPin) -> bool {
    &&& a.number@ == b.number@
    &&& a.name@ == b.name@
    &&& a.electrical == b.electrical
}

/// `m` is the binding of pin `pin` against `pads` and `overrides`.
pub open spec fn is_binding(
    m: PinPadMatch,
    pin: SymbolPin,
    pads: Seq<Pad>,
    overrides: Seq<PinPadOverride>,
) -> bool {
    let target = override_for(overrides, pin.number@);
    let resolved = match target {
        Some(t) => t,
        None => pin.number@,
    };
    let pos = pad_position(pads, resolved);
    &&& same_pin(m.symbol_pin, pin)
    &&& match target {
        Some(t) => m.override_target is Some && m.override_target.unwrap()@ == t,
        None => m.override_target is None,
    }
    &&& pos < 0 ==> m.footprint_pad is None && m.status == MatchStatus::Unmatched
    &&& pos >= 0 ==> {
        &&& m.footprint_pad is Some
        &&& same_pad(m.footprint_pad.unwrap(), pads[pos])
        &&& m.status == (if target is Some {
            MatchStatus::Overridden
        } else {
            MatchStatus::Matched
        })
    }
}

/// A found pad position holds a pad with that number.
pub proof fn lemma_pad_position(pads: Seq<Pad>, number: Seq<char>)
    ensures
        pad_position(pads, number) < pads.len(),
        pad_position(pads, number) >= 0 ==> pads[pad_position(pads, number)].number@ == number,
        pad_position(pads, number) < 0 ==> forall|i: int|
            0 <= i < pads.len() ==> (#[trigger] pads[i]).number@ != number,
    decreases pads.len(),
{
    if pads.len() > 0 && pads[0].number@ != number {
        lemma_pad_position(pads.drop_first(), number);
        if pad_position(pads, number) < 0 {
            assert forall|i: int| 0 <= i < pads.len() implies (#[trigger] pads[i]).number@
                != number by {
                if i > 0 {
                    assert(pads[i] == pads.drop_first()[i - 1]);
                }
            }
        }
    }
}

/// Only symbol pins drive the bindings, and a pin is bound to the pad
/// named by its override (if any) or else by its own number: a pad
/// with any other number is never bound to it, and a pin is left
/// unbound only when no pad has that number.
pub proof fn lemma_binding_targets_named_pad(
    m: PinPadMatch,
    pin: SymbolPin,
    pads: Seq<Pad>,
    overrides: Seq<PinPadOverride>,
)
    requires
        is_binding(m, pin, pads, overrides),
    ensures
        ({
            let named = match override_for(overrides, pin.number@) {
                Some(t) => t,
                None => pin.number@,
            };
            &&& m.footprint_pad matches Some(p) ==> p.number@ == named
            &&& m.footprint_pad is None ==> forall|i: int|
                0 <= i < pads.len() ==> (#[trigger] pads[i]).number@ != named
        }),
{
    let named = match override_for(overrides, pin.number@) {
        Some(t) => t,
        None => pin.number@,
    };
    lemma_pad_position(pads, named);
}

impl SymbolPin {
    /// A field-for-field copy.
    pub fn duplicate(&self) -> (r: Self)
        ensures
            same_pin(r, *self),
    {
        SymbolPin { number: self.number.clone(), name: self.name.clone(), electrical: self.electrical }
    }
}

impl Pad {
    /// A field-for-field copy.
    pub fn duplicate(&self) -> (r: Self)
        ensures
            same_pad(r, *self),
    {
        let mut layers: Vec<String> = Vec::new();
        let mut i: usize = 0;
        while i < self.layers.len()
            invariant
                i <= self.layers@.len(),
                layers@.len() == i,
                forall|k: int| 0 <= k < i ==> #[trigger] layers@[k]@ == self.layers@[k]@,
            decreases self.layers@.len() - i,
        {
            layers.push(self.layers[i].clone());
            i = i + 1;
        }
        Pad {
            number: self.number.clone(),
            size_nm: self.size_nm,
            size_text: (self.size_text.0.clone(), self.size_text.1.clone()),
            layers,
        }
    }
}

pub(crate) fn find_override(overrides: &Vec<PinPadOverride>, pin_number: &String) -> (r: Option<String>)
    ensures
        match override_for(overrides@, pin_number@) {
            Some(t) => r is Some && r.unwrap()@ == t,
            None => r is None,
        },
{
    let mut i: usize = 0;
    assert(overrides@.subrange(0, overrides@.len() as int) =~= overrides@);
    while i < overrides.len()
        invariant
            i <= overrides@.len(),
            override_for(overrides@, pin_number@) == override_for(
                overrides@.subrange(i as int, overrides@.len() as int),
                pin_number@,
            ),
        decreases overrides@.len() - i,
    {
        let ghost rest = overrides@.subrange(i as int, overrides@.len() as int);
        assert(rest.drop_first() =~= overrides@.subrange(i + 1, overrides@.len() as int));
        assert(rest[0] == overrides@[i as int]);
        if overrides[i].symbol_pin_number == *pin_number {
            return Some(overrides[i].footprint_pad_number.clone());
        }
        i = i + 1;
    }
    assert(overrides@.subrange(i as int, overrides@.len() as int) =~= Seq::<PinPadOverride>::empty());
    None
}

fn find_pad(pads: &Vec<Pad>, number: &String) -> (r: Option<usize>)
    ensures
        pad_position(pads@, number@) < 0 <==> r is None,
        r matches Some(p) ==> p as int == pad_position(pads@, number@) && p < pads@.len(),
{
    let mut i: usize = 0;
    assert(pads@.subrange(0, pads@.len() as int) =~= pads@);
    while i < pads.len()
        invariant
            i <= pads@.len(),
            pad_position(pads@, number@) == (if pad_position(
                pads@.subrange(i as int, pads@.len() as int),
                number@,
            ) < 0 {
                -1
            } else {
                pad_position(pads@.subrange(i as int, pads@.len() as int), number@) + i
            }),
        decreases pads@.len() - i,
    {
        let ghost rest = pads@.subrange(i as int, pads@.len() as int);
        assert(rest.drop_first() =~= pads@.subrange(i + 1, pads@.len() as int));
        assert(rest[0] == pads@[i as int]);
        if pads[i].number == *number {
            return Some(i);
        }
        i = i + 1;
    }
    assert(pads@.subrange(i as int, pads@.len() as int) =~= Seq::<Pad>::empty());
    None
}

/// Bind one pin.
fn bind_pin(pin: &SymbolPin, fp: &Footprint, overrides: &Vec<PinPadOverride>) -> (m: PinPadMatch)
    ensures
        is_binding(m, *pin, fp.pads@, overrides@),
{
    let override_target = find_override(overrides, &pin.number);
    let pos = match &override_target {
        Some(t) => {
            let r = find_pad(&fp.pads, t);
            assert(t@ == override_for(overrides@, pin.number@).unwrap());
            r
        },
        None => find_pad(&fp.pads, &pin.number),
    };
    let ghost target = override_for(overrides@, pin.number@);
    let ghost resolved = match target {
        Some(t) => t,
        None => pin.number@,
    };
    assert(pos is Some ==> pos.unwrap() == pad_position(fp.pads@, resolved));
    assert(pos is None ==> pad_position(fp.pads@, resolved) < 0);
    let footprint_pad = match pos {
        Some(p) => {
            let d = fp.pads[p].duplicate();
            assert(same_pad(d, fp.pads@[pad_position(fp.pads@, resolved)]));
            Some(d)
        },
        None => None,
    };
    let status = match (&footprint_pad, &override_target) {
        (Some(_), Some(_)) => MatchStatus::Overridden,
        (Some(_), None) => MatchStatus::Matched,
        (None, _) => MatchStatus::Unmatched,
    };
    PinPadMatch { symbol_pin: pin.duplicate(), footprint_pad, override_target, status }
}

/// Bind every symbol pin, in pin order: to its override target if the
/// pin has one, else to the pad with its own number; unmatched when
/// that pad does not exist.
pub fn compute_matches(sym: &Symbol, fp: &Footprint, overrides: &Vec<PinPadOverride>) -> (out: Vec<
    PinPadMatch,
>)
    ensures
        out@.len() == sym.pins@.len(),
        forall|i: int|
            0 <= i < out@.len() ==> is_binding(
                #[trigger] out@[i],
                sym.pins@[i],
                fp.pads@,
                overrides@,
            ),
{
    let mut out: Vec<PinPadMatch> = Vec::new();
    let mut i: usize = 0;
    while i < sym.pins.len()
        invariant
            i <= sym.pins@.len(),
            out@.len() == i,
            forall|k: int|
                0 <= k < i ==> is_binding(#[trigger] out@[k], sym.pins@[k], fp.pads@, overrides@),
        decreases sym.pins@.len() - i,
    {
        let m = bind_pin(&sym.pins[i], fp, overrides);
        out.push(m);
        i = i + 1;
    }
    out
}

/// A layer name that denotes copper: ending in `.Cu`, or `Cu` itself
/// in any ASCII case.
pub open spec fn is_copper_layer(l: Seq<char>) -> bool {
    ||| l.len() >= 3 && l[l.len() - 3] == '.' && l[l.len() - 2] == 'C' && l[l.len() - 1] == 'u'
    ||| l.len() == 2 && (l[0] == 'C' || l[0] == 'c') && (l[1] == 'U' || l[1] == 'u')
}

/// At least one of the pad's layers is copper.
pub open spec fn spec_pad_has_copper(pad: Pad) -> bool {
    exists|i: int| 0 <= i < pad.layers@.len() && is_copper_layer(#[trigger] pad.layers@[i]@)
}

fn layer_is_copper(l: &String) -> (r: bool)
    ensures
        r == is_copper_layer(l@),
{
    let cs = chars_of(l.as_str());
    let n = cs.len();
    (n >= 3 && cs[n - 3] == '.' && cs[n - 2] == 'C' && cs[n - 1] == 'u') || (n == 2 && (cs[0] == 'C'
        || cs[0] == 'c') && (cs[1] == 'U' || cs[1] == 'u'))
}

/// True when at least one of the pad's layers is a copper layer.
pub fn pad_has_copper(pad: &Pad) -> (r: bool)
    ensures
        r == spec_pad_has_copper(*pad),
{
    let mut i: usize = 0;
    while i < pad.layers.len()
        invariant
            i <= pad.layers@.len(),
            forall|k: int| 0 <= k < i ==> !is_copper_layer(#[trigger] pad.layers@[k]@),
        decreases pad.layers@.len() - i,
    {
        if layer_is_copper(&pad.layers[i]) {
            return true;
        }
        i = i + 1;
    }
    false
}


/// How serious a validation finding is.
#[derive(Clone, Copy, Debug, PartialEq, Eq, Structural)]
pub enum WarningSeverity {
    /// Soft hint, non-blocking.
    Warn,
    /// Hard violation.
    Error,
}

/// A finding of the validation rules, for the warnings panel.
pub struct PinMapWarning {
    pub severity: WarningSeverity,
    pub message: String,
}

/// A power pin on a pad narrower than this (0.8 mm) in either direction
/// is likely under-specified for 1 A or more.
pub const SMALL_PAD_THRESHOLD_NM: u64 = 800_000;

/// How a pin is named in messages: its name with the number in
/// parentheses, or just the number when it has no name.
pub open spec fn pin_label(pin: SymbolPin) -> Seq<char> {
    if pin.name@.len() == 0 {
        pin.number@
    } else {
        pin.name@ + " ("@ + pin.number@ + ")"@
    }
}

/// The finding for one binding, if any: a power pin on a small pad
/// warns, a not-connected pin bound to a pad warns, an output pin on a
/// pad without copper is an error. Unbound pins yield nothing.
pub open spec fn finding(m: PinPadMatch) -> Option<(WarningSeverity, Seq<char>)> {
    match m.footprint_pad {
        None => None,
        Some(pad) => {
            let label = pin_label(m.symbol_pin);
            match m.symbol_pin.electrical {
                PinElectricalType::Power => if pad.size_nm.0 < SMALL_PAD_THRESHOLD_NM
                    || pad.size_nm.1 < SMALL_PAD_THRESHOLD_NM {
                    Some(
                        (
                            WarningSeverity::Warn,
                            label + " routed to "@ + pad.size_text.0@ + "\u{d7}"@
                                + pad.size_text.1@
                                + "mm pad \u{2014} under 0.8mm rec for \u{2265}1A"@,
                        ),
                    )
                } else {
                    None
                },
                PinElectricalType::NotConnected => Some(
                    (
                        WarningSeverity::Warn,
                        label + " marked NC but is connected to pad "@ + pad.number@,
                    ),
                ),
                PinElectricalType::Output => if !spec_pad_has_copper(pad) {
                    Some(
                        (
                            WarningSeverity::Error,
                            label + " drives mask-only pad "@ + pad.number@
                                + " (no copper layer)"@,
                        ),
                    )
                } else {
                    None
                },
                _ => None,
            }
        },
    }
}

/// A power pin bound to a pad narrower or lower than 0.8 mm (either
/// dimension on its own) is warned about; a power pin on a pad at least
/// 0.8 mm both ways is not. A not-connected pin bound to a pad is always
/// warned about, and an output pin on a pad without copper is an error.
pub proof fn lemma_finding_rules(m: PinPadMatch)
    ensures
        m.footprint_pad is None ==> finding(m) is None,
        m.footprint_pad matches Some(pad) ==> {
            &&& m.symbol_pin.electrical == PinElectricalType::Power ==> ((pad.size_nm.0 < 800_000
                || pad.size_nm.1 < 800_000) <==> finding(m) is Some)
            &&& m.symbol_pin.electrical == PinElectricalType::Power && (pad.size_nm.0 < 800_000
                || pad.size_nm.1 < 800_000) ==> finding(m).unwrap().0 == WarningSeverity::Warn
            &&& m.symbol_pin.electrical == PinElectricalType::NotConnected ==> (finding(m) is Some
                && finding(m).unwrap().0 == WarningSeverity::Warn)
            &&& m.symbol_pin.electrical == PinElectricalType::Output ==> (finding(m) is Some
                <==> !spec_pad_has_copper(pad))
            &&& m.symbol_pin.electrical == PinElectricalType::Output && !spec_pad_has_copper(pad)
                ==> finding(m).unwrap().0 == WarningSeverity::Error
            &&& m.symbol_pin.electrical != PinElectricalType::Power && m.symbol_pin.electrical
                != PinElectricalType::NotConnected && m.symbol_pin.electrical
                != PinElectricalType::Output ==> finding(m) is None
        },
{
}

/// Every finding names its pin first; the not-connected and mask-only
/// findings name the pad at their end, and a small-pad warning names
/// the pad's width and height after the pin.
pub proof fn lemma_finding_names_pin_and_pad(m: PinPadMatch)
    ensures
        finding(m) matches Some((_, text)) ==> text.take(pin_label(m.symbol_pin).len() as int)
            == pin_label(m.symbol_pin),
        m.footprint_pad matches Some(pad) ==> {
            let label = pin_label(m.symbol_pin);
            let text = finding(m).unwrap().1;
            &&& m.symbol_pin.electrical == PinElectricalType::NotConnected ==> text.skip(
                text.len() - pad.number@.len(),
            ) == pad.number@
            &&& m.symbol_pin.electrical == PinElectricalType::Power && finding(m) is Some ==> text.subrange(
                label.len() + 11int,
                label.len() + 11int + pad.size_text.0@.len(),
            ) == pad.size_text.0@
        },
{
    if let Some(pad) = m.footprint_pad {
        let label = pin_label(m.symbol_pin);
        match m.symbol_pin.electrical {
            PinElectricalType::Power => {
                if finding(m) is Some {
                    reveal_strlit(" routed to ");
                    let text = finding(m).unwrap().1;
                    assert(text.take(label.len() as int) =~= label);
                    assert(text.subrange(label.len() + 11int, label.len() + 11int + pad.size_text.0@.len())
                        =~= pad.size_text.0@);
                }
            },
            PinElectricalType::NotConnected => {
                let text = finding(m).unwrap().1;
                assert(text.take(label.len() as int) =~= label);
                assert(text.skip(text.len() - pad.number@.len()) =~= pad.number@);
            },
            PinElectricalType::Output => {
                if finding(m) is Some {
                    let text = finding(m).unwrap().1;
                    assert(text.take(label.len() as int) =~= label);
                }
            },
            _ => {},
        }
    }
}

/// The findings over a list of bindings, in binding order.
pub open spec fn findings(ms: Seq<PinPadMatch>) -> Seq<(WarningSeverity, Seq<char>)>
    decreases ms.len(),
{
    if ms.len() == 0 {
        Seq::empty()
    } else {
        let prev = findings(ms.drop_last());
        match finding(ms.last()) {
            Some(f) => prev.push(f),
            None => prev,
        }
    }
}

/// The text of `pin_label`.
fn label_text(pin: &SymbolPin) -> (r: String)
    ensures
        r@ == pin_label(*pin),
{
    if pin.name.as_str().unicode_len() == 0 {
        pin.number.clone()
    } else {
        let mut s = pin.name.clone();
        append_str(&mut s, " (");
        append_str(&mut s, pin.number.as_str());
        append_str(&mut s, ")");
        s
    }
}

/// The finding of one binding (see `finding`).
fn check_match(m: &PinPadMatch) -> (r: Option<PinMapWarning>)
    ensures
        match finding(*m) {
            None => r is None,
            Some((sev, text)) => r is Some && r.unwrap().severity == sev && r.unwrap().message@
                == text,
        },
{
    let pad = match &m.footprint_pad {
        Some(p) => p,
        None => return None,
    };
    match m.symbol_pin.electrical {
        PinElectricalType::Power => {
            if pad.size_nm.0 < SMALL_PAD_THRESHOLD_NM || pad.size_nm.1 < SMALL_PAD_THRESHOLD_NM {
                let mut s = label_text(&m.symbol_pin);
                append_str(&mut s, " routed to ");
                append_str(&mut s, pad.size_text.0.as_str());
                append_str(&mut s, "\u{d7}");
                append_str(&mut s, pad.size_text.1.as_str());
                append_str(&mut s, "mm pad \u{2014} under 0.8mm rec for \u{2265}1A");
                Some(PinMapWarning { severity: WarningSeverity::Warn, message: s })
            } else {
                None
            }
        },
        PinElectricalType::NotConnected => {
            let mut s = label_text(&m.symbol_pin);
            append_str(&mut s, " marked NC but is connected to pad ");
            append_str(&mut s, pad.number.as_str());
            Some(PinMapWarning { severity: WarningSeverity::Warn, message: s })
        },
        PinElectricalType::Output => {
            if !pad_has_copper(pad) {
                let mut s = label_text(&m.symbol_pin);
                append_str(&mut s, " drives mask-only pad ");
                append_str(&mut s, pad.number.as_str());
                append_str(&mut s, " (no copper layer)");
                Some(PinMapWarning { severity: WarningSeverity::Error, message: s })
            } else {
                None
            }
        },
        _ => None,
    }
}

/// Run the validation rules over a binding list: one finding per
/// binding that breaks a rule (see `finding`), in binding order.
pub fn validate(matches: &Vec<PinPadMatch>) -> (out: Vec<PinMapWarning>)
    ensures
        out@.len() == findings(matches@).len(),
        forall|i: int|
            0 <= i < out@.len() ==> (#[trigger] out@[i]).severity == findings(matches@)[i].0
                && out@[i].message@ == findings(matches@)[i].1,
{
    let mut out: Vec<PinMapWarning> = Vec::new();
    let mut i: usize = 0;
    while i < matches.len()
        invariant
            i <= matches@.len(),
            out@.len() == findings(matches@.take(i as int)).len(),
            forall|k: int|
                0 <= k < out@.len() ==> (#[trigger] out@[k]).severity == findings(
                    matches@.take(i as int),
                )[k].0 && out@[k].message@ == findings(matches@.take(i as int))[k].1,
        decreases matches@.len() - i,
    {
        assert(matches@.take(i + 1).drop_last() == matches@.take(i as int));
        assert(matches@.take(i + 1).last() == matches@[i as int]);
        if let Some(w) = check_match(&matches[i]) {
            out.push(w);
        }
        i = i + 1;
    }
    assert(matches@.take(matches@.len() as int) == matches@);
    out
}

} // verus!
