//! Revision history — the symbol side of a revision diff.
//!
//! Pins of a multi-unit symbol are keyed `<unit>:<number>`, the unit
//! being read from the name of the unit's sub-symbol, which has the
//! form `<root>_<unit>_<style>`.

use vstd::prelude::*;
use crate::decimal::{decimal_digits, lemma_decimal_digits_value, lemma_decimal_round_trip, parse_u32, parse_unsigned};
use crate::decimal::u64_to_decimal;
use crate::sexpr::{
    arg, arg_text, at_args, at_texts, find, find_child, has_keyword, keyword, lemma_trees_of_index,
    parse, parse_document, tree_of, trees_of, SExpr, STree,
};
use crate::text::{append_str, chars_of, trim_chars, trimmed};

verus! {

/// Side of the diff being rendered.
#[derive(Clone, Copy, Debug, PartialEq, Eq, Structural)]
pub enum Side {
    Prev,
    Next,
}

/// `s` without its leading `"` characters.
pub open spec fn strip_leading_quotes(s: Seq<char>) -> Seq<char>
    decreases s.len(),
{
    if s.len() > 0 && s[0] == '"' {
        strip_leading_quotes(s.drop_first())
    } else {
        s
    }
}

/// `s` without its trailing `"` characters.
pub open spec fn strip_trailing_quotes(s: Seq<char>) -> Seq<char>
    decreases s.len(),
{
    if s.len() > 0 && s.last() == '"' {
        strip_trailing_quotes(s.drop_last())
    } else {
        s
    }
}

/// `s` without the `"` characters at either end (`trim_matches('"')`).
pub open spec fn trim_quotes(s: Seq<char>) -> Seq<char> {
    strip_trailing_quotes(strip_leading_quotes(s))
}

/// Index of the last `c` in `s`, or -1.
pub open spec fn last_index_of(s: Seq<char>, c: char) -> int
    decreases s.len(),
{
    if s.len() == 0 {
        -1
    } else if s.last() == c {
        s.len() - 1
    } else {
        last_index_of(s.drop_last(), c)
    }
}

/// The unit number of a unit sub-symbol named `<root>_<unit>_<style>`
/// (quotes around the name ignored): present when the name has at
/// least two `_` and both the part after the last one (the style) and
/// the part between the last two (the unit) read as `u32`.
pub open spec fn symbol_unit_index(name: Seq<char>) -> Option<nat> {
    let u = trim_quotes(name);
    let i = last_index_of(u, '_');
    let j = last_index_of(u.take(i), '_');
    if i < 0 || j < 0 {
        None
    } else {
        match (
            parse_unsigned(u.skip(i + 1), u32::MAX as nat),
            parse_unsigned(u.subrange(j + 1, i), u32::MAX as nat),
        ) {
            (Some(_), Some(unit)) => Some(unit),
            _ => None,
        }
    }
}

fn trim_quote_chars(s: &Vec<char>) -> (r: Vec<char>)
    ensures
        r@ == trim_quotes(s@),
{
    let mut a: usize = 0;
    assert(s@.skip(0) =~= s@);
    while a < s.len() && s[a] == '"'
        invariant
            a <= s@.len(),
            strip_leading_quotes(s@) == strip_leading_quotes(s@.skip(a as int)),
        decreases s@.len() - a,
    {
        assert(s@.skip(a as int).drop_first() =~= s@.skip(a + 1));
        a = a + 1;
    }
    assert(strip_leading_quotes(s@.skip(a as int)) == s@.skip(a as int));
    let ghost lead = s@.skip(a as int);
    let mut b: usize = s.len();
    assert(lead.take(b - a) =~= lead);
    while b > a && s[b - 1] == '"'
        invariant
            a <= b <= s@.len(),
            lead == s@.skip(a as int),
            strip_trailing_quotes(lead) == strip_trailing_quotes(lead.take(b - a)),
        decreases b,
    {
        assert(lead.take(b - a).drop_last() =~= lead.take(b - 1 - a));
        assert(lead.take(b - a).last() == s@[b - 1]);
        b = b - 1;
    }
    proof {
        if b > a {
            assert(lead.take(b - a).last() == s@[b - 1]);
        }
    }
    let r = slice_chars(s, a, b);
    assert(r@ =~= lead.take(b - a));
    r
}

/// `s[from..to]` as a vector.
fn slice_chars(s: &Vec<char>, from: usize, to: usize) -> (r: Vec<char>)
    requires
        from <= to <= s@.len(),
    ensures
        r@ == s@.subrange(from as int, to as int),
{
    let mut r: Vec<char> = Vec::new();
    let mut k: usize = from;
    while k < to
        invariant
            from <= k <= to,
            to <= s@.len(),
            r@ == s@.subrange(from as int, k as int),
        decreases to - k,
    {
        r.push(s[k]);
        assert(s@.subrange(from as int, k + 1) =~= s@.subrange(from as int, k as int).push(
            s@[k as int],
        ));
        k = k + 1;
    }
    r
}

/// Index of the last `c` among the first `n` characters of `s`, or
/// `None`.
fn last_index_before(s: &Vec<char>, n: usize, c: char) -> (r: Option<usize>)
    requires
        n <= s@.len(),
    ensures
        match r {
            Some(i) => i == last_index_of(s@.take(n as int), c) && i < n,
            None => last_index_of(s@.take(n as int), c) == -1,
        },
{
    let mut k: usize = n;
    while k > 0
        invariant
            k <= n <= s@.len(),
            last_index_of(s@.take(n as int), c) == last_index_of(s@.take(k as int), c),
        decreases k,
    {
        assert(s@.take(k as int).drop_last() =~= s@.take(k - 1));
        assert(s@.take(k as int).last() == s@[k - 1]);
        if s[k - 1] == c {
            return Some(k - 1);
        }
        k = k - 1;
    }
    None
}

/// `<root>_<unit>_<style>` → unit number (see `symbol_unit_index`).
pub fn parse_symbol_unit_index(name: &str) -> (r: Option<u32>)
    ensures
        match symbol_unit_index(name@) {
            Some(unit) => r == Some(unit as u32),
            None => r is None,
        },
{
    let all = chars_of(name);
    let u = trim_quote_chars(&all);
    let i = match last_index_before(&u, u.len(), '_') {
        Some(i) => i,
        None => {
            assert(u@.take(u@.len() as int) =~= u@);
            return None;
        },
    };
    assert(u@.take(u@.len() as int) =~= u@);
    let j = match last_index_before(&u, i, '_') {
        Some(j) => j,
        None => return None,
    };
    let style = slice_chars(&u, i + 1, u.len());
    assert(style@ =~= u@.skip(i + 1));
    let unit_text = slice_chars(&u, j + 1, i);
    match parse_u32(&style) {
        None => None,
        Some(_) => parse_u32(&unit_text),
    }
}

proof fn lemma_strip_leading_append(r: Seq<char>, t: Seq<char>)
    requires
        t.len() > 0,
        t[0] != '"',
    ensures
        strip_leading_quotes(r + t) == strip_leading_quotes(r) + t,
    decreases r.len(),
{
    if r.len() > 0 && r[0] == '"' {
        assert((r + t).drop_first() =~= r.drop_first() + t);
        lemma_strip_leading_append(r.drop_first(), t);
    } else if r.len() == 0 {
        assert(r + t =~= t);
        assert(strip_leading_quotes(r) =~= r);
    }
}

proof fn lemma_last_index_after(a: Seq<char>, b: Seq<char>, c: char)
    requires
        forall|k: int| 0 <= k < b.len() ==> b[k] != c,
    ensures
        last_index_of(a + seq![c] + b, c) == a.len(),
    decreases b.len(),
{
    if b.len() == 0 {
        assert(a + seq![c] + b =~= a.push(c));
        assert((a + seq![c] + b).last() == c);
    } else {
        assert((a + seq![c] + b).drop_last() =~= a + seq![c] + b.drop_last());
        lemma_last_index_after(a, b.drop_last(), c);
    }
}

proof fn lemma_digits_have_no(n: nat, c: char)
    requires
        !('0' <= c && c <= '9'),
    ensures
        forall|k: int| 0 <= k < decimal_digits(n).len() ==> decimal_digits(n)[k] != c,
{
    lemma_decimal_digits_value(n);
    assert forall|k: int| 0 <= k < decimal_digits(n).len() implies decimal_digits(n)[k] != c by {
        assert(crate::text::is_digit(decimal_digits(n)[k]));
    }
}

/// A unit sub-symbol named `<root>_<unit>_<style>`, unit and style
/// written in decimal, gives back its unit, whatever the root.
pub proof fn lemma_symbol_unit_index_of_name(root: Seq<char>, unit: nat, style: nat)
    requires
        unit <= u32::MAX,
        style <= u32::MAX,
    ensures
        symbol_unit_index(
            root + seq!['_'] + decimal_digits(unit) + seq!['_'] + decimal_digits(style),
        ) == Some(unit),
{
    let du = decimal_digits(unit);
    let ds = decimal_digits(style);
    lemma_decimal_digits_value(unit);
    lemma_decimal_digits_value(style);
    lemma_digits_have_no(unit, '_');
    lemma_digits_have_no(style, '_');
    lemma_digits_have_no(style, '"');
    let name = root + seq!['_'] + du + seq!['_'] + ds;
    let tail = seq!['_'] + du + seq!['_'] + ds;
    assert(name =~= root + tail);
    lemma_strip_leading_append(root, tail);
    let r2 = strip_leading_quotes(root);
    let u = r2 + tail;
    assert(u.last() == ds.last());
    assert(strip_trailing_quotes(u) == u);
    assert(trim_quotes(name) == u);
    assert(u =~= (r2 + seq!['_'] + du) + seq!['_'] + ds);
    lemma_last_index_after(r2 + seq!['_'] + du, ds, '_');
    let i = (r2.len() + 1 + du.len()) as int;
    assert(last_index_of(u, '_') == i);
    assert(u.take(i) =~= r2 + seq!['_'] + du);
    lemma_last_index_after(r2, du, '_');
    assert(last_index_of(u.take(i), '_') == r2.len());
    assert(u.skip(i + 1) =~= ds);
    assert(u.subrange(r2.len() + 1int, i) =~= du);
    lemma_decimal_round_trip(style, u32::MAX as nat);
    lemma_decimal_round_trip(unit, u32::MAX as nat);
}

/// A pin found in a symbol body: its `<unit>:<number>` key and the text
/// of the first two arguments of its `(at …)`, when it has them.
pub struct ExtractedPin {
    pub key: String,
    pub at: Option<(String, String)>,
}

/// The model of an extracted pin.
pub open spec fn pin_view(p: ExtractedPin) -> (Seq<char>, Option<(Seq<char>, Seq<char>)>) {
    (
        p.key@,
        match p.at {
            Some((x, y)) => Some((x@, y@)),
            None => None,
        },
    )
}

/// The unit in force inside node `t`: a `(symbol "<root>_<unit>_<style>" …)`
/// node sets it, anything else keeps the enclosing one.
pub open spec fn next_unit(t: STree, unit: nat) -> nat {
    if keyword(t) == Some("symbol"@) {
        match arg(t, 1) {
            Some(name) => match symbol_unit_index(name) {
                Some(u) => u,
                None => unit,
            },
            None => unit,
        }
    } else {
        unit
    }
}

/// The pin node `t` itself stands for, if it is a `(pin …)` with a
/// `(number N)`: key `<unit>:N`.
pub open spec fn own_pin(t: STree, unit: nat) -> Seq<(Seq<char>, Option<(Seq<char>, Seq<char>)>)> {
    if keyword(t) == Some("pin"@) {
        match find(t, "number"@) {
            Some(nn) => match arg(nn, 1) {
                Some(num) => seq![(decimal_digits(unit) + ":"@ + num, at_args(t))],
                None => Seq::empty(),
            },
            None => Seq::empty(),
        }
    } else {
        Seq::empty()
    }
}

/// The pins under node `t` in the order of a depth-first walk with an
/// explicit stack: the node itself, then its child lists from the last
/// to the first.
pub open spec fn pin_walk(t: STree, unit: nat) -> Seq<(Seq<char>, Option<(Seq<char>, Seq<char>)>)>
    decreases t, 0nat,
{
    let next = next_unit(t, unit);
    match t {
        STree::List(items) => own_pin(t, next) + pin_children(items, next, items.len()),
        _ => Seq::empty(),
    }
}

/// The pins under the child lists `items[0..k]`, from the last to the
/// first.
pub open spec fn pin_children(items: Seq<STree>, unit: nat, k: nat) -> Seq<
    (Seq<char>, Option<(Seq<char>, Seq<char>)>),
>
    decreases items, k,
{
    if k == 0 || k > items.len() {
        Seq::empty()
    } else {
        (if items[k - 1] is List {
            pin_walk(items[k - 1], unit)
        } else {
            Seq::empty()
        }) + pin_children(items, unit, (k - 1) as nat)
    }
}

fn next_unit_exec(e: &SExpr, unit: u32) -> (r: u32)
    ensures
        r == next_unit(tree_of(*e), unit as nat),
{
    if has_keyword(e, "symbol") {
        match arg_text(e, 1) {
            Some(name) => match parse_symbol_unit_index(name.as_str()) {
                Some(u) => u,
                None => unit,
            },
            None => unit,
        }
    } else {
        unit
    }
}

fn walk_pins(e: &SExpr, unit: u32, out: &mut Vec<ExtractedPin>)
    ensures
        final(out)@.map_values(|p: ExtractedPin| pin_view(p)) == old(out)@.map_values(
            |p: ExtractedPin| pin_view(p),
        ) + pin_walk(tree_of(*e), unit as nat),
    decreases *e,
{
    let ghost base = out@.map_values(|p: ExtractedPin| pin_view(p));
    let next = next_unit_exec(e, unit);
    let ghost t = tree_of(*e);
    match e {
        SExpr::List(items) => {
            let ghost ts = trees_of(items@, items@.len());
            proof {
                lemma_trees_of_index(items@, items@.len());
                assert(t == STree::List(ts));
            }
            if has_keyword(e, "pin") {
                if let Some(nn) = find_child(e, "number") {
                    if let Some(num) = arg_text(nn, 1) {
                        let mut key = u64_to_decimal(next as u64);
                        append_str(&mut key, ":");
                        append_str(&mut key, num.as_str());
                        let pin = ExtractedPin { key, at: at_texts(e) };
                        let ghost before = out@;
                        out.push(pin);
                        assert(out@.map_values(|p: ExtractedPin| pin_view(p)) =~= before.map_values(
                            |p: ExtractedPin| pin_view(p),
                        ).push(pin_view(pin)));
                    }
                }
            }
            let ghost with_own = out@.map_values(|p: ExtractedPin| pin_view(p));
            assert(with_own =~= base + own_pin(t, next as nat));
            let mut k: usize = items.len();
            assert(pin_children(ts, next as nat, items@.len() as nat) =~= pin_children(
                ts,
                next as nat,
                k as nat,
            ));
            assert(with_own + pin_children(ts, next as nat, k as nat) =~= with_own
                + pin_children(ts, next as nat, k as nat));
            while k > 0
                invariant
                    k <= items@.len(),
                    ts == trees_of(items@, items@.len()),
                    ts.len() == items@.len(),
                    forall|i: int| 0 <= i < items@.len() ==> #[trigger] ts[i] == tree_of(items@[i]),
                    *e == SExpr::List(*items),
                    with_own + pin_children(ts, next as nat, items@.len() as nat) == out@.map_values(
                        |p: ExtractedPin| pin_view(p),
                    ) + pin_children(ts, next as nat, k as nat),
                decreases k,
            {
                let c = &items[k - 1];
                let ghost before = out@.map_values(|p: ExtractedPin| pin_view(p));
                let is_list = match c {
                    SExpr::List(_) => true,
                    _ => false,
                };
                assert(ts[k - 1] == tree_of(*c));
                if is_list {
                    proof {
                        let ghost v: Vec<SExpr> = (*e)->List_0;
                        assert(decreases_to!(*e => v));
                        assert(decreases_to!(v => v@));
                        assert(decreases_to!(v@ => v@[k - 1]));
                        assert(v@[k - 1] == *c);
                    }
                    walk_pins(c, next, out);
                    assert(ts[k - 1] is List);
                } else {
                    assert(!(ts[k - 1] is List));
                }
                let ghost step = if ts[k - 1] is List {
                    crate::symbol_diff::pin_walk(ts[k - 1], next as nat)
                } else {
                    Seq::empty()
                };
                assert(out@.map_values(|p: ExtractedPin| pin_view(p)) =~= before + step);
                assert(pin_children(ts, next as nat, k as nat) == step + pin_children(
                    ts,
                    next as nat,
                    (k - 1) as nat,
                ));
                assert(before + pin_children(ts, next as nat, k as nat) =~= (before + step)
                    + pin_children(ts, next as nat, (k - 1) as nat));
                k = k - 1;
            }
            assert(pin_children(ts, next as nat, 0) =~= Seq::empty());
            assert(out@.map_values(|p: ExtractedPin| pin_view(p)) + Seq::empty() =~= out@.map_values(
                |p: ExtractedPin| pin_view(p),
            ));
            assert(base + (own_pin(t, next as nat) + pin_children(ts, next as nat, items@.len() as nat))
                =~= with_own + pin_children(ts, next as nat, items@.len() as nat));
        },
        _ => {
            assert(base + pin_walk(t, unit as nat) =~= base);
        },
    }
}

/// Every `(pin … (number "N") … (at x y))` of a symbol body, keyed
/// `<unit>:<number>` (the unit from the enclosing unit sub-symbol,
/// 0 outside any), in the order of `pin_walk`. An empty body or one
/// that does not read as an S-expression gives no pins.
pub fn extract_pins(sexpr_text: &str) -> (pins: Vec<ExtractedPin>)
    ensures
        pins@.map_values(|p: ExtractedPin| pin_view(p)) == (match parse_document(
            trimmed(sexpr_text@),
        ) {
            Some(t) => pin_walk(t, 0),
            None => Seq::empty(),
        }),
{
    let text = trim_chars(&chars_of(sexpr_text));
    let mut out: Vec<ExtractedPin> = Vec::new();
    match parse(&text) {
        Some(root) => {
            walk_pins(&root, 0, &mut out);
            assert(Seq::<ExtractedPin>::empty().map_values(|p: ExtractedPin| pin_view(p))
                + pin_walk(tree_of(root), 0) =~= pin_walk(tree_of(root), 0));
        },
        None => {
            assert(out@.map_values(|p: ExtractedPin| pin_view(p)) =~= Seq::empty());
        },
    }
    out
}

/// How a pin or pad is drawn on one side of a revision diff.
#[derive(Clone, Copy, Debug, PartialEq, Eq, Structural)]
pub enum DiffMark {
    /// Only in the newer revision (outlined green, on the `Next` side).
    Added,
    /// Only in the older revision (outlined and struck through red, on
    /// the `Prev` side).
    Removed,
    /// In both, at another position (blue).
    Moved,
    /// Unchanged.
    Neutral,
}

/// `keys` holds `key`.
pub open spec fn holds_text(keys: Seq<String>, key: Seq<char>) -> bool {
    exists|i: int| 0 <= i < keys.len() && (#[trigger] keys[i])@ == key
}

/// The mark of the item keyed `key` on `side`: added items show on the
/// newer side, removed ones on the older side, moved ones on both.
pub open spec fn diff_mark(
    side: Side,
    key: Seq<char>,
    added: Seq<String>,
    removed: Seq<String>,
    moved: Seq<String>,
) -> DiffMark {
    if holds_text(added, key) && side == Side::Next {
        DiffMark::Added
    } else if holds_text(removed, key) && side == Side::Prev {
        DiffMark::Removed
    } else if holds_text(moved, key) {
        DiffMark::Moved
    } else {
        DiffMark::Neutral
    }
}

fn has_text(keys: &Vec<String>, key: &String) -> (r: bool)
    ensures
        r == holds_text(keys@, key@),
{
    let mut i: usize = 0;
    while i < keys.len()
        invariant
            i <= keys@.len(),
            forall|k: int| 0 <= k < i ==> keys@[k]@ != key@,
        decreases keys@.len() - i,
    {
        if keys[i] == *key {
            assert(keys@[i as int]@ == key@);
            return true;
        }
        i = i + 1;
    }
    false
}

/// The mark of a pin on `side` (see `diff_mark`); `moved` lists the
/// keys of the moved pins. Pads are marked the same way with no moved
/// list.
pub fn pin_mark(
    side: Side,
    key: &String,
    added: &Vec<String>,
    removed: &Vec<String>,
    moved: &Vec<String>,
) -> (r: DiffMark)
    ensures
        r == diff_mark(side, key@, added@, removed@, moved@),
{
    if has_text(added, key) && side == Side::Next {
        DiffMark::Added
    } else if has_text(removed, key) && side == Side::Prev {
        DiffMark::Removed
    } else if has_text(moved, key) {
        DiffMark::Moved
    } else {
        DiffMark::Neutral
    }
}

/// Moved-pin arrows are drawn on the newer side only, so that two
/// canvases side by side do not show them twice.
pub fn draws_moved_arrows(side: Side) -> (r: bool)
    ensures
        r == (side == Side::Next),
{
    match side {
        Side::Next => true,
        Side::Prev => false,
    }
}

/// The label drawn next to a pin: the part of its key after the last
/// `:` (the whole key when there is none); nothing when that is empty.
pub open spec fn key_label(key: Seq<char>) -> Option<Seq<char>> {
    let after = key.skip(last_index_of(key, ':') + 1);
    if after.len() == 0 {
        None
    } else {
        Some(after)
    }
}

/// The label drawn next to a pin (see `key_label`).
pub fn pin_label(key: &String) -> (r: Option<String>)
    ensures
        match key_label(key@) {
            Some(l) => r matches Some(x) && x@ == l,
            None => r is None,
        },
{
    let cs = chars_of(key.as_str());
    let from = match last_index_before(&cs, cs.len(), ':') {
        Some(i) => i + 1,
        None => 0,
    };
    assert(cs@.take(cs@.len() as int) =~= cs@);
    if from == cs.len() {
        return None;
    }
    let rest = slice_chars(&cs, from, cs.len());
    assert(rest@ =~= key@.skip(last_index_of(key@, ':') + 1));
    Some(crate::text::string_from_chars(&rest))
}

} // verus!
