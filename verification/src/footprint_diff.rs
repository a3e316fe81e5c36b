//! Revision history — the footprint side of a revision diff: the pads
//! of a footprint body.

use vstd::prelude::*;
use crate::sexpr::{
    arg, arg_text, at_args, at_texts, has_keyword, keyword, lemma_trees_of_index, parse,
    parse_document, tree_of, trees_of, SExpr, STree,
};
use crate::text::{chars_of, trim_chars, trimmed};

verus! {

/// A pad found in a footprint body: its number and the text of the
/// first two arguments of its `(at …)`, when it has them.
pub struct ExtractedPad {
    pub number: String,
    pub at: Option<(String, String)>,
}

/// The model of an extracted pad.
pub open spec fn pad_view(p: ExtractedPad) -> (Seq<char>, Option<(Seq<char>, Seq<char>)>) {
    (
        p.number@,
        match p.at {
            Some((x, y)) => Some((x@, y@)),
            None => None,
        },
    )
}

/// The pad node `t` itself stands for, if it is a `(pad N …)`.
pub open spec fn own_pad(t: STree) -> Seq<(Seq<char>, Option<(Seq<char>, Seq<char>)>)> {
    if keyword(t) == Some("pad"@) {
        match arg(t, 1) {
            Some(num) => seq![(num, at_args(t))],
            None => Seq::empty(),
        }
    } else {
        Seq::empty()
    }
}

/// The pads under node `t` in the order of a depth-first walk with an
/// explicit stack: the node itself, then its child lists from the last
/// to the first.
pub open spec fn pad_walk(t: STree) -> Seq<(Seq<char>, Option<(Seq<char>, Seq<char>)>)>
    decreases t, 0nat,
{
    match t {
        STree::List(items) => own_pad(t) + pad_children(items, items.len()),
        _ => Seq::empty(),
    }
}

/// The pads under the child lists `items[0..k]`, from the last to the
/// first.
pub open spec fn pad_children(items: Seq<STree>, k: nat) -> Seq<
    (Seq<char>, Option<(Seq<char>, Seq<char>)>),
>
    decreases items, k,
{
    if k == 0 || k > items.len() {
        Seq::empty()
    } else {
        (if items[k - 1] is List {
            pad_walk(items[k - 1])
        } else {
            Seq::empty()
        }) + pad_children(items, (k - 1) as nat)
    }
}

fn walk_pads(e: &SExpr, out: &mut Vec<ExtractedPad>)
    ensures
        final(out)@.map_values(|p: ExtractedPad| pad_view(p)) == old(out)@.map_values(
            |p: ExtractedPad| pad_view(p),
        ) + pad_walk(tree_of(*e)),
    decreases *e,
{
    let ghost base = out@.map_values(|p: ExtractedPad| pad_view(p));
    let ghost t = tree_of(*e);
    match e {
        SExpr::List(items) => {
            let ghost ts = trees_of(items@, items@.len());
            proof {
                lemma_trees_of_index(items@, items@.len());
                assert(t == STree::List(ts));
            }
            if has_keyword(e, "pad") {
                if let Some(num) = arg_text(e, 1) {
                    let pad = ExtractedPad { number: num, at: at_texts(e) };
                    let ghost before = out@;
                    out.push(pad);
                    assert(out@.map_values(|p: ExtractedPad| pad_view(p)) =~= before.map_values(
                        |p: ExtractedPad| pad_view(p),
                    ).push(pad_view(pad)));
                }
            }
            let ghost with_own = out@.map_values(|p: ExtractedPad| pad_view(p));
            assert(with_own =~= base + own_pad(t));
            let mut k: usize = items.len();
            while k > 0
                invariant
                    k <= items@.len(),
                    ts == trees_of(items@, items@.len()),
                    ts.len() == items@.len(),
                    forall|i: int| 0 <= i < items@.len() ==> #[trigger] ts[i] == tree_of(items@[i]),
                    *e == SExpr::List(*items),
                    with_own + pad_children(ts, items@.len() as nat) == out@.map_values(
                        |p: ExtractedPad| pad_view(p),
                    ) + pad_children(ts, k as nat),
                decreases k,
            {
                let c = &items[k - 1];
                let ghost before = out@.map_values(|p: ExtractedPad| pad_view(p));
                let is_list = match c {
                    SExpr::List(_) => true,
                    _ => false,
                };
                assert(ts[k - 1] == tree_of(*c));
                if is_list {
                    proof {
                        let ghost v: Vec<SExpr> = (*e)->List_0;
                        assert(decreases_to!(*e => v));
                        assert(decreases_to!(v => v@));
                        assert(decreases_to!(v@ => v@[k - 1]));
                        assert(v@[k - 1] == *c);
                    }
                    walk_pads(c, out);
                    assert(ts[k - 1] is List);
                } else {
                    assert(!(ts[k - 1] is List));
                }
                let ghost step = if ts[k - 1] is List {
                    pad_walk(ts[k - 1])
                } else {
                    Seq::empty()
                };
                assert(out@.map_values(|p: ExtractedPad| pad_view(p)) =~= before + step);
                assert(pad_children(ts, k as nat) == step + pad_children(ts, (k - 1) as nat));
                assert(before + pad_children(ts, k as nat) =~= (before + step) + pad_children(
                    ts,
                    (k - 1) as nat,
                ));
                k = k - 1;
            }
            assert(pad_children(ts, 0) =~= Seq::empty());
            assert(out@.map_values(|p: ExtractedPad| pad_view(p)) + Seq::empty() =~= out@.map_values(
                |p: ExtractedPad| pad_view(p),
            ));
            assert(base + (own_pad(t) + pad_children(ts, items@.len() as nat)) =~= with_own
                + pad_children(ts, items@.len() as nat));
        },
        _ => {
            assert(base + pad_walk(t) =~= base);
        },
    }
}

/// Every `(pad N … (at x y))` of a footprint body, in the order of
/// `pad_walk`. An empty body or one that does not read as an
/// S-expression gives no pads.
pub fn extract_pads(sexpr_text: &str) -> (pads: Vec<ExtractedPad>)
    ensures
        pads@.map_values(|p: ExtractedPad| pad_view(p)) == (match parse_document(
            trimmed(sexpr_text@),
        ) {
            Some(t) => pad_walk(t),
            None => Seq::empty(),
        }),
{
    let text = trim_chars(&chars_of(sexpr_text));
    let mut out: Vec<ExtractedPad> = Vec::new();
    match parse(&text) {
        Some(root) => {
            walk_pads(&root, &mut out);
            assert(Seq::<ExtractedPad>::empty().map_values(|p: ExtractedPad| pad_view(p))
                + pad_walk(tree_of(root)) =~= pad_walk(tree_of(root)));
        },
        None => {
            assert(out@.map_values(|p: ExtractedPad| pad_view(p)) =~= Seq::empty());
        },
    }
    out
}

} // verus!
