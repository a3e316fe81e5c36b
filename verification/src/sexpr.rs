//! S-expressions, as the library's symbol and footprint bodies are
//! written: lists in parentheses, quoted strings (a backslash takes the
//! next character literally) and bare atoms, separated by whitespace.
//! A document is one expression, with whitespace around it.

use vstd::prelude::*;
use crate::text::{char_is_whitespace, is_whitespace, string_from_chars};

verus! {

/// An S-expression tree (the mathematical model).
pub enum STree {
    Atom(Seq<char>),
    Str(Seq<char>),
    List(Seq<STree>),
}

/// A parsed S-expression.
pub enum SExpr {
    Atom(String),
    Str(String),
    List(Vec<SExpr>),
}

/// The tree a parsed expression stands for.
pub open spec fn tree_of(e: SExpr) -> STree
    decreases e, 0nat,
{
    match e {
        SExpr::Atom(a) => STree::Atom(a@),
        SExpr::Str(s) => STree::Str(s@),
        SExpr::List(v) => STree::List(trees_of(v@, v@.len())),
    }
}

/// The trees of the first `n` expressions of `s`.
pub open spec fn trees_of(s: Seq<SExpr>, n: nat) -> Seq<STree>
    decreases s, n,
{
    if n == 0 || n > s.len() {
        Seq::empty()
    } else {
        trees_of(s, (n - 1) as nat).push(tree_of(s[n - 1]))
    }
}

/// Characters that end an atom.
pub open spec fn is_delimiter(c: char) -> bool {
    c == '(' || c == ')' || c == '"' || is_whitespace(c)
}

/// First position at or after `p` that is not whitespace.
pub open spec fn skip_ws(s: Seq<char>, p: int) -> int
    decreases s.len() - p,
{
    if 0 <= p < s.len() && is_whitespace(s[p]) {
        skip_ws(s, p + 1)
    } else {
        p
    }
}

/// First position at or after `p` that is a delimiter (or the end).
pub open spec fn atom_end(s: Seq<char>, p: int) -> int
    decreases s.len() - p,
{
    if 0 <= p < s.len() && !is_delimiter(s[p]) {
        atom_end(s, p + 1)
    } else {
        p
    }
}

/// The rest of a quoted string from `p` (just after the opening quote
/// or further in), `acc` read so far: its text and the position after
/// the closing quote; `None` when it is not closed.
pub open spec fn string_body(s: Seq<char>, p: int, acc: Seq<char>) -> Option<(Seq<char>, int)>
    decreases s.len() - p,
{
    if p < 0 || p >= s.len() {
        None
    } else if s[p] == '"' {
        Some((acc, p + 1))
    } else if s[p] == '\\' {
        if p + 1 < s.len() {
            string_body(s, p + 2, acc.push(s[p + 1]))
        } else {
            None
        }
    } else {
        string_body(s, p + 1, acc.push(s[p]))
    }
}

/// The expression starting at `p` (after whitespace) and the position
/// after it.
pub open spec fn parse_expr(s: Seq<char>, p: int) -> Option<(STree, int)>
    decreases s.len() - p, 0nat,
{
    let q = skip_ws(s, p);
    if q < p || q < 0 || q >= s.len() {
        None
    } else if s[q] == '(' {
        match parse_items(s, q + 1, Seq::empty()) {
            Some((items, e)) => Some((STree::List(items), e)),
            None => None,
        }
    } else if s[q] == ')' {
        None
    } else if s[q] == '"' {
        match string_body(s, q + 1, Seq::empty()) {
            Some((text, e)) => Some((STree::Str(text), e)),
            None => None,
        }
    } else {
        let e = atom_end(s, q);
        Some((STree::Atom(s.subrange(q, e)), e))
    }
}

/// The items of a list from `p` up to its closing parenthesis, `acc`
/// read so far, and the position after the parenthesis.
pub open spec fn parse_items(s: Seq<char>, p: int, acc: Seq<STree>) -> Option<(Seq<STree>, int)>
    decreases s.len() - p, 1nat,
{
    let r = skip_ws(s, p);
    if r < p || r < 0 || r >= s.len() {
        None
    } else if s[r] == ')' {
        Some((acc, r + 1))
    } else {
        match parse_expr(s, r) {
            Some((t, e)) => if r < e <= s.len() {
                parse_items(s, e, acc.push(t))
            } else {
                None
            },
            None => None,
        }
    }
}

/// A document: one expression with only whitespace around it.
pub open spec fn parse_document(s: Seq<char>) -> Option<STree> {
    match parse_expr(s, 0) {
        Some((t, e)) => if skip_ws(s, e) == s.len() {
            Some(t)
        } else {
            None
        },
        None => None,
    }
}

proof fn lemma_skip_ws(s: Seq<char>, p: int)
    requires
        0 <= p <= s.len(),
    ensures
        p <= skip_ws(s, p) <= s.len(),
        skip_ws(s, p) < s.len() ==> !is_whitespace(s[skip_ws(s, p)]),
    decreases s.len() - p,
{
    if p < s.len() && is_whitespace(s[p]) {
        lemma_skip_ws(s, p + 1);
    }
}

proof fn lemma_string_body(s: Seq<char>, p: int, acc: Seq<char>)
    requires
        0 <= p,
    ensures
        string_body(s, p, acc) matches Some((t, e)) ==> p < e <= s.len(),
    decreases s.len() - p,
{
    if 0 <= p < s.len() && s[p] != '"' {
        if s[p] == '\\' {
            if p + 1 < s.len() {
                lemma_string_body(s, p + 2, acc.push(s[p + 1]));
            }
        } else {
            lemma_string_body(s, p + 1, acc.push(s[p]));
        }
    }
}

proof fn lemma_atom_end(s: Seq<char>, p: int)
    requires
        0 <= p <= s.len(),
    ensures
        p <= atom_end(s, p) <= s.len(),
    decreases s.len() - p,
{
    if p < s.len() && !is_delimiter(s[p]) {
        lemma_atom_end(s, p + 1);
    }
}

fn skip_whitespace(s: &Vec<char>, p: usize) -> (q: usize)
    requires
        p <= s@.len(),
    ensures
        q == skip_ws(s@, p as int),
        p <= q <= s@.len(),
{
    let mut q = p;
    while q < s.len() && char_is_whitespace(s[q])
        invariant
            p <= q <= s@.len(),
            skip_ws(s@, p as int) == skip_ws(s@, q as int),
        decreases s@.len() - q,
    {
        q = q + 1;
    }
    q
}

fn char_is_delimiter(c: char) -> (r: bool)
    ensures
        r == is_delimiter(c),
{
    c == '(' || c == ')' || c == '"' || char_is_whitespace(c)
}

fn read_atom(s: &Vec<char>, p: usize) -> (r: (String, usize))
    requires
        p <= s@.len(),
    ensures
        r.1 == atom_end(s@, p as int),
        r.0@ == s@.subrange(p as int, r.1 as int),
        p <= r.1 <= s@.len(),
{
    let mut e = p;
    let mut text: Vec<char> = Vec::new();
    while e < s.len() && !char_is_delimiter(s[e])
        invariant
            p <= e <= s@.len(),
            atom_end(s@, p as int) == atom_end(s@, e as int),
            text@ == s@.subrange(p as int, e as int),
        decreases s@.len() - e,
    {
        text.push(s[e]);
        assert(s@.subrange(p as int, e + 1) =~= s@.subrange(p as int, e as int).push(s@[e as int]));
        e = e + 1;
    }
    (string_from_chars(&text), e)
}

fn read_string(s: &Vec<char>, p: usize) -> (r: Option<(String, usize)>)
    requires
        p <= s@.len(),
    ensures
        match string_body(s@, p as int, Seq::empty()) {
            Some((text, e)) => r matches Some(got) && got.0@ == text && got.1 == e && p < e
                <= s@.len(),
            None => r is None,
        },
{
    proof {
        lemma_string_body(s@, p as int, Seq::empty());
    }
    let mut q = p;
    let mut text: Vec<char> = Vec::new();
    while q < s.len()
        invariant
            p <= q <= s@.len() + 1,
            q <= s@.len() || string_body(s@, q as int, text@) is None,
            string_body(s@, p as int, Seq::empty()) == string_body(s@, q as int, text@),
        decreases s@.len() + 1 - q,
    {
        if s[q] == '"' {
            return Some((string_from_chars(&text), q + 1));
        } else if s[q] == '\\' {
            if q + 1 < s.len() {
                text.push(s[q + 1]);
                q = q + 2;
            } else {
                return None;
            }
        } else {
            text.push(s[q]);
            q = q + 1;
        }
    }
    None
}

/// The expression starting at `p` (see `parse_expr`).
fn read_expr(s: &Vec<char>, p: usize) -> (r: Option<(SExpr, usize)>)
    requires
        p <= s@.len(),
    ensures
        match parse_expr(s@, p as int) {
            Some((t, e)) => r matches Some(got) && tree_of(got.0) == t && got.1 == e && p < e
                <= s@.len(),
            None => r is None,
        },
    decreases s@.len() - p, 0nat,
{
    let q = skip_whitespace(s, p);
    proof {
        lemma_skip_ws(s@, p as int);
    }
    if q >= s.len() {
        return None;
    }
    if s[q] == '(' {
        let fresh: Vec<SExpr> = Vec::new();
        assert(trees_of(fresh@, 0) =~= Seq::<STree>::empty());
        match read_items(s, q + 1, fresh) {
            Some((items, e)) => Some((SExpr::List(items), e)),
            None => None,
        }
    } else if s[q] == ')' {
        None
    } else if s[q] == '"' {
        match read_string(s, q + 1) {
            Some((text, e)) => Some((SExpr::Str(text), e)),
            None => None,
        }
    } else {
        proof {
            lemma_atom_end(s@, q as int + 1);
        }
        let (text, e) = read_atom(s, q);
        Some((SExpr::Atom(text), e))
    }
}

/// The items of a list from `p` (see `parse_items`).
fn read_items(s: &Vec<char>, p: usize, acc: Vec<SExpr>) -> (r: Option<(Vec<SExpr>, usize)>)
    requires
        p <= s@.len(),
    ensures
        match parse_items(s@, p as int, trees_of(acc@, acc@.len())) {
            Some((items, e)) => r matches Some(got) && trees_of(got.0@, got.0@.len()) == items
                && got.1 == e && p < e <= s@.len(),
            None => r is None,
        },
    decreases s@.len() - p, 1nat,
{
    let r = skip_whitespace(s, p);
    if r >= s.len() {
        return None;
    }
    if s[r] == ')' {
        return Some((acc, r + 1));
    }
    match read_expr(s, r) {
        Some((t, e)) => {
            let mut acc = acc;
            let ghost before = acc@;
            acc.push(t);
            proof {
                lemma_trees_of_push(before, t);
            }
            read_items(s, e, acc)
        },
        None => None,
    }
}

proof fn lemma_trees_of_prefix(s: Seq<SExpr>, x: SExpr, n: nat)
    requires
        n <= s.len(),
    ensures
        trees_of(s.push(x), n) == trees_of(s, n),
    decreases n,
{
    if n > 0 {
        lemma_trees_of_prefix(s, x, (n - 1) as nat);
        assert(s.push(x)[n - 1] == s[n - 1]);
    }
}

proof fn lemma_trees_of_push(s: Seq<SExpr>, x: SExpr)
    ensures
        trees_of(s.push(x), s.push(x).len()) == trees_of(s, s.len()).push(tree_of(x)),
{
    lemma_trees_of_prefix(s, x, s.len());
    assert(s.push(x)[s.len() as int] == x);
}

/// Read a whole document (see `parse_document`).
pub fn parse(text: &Vec<char>) -> (r: Option<SExpr>)
    ensures
        match parse_document(text@) {
            Some(t) => r matches Some(e) && tree_of(e) == t,
            None => r is None,
        },
{
    match read_expr(text, 0) {
        Some((e, end)) => {
            let rest = skip_whitespace(text, end);
            if rest == text.len() {
                Some(e)
            } else {
                None
            }
        },
        None => None,
    }
}

/// The items of a list (nothing for an atom or string).
pub open spec fn items_of(t: STree) -> Seq<STree> {
    match t {
        STree::List(items) => items,
        _ => Seq::empty(),
    }
}

/// The text of an atom or string.
pub open spec fn text_of(t: STree) -> Option<Seq<char>> {
    match t {
        STree::Atom(a) => Some(a),
        STree::Str(x) => Some(x),
        STree::List(_) => None,
    }
}

/// A list's keyword: its first item, when that is an atom.
pub open spec fn keyword(t: STree) -> Option<Seq<char>> {
    let items = items_of(t);
    if items.len() > 0 {
        match items[0] {
            STree::Atom(a) => Some(a),
            _ => None,
        }
    } else {
        None
    }
}

/// The text of item `i` of a list (argument `i - 1`), when it is an
/// atom or a string.
pub open spec fn arg(t: STree, i: int) -> Option<Seq<char>> {
    let items = items_of(t);
    if t is List && 0 <= i < items.len() {
        text_of(items[i])
    } else {
        None
    }
}

/// The first item of `items` that is a list with keyword `name`.
pub open spec fn find_in(items: Seq<STree>, name: Seq<char>) -> Option<STree>
    decreases items.len(),
{
    if items.len() == 0 {
        None
    } else if items[0] is List && keyword(items[0]) == Some(name) {
        Some(items[0])
    } else {
        find_in(items.drop_first(), name)
    }
}

/// The first child list of `t` with keyword `name`.
pub open spec fn find(t: STree, name: Seq<char>) -> Option<STree> {
    find_in(items_of(t), name)
}

/// The first two arguments of the `(at x y …)` child of `t`, as text.
pub open spec fn at_args(t: STree) -> Option<(Seq<char>, Seq<char>)> {
    match find(t, "at"@) {
        Some(at) => match (arg(at, 1), arg(at, 2)) {
            (Some(x), Some(y)) => Some((x, y)),
            _ => None,
        },
        None => None,
    }
}

/// The trees of the first `n` expressions: one per expression.
pub proof fn lemma_trees_of_index(s: Seq<SExpr>, n: nat)
    requires
        n <= s.len(),
    ensures
        trees_of(s, n).len() == n,
        forall|i: int| 0 <= i < n ==> #[trigger] trees_of(s, n)[i] == tree_of(s[i]),
    decreases n,
{
    if n > 0 {
        lemma_trees_of_index(s, (n - 1) as nat);
    }
}

/// The text of an atom or string expression.
pub fn text_of_expr(e: &SExpr) -> (r: Option<String>)
    ensures
        match text_of(tree_of(*e)) {
            Some(t) => r matches Some(x) && x@ == t,
            None => r is None,
        },
{
    match e {
        SExpr::Atom(a) => Some(a.clone()),
        SExpr::Str(x) => Some(x.clone()),
        SExpr::List(_) => None,
    }
}

/// Whether a list's keyword is `name`.
pub fn has_keyword(e: &SExpr, name: &str) -> (r: bool)
    ensures
        r == (keyword(tree_of(*e)) == Some(name@)),
{
    match e {
        SExpr::List(items) => {
            proof {
                lemma_trees_of_index(items@, items@.len());
            }
            if items.len() == 0 {
                return false;
            }
            match &items[0] {
                SExpr::Atom(a) => *a == String::from_str(name),
                _ => false,
            }
        },
        _ => false,
    }
}

/// Item `i` of a list as text (see `arg`).
pub fn arg_text(e: &SExpr, i: usize) -> (r: Option<String>)
    ensures
        match arg(tree_of(*e), i as int) {
            Some(t) => r matches Some(x) && x@ == t,
            None => r is None,
        },
{
    match e {
        SExpr::List(items) => {
            proof {
                lemma_trees_of_index(items@, items@.len());
            }
            if i < items.len() {
                text_of_expr(&items[i])
            } else {
                None
            }
        },
        _ => None,
    }
}

/// The first child list of `e` with keyword `name` (see `find`).
pub fn find_child<'a>(e: &'a SExpr, name: &str) -> (r: Option<&'a SExpr>)
    ensures
        match find(tree_of(*e), name@) {
            Some(t) => r matches Some(c) && tree_of(*c) == t,
            None => r is None,
        },
{
    match e {
        SExpr::List(items) => {
            let ghost ts = trees_of(items@, items@.len());
            proof {
                lemma_trees_of_index(items@, items@.len());
                assert(ts.skip(0) =~= ts);
                assert(tree_of(*e) == STree::List(ts));
            }
            let mut i: usize = 0;
            while i < items.len()
                invariant
                    i <= items@.len(),
                    ts == trees_of(items@, items@.len()),
                    tree_of(*e) == STree::List(ts),
                    ts.len() == items@.len(),
                    forall|k: int| 0 <= k < items@.len() ==> #[trigger] ts[k] == tree_of(items@[k]),
                    find_in(ts, name@) == find_in(ts.skip(i as int), name@),
                decreases items@.len() - i,
            {
                assert(ts.skip(i as int).drop_first() =~= ts.skip(i + 1));
                assert(ts.skip(i as int)[0] == ts[i as int]);
                let c = &items[i];
                let is_list = match c {
                    SExpr::List(_) => true,
                    _ => false,
                };
                if is_list && has_keyword(c, name) {
                    assert(ts[i as int] == tree_of(*c));
                    assert(tree_of(*c) is List);
                    assert(ts.skip(i as int)[0] is List);
                    return Some(c);
                }
                i = i + 1;
            }
            assert(ts.skip(i as int).len() == 0);
            None
        },
        _ => None,
    }
}

/// The first two arguments of the `(at …)` child as text (see
/// `at_args`).
pub fn at_texts(e: &SExpr) -> (r: Option<(String, String)>)
    ensures
        match at_args(tree_of(*e)) {
            Some((x, y)) => r matches Some(got) && got.0@ == x && got.1@ == y,
            None => r is None,
        },
{
    match find_child(e, "at") {
        Some(at) => match (arg_text(at, 1), arg_text(at, 2)) {
            (Some(x), Some(y)) => Some((x, y)),
            _ => None,
        },
        None => None,
    }
}

} // verus!
