//! Footprint sketch mode — the numeric placement buffer: typed lengths,
//! angles and radii that pin the next click of the active tool.
//!
//! Which dimension the active tool takes (`kind_for_active`) and the
//! Tab order of its fields (`fields`) are supplied by the caller, which
//! derives them from the active tool and its pending gesture.

use vstd::prelude::*;
use crate::text::{char_is_digit, chars_of, contains_char, is_digit, pop_char, push_char};
use crate::types::{FootprintEditor, FootprintEditorState, PlacementInput, PlacementInputKind};

verus! {

/// Whether typing `ch` into `buf` (of dimension `kind`) is accepted:
/// digits always, one decimal point per buffer, and a leading minus
/// only for a dimension that may be negative.
pub open spec fn accepts_char(buf: Seq<char>, kind: PlacementInputKind, ch: char) -> bool {
    ||| is_digit(ch)
    ||| ch == '.' && !buf.contains('.')
    ||| ch == '-' && kind.spec_allows_negative() && buf.len() == 0
}

/// A well-formed buffer: digits, at most one decimal point, and a minus
/// only in front and only where the dimension may be negative.
pub open spec fn buffer_ok(buf: Seq<char>, kind: PlacementInputKind) -> bool {
    &&& forall|i: int| 0 <= i < buf.len() ==> is_digit(#[trigger] buf[i]) || buf[i] == '.' || (
    buf[i] == '-' && i == 0 && kind.spec_allows_negative())
    &&& forall|i: int, j: int| 0 <= i < j < buf.len() && buf[i] == '.' ==> buf[j] != '.'
}

/// The dimension a keypress types into: that of the open buffer, else
/// the one the active tool takes.
pub open spec fn typing_kind<P>(
    st: FootprintEditorState<P>,
    kind_for_active: Option<PlacementInputKind>,
) -> Option<PlacementInputKind> {
    match st.placement_input {
        Some(p) => Some(p.kind),
        None => kind_for_active,
    }
}

/// Type one character into the placement buffer. The keypress is
/// dropped when no buffer is open and the active tool takes no number,
/// or when the character is not accepted (see `accepts_char`);
/// otherwise it is appended, opening a buffer of the tool's dimension
/// when none is open.
pub fn placement_input_char<P, G>(
    editor: &mut FootprintEditor<P, G>,
    ch: char,
    kind_for_active: Option<PlacementInputKind>,
)
    ensures
        ({
            let o = old(editor).state;
            let buf: Seq<char> = match o.placement_input {
                Some(p) => p.buffer@,
                None => Seq::empty(),
            };
            match typing_kind(o, kind_for_active) {
                None => *final(editor) == *old(editor),
                Some(kind) => if !accepts_char(buf, kind, ch) {
                    *final(editor) == *old(editor)
                } else {
                    &&& final(editor).state.placement_input is Some
                    &&& final(editor).state.placement_input.unwrap().kind == kind
                    &&& final(editor).state.placement_input.unwrap().buffer@ == buf.push(ch)
                    &&& *final(editor) == (FootprintEditor {
                        state: FootprintEditorState {
                            placement_input: final(editor).state.placement_input,
                            ..o
                        },
                        canvas_stale: true,
                        ..*old(editor)
                    })
                },
            }
        }),
{
    let kind = match &editor.state.placement_input {
        Some(existing) => existing.kind,
        None => match kind_for_active {
            Some(k) => k,
            None => return ,
        },
    };
    let buf: Vec<char> = match &editor.state.placement_input {
        Some(p) => chars_of(p.buffer.as_str()),
        None => Vec::new(),
    };
    let accept = if char_is_digit(ch) {
        true
    } else if ch == '.' {
        !contains_char(&buf, '.')
    } else if ch == '-' {
        kind.allows_negative() && buf.len() == 0
    } else {
        false
    };
    if !accept {
        return ;
    }
    let mut entry = match editor.state.placement_input.take() {
        Some(p) => p,
        None => PlacementInput { buffer: String::new(), kind },
    };
    push_char(&mut entry.buffer, ch);
    editor.state.placement_input = Some(entry);
    editor.canvas_stale = true;
}

/// Typing an accepted character keeps a well-formed buffer well formed.
pub proof fn lemma_accepted_char_keeps_buffer_ok(
    buf: Seq<char>,
    kind: PlacementInputKind,
    ch: char,
)
    requires
        buffer_ok(buf, kind),
        accepts_char(buf, kind, ch),
    ensures
        buffer_ok(buf.push(ch), kind),
{
    let nb = buf.push(ch);
    assert forall|i: int, j: int| 0 <= i < j < nb.len() && nb[i] == '.' implies nb[j] != '.' by {
        if j == buf.len() && ch == '.' {
            assert(buf[i] == '.');
            assert(buf.contains('.'));
        }
    }
}

/// Which keys a placement buffer takes: every decimal digit; a decimal
/// point exactly when the buffer holds none yet; a minus only into an
/// empty buffer of a dimension that may be negative; nothing else.
pub proof fn lemma_accepted_keys(buf: Seq<char>, kind: PlacementInputKind, ch: char)
    ensures
        '0' <= ch <= '9' ==> accepts_char(buf, kind, ch),
        ch == '.' ==> (accepts_char(buf, kind, ch) <==> forall|i: int|
            0 <= i < buf.len() ==> buf[i] != '.'),
        ch == '-' ==> (accepts_char(buf, kind, ch) <==> (buf.len() == 0
            && kind.spec_allows_negative())),
        !('0' <= ch <= '9') && ch != '.' && ch != '-' ==> !accepts_char(buf, kind, ch),
{
    if ch == '.' {
        if !(forall|i: int| 0 <= i < buf.len() ==> buf[i] != '.') {
            let i = choose|i: int| 0 <= i < buf.len() && buf[i] == '.';
            assert(buf.contains('.'));
        }
    }
}

/// Removing the last character keeps a buffer well formed.
pub proof fn lemma_backspace_keeps_buffer_ok(buf: Seq<char>, kind: PlacementInputKind)
    requires
        buffer_ok(buf, kind),
        buf.len() > 0,
    ensures
        buffer_ok(buf.drop_last(), kind),
{
    let d = buf.drop_last();
    assert forall|i: int| 0 <= i < d.len() implies is_digit(#[trigger] d[i]) || d[i] == '.' || (
    d[i] == '-' && i == 0 && kind.spec_allows_negative()) by {
        assert(d[i] == buf[i]);
    }
    assert forall|i: int, j: int| 0 <= i < j < d.len() && d[i] == '.' implies d[j] != '.' by {
        assert(d[i] == buf[i] && d[j] == buf[j]);
    }
}

/// Backspace: drop the last typed character; a buffer that becomes
/// empty is closed. Nothing happens without an open buffer.
pub fn placement_input_backspace<P, G>(editor: &mut FootprintEditor<P, G>)
    ensures
        match old(editor).state.placement_input {
            None => *final(editor) == *old(editor),
            Some(p) => {
                &&& if p.buffer@.len() <= 1 {
                    final(editor).state.placement_input is None
                } else {
                    &&& final(editor).state.placement_input is Some
                    &&& final(editor).state.placement_input.unwrap().kind == p.kind
                    &&& final(editor).state.placement_input.unwrap().buffer@
                        == p.buffer@.drop_last()
                }
                &&& *final(editor) == (FootprintEditor {
                    state: FootprintEditorState {
                        placement_input: final(editor).state.placement_input,
                        ..old(editor).state
                    },
                    canvas_stale: true,
                    ..*old(editor)
                })
            },
        },
{
    if let Some(mut entry) = editor.state.placement_input.take() {
        let _ = pop_char(&mut entry.buffer);
        let empty = entry.buffer.as_str().unicode_len() == 0;
        if empty {
            editor.state.placement_input = None;
        } else {
            editor.state.placement_input = Some(entry);
        }
        editor.canvas_stale = true;
    }
}

/// Escape: throw away every typed dimension (focused and parked); the
/// pending gesture itself stays.
pub fn placement_input_escape<P, G>(editor: &mut FootprintEditor<P, G>)
    ensures
        old(editor).state.placement_input is None && old(editor).state.placement_input_others@.len()
            == 0 ==> *final(editor) == *old(editor),
        !(old(editor).state.placement_input is None
            && old(editor).state.placement_input_others@.len() == 0) ==> {
            &&& final(editor).state.placement_input_others@.len() == 0
            &&& *final(editor) == (FootprintEditor {
                state: FootprintEditorState {
                    placement_input: None,
                    placement_input_others: final(editor).state.placement_input_others,
                    ..old(editor).state
                },
                canvas_stale: true,
                ..*old(editor)
            })
        },
{
    if editor.state.placement_input.is_some() || editor.state.placement_input_others.len() > 0 {
        editor.state.placement_input = None;
        editor.state.placement_input_others.clear();
        editor.canvas_stale = true;
    }
}

/// Position of the first field of kind `k`.
pub open spec fn kind_position(fields: Seq<PlacementInputKind>, k: PlacementInputKind) -> int
    decreases fields.len(),
{
    if fields.len() == 0 {
        -1
    } else if fields[0] == k {
        0
    } else {
        let r = kind_position(fields.drop_first(), k);
        if r < 0 {
            -1
        } else {
            r + 1
        }
    }
}

/// Position of the first parked entry of kind `k`, or -1.
pub open spec fn parked_position(parked: Seq<PlacementInput>, k: PlacementInputKind) -> int
    decreases parked.len(),
{
    if parked.len() == 0 {
        -1
    } else if parked[0].kind == k {
        0
    } else {
        let r = parked_position(parked.drop_first(), k);
        if r < 0 {
            -1
        } else {
            r + 1
        }
    }
}

/// The parked entries whose kind is not `k`, in order.
pub open spec fn without_kind(parked: Seq<PlacementInput>, k: PlacementInputKind) -> Seq<
    PlacementInput,
> {
    parked.filter(|p: PlacementInput| p.kind != k)
}

/// The field Tab moves the focus to.
pub open spec fn next_field(
    fields: Seq<PlacementInputKind>,
    focused: Option<PlacementInputKind>,
) -> PlacementInputKind {
    let current = match focused {
        Some(k) => k,
        None => fields[0],
    };
    let pos = kind_position(fields, current);
    let idx = if pos < 0 {
        0
    } else {
        pos
    };
    fields[(idx + 1) % (fields.len() as int)]
}

fn find_kind(fields: &Vec<PlacementInputKind>, k: PlacementInputKind) -> (r: usize)
    ensures
        kind_position(fields@, k) < 0 ==> r == 0,
        kind_position(fields@, k) >= 0 ==> r == kind_position(fields@, k) && r < fields@.len(),
{
    let mut i: usize = 0;
    assert(fields@.subrange(0, fields@.len() as int) =~= fields@);
    while i < fields.len()
        invariant
            i <= fields@.len(),
            forall|q: int| 0 <= q < i ==> fields@[q] != k,
            kind_position(fields@, k) == (if kind_position(
                fields@.subrange(i as int, fields@.len() as int),
                k,
            ) < 0 {
                -1
            } else {
                kind_position(fields@.subrange(i as int, fields@.len() as int), k) + i
            }),
        decreases fields@.len() - i,
    {
        assert(fields@.subrange(i as int, fields@.len() as int).drop_first() =~= fields@.subrange(
            i + 1,
            fields@.len() as int,
        ));
        if fields[i] == k {
            return i;
        }
        i = i + 1;
    }
    assert(fields@.subrange(i as int, fields@.len() as int) =~= Seq::<PlacementInputKind>::empty());
    0
}

/// Take the first parked entry of kind `k` out of the list.
fn take_parked(parked: &mut Vec<PlacementInput>, k: PlacementInputKind) -> (r: Option<
    PlacementInput,
>)
    ensures
        parked_position(old(parked)@, k) < 0 ==> r is None && final(parked)@ == old(parked)@,
        parked_position(old(parked)@, k) >= 0 ==> {
            let p = parked_position(old(parked)@, k);
            &&& 0 <= p < old(parked)@.len()
            &&& r == Some(old(parked)@[p])
            &&& old(parked)@[p].kind == k
            &&& final(parked)@ == old(parked)@.remove(p)
        },
{
    let ghost s = parked@;
    let mut i: usize = 0;
    assert(s.subrange(0, s.len() as int) =~= s);
    while i < parked.len()
        invariant
            parked@ == s,
            old(parked)@ == s,
            i <= s.len(),
            parked_position(s, k) == (if parked_position(s.subrange(i as int, s.len() as int), k)
                < 0 {
                -1
            } else {
                parked_position(s.subrange(i as int, s.len() as int), k) + i
            }),
        decreases s.len() - i,
    {
        assert(s.subrange(i as int, s.len() as int).drop_first() =~= s.subrange(
            i + 1,
            s.len() as int,
        ));
        if parked[i].kind == k {
            assert(s.subrange(i as int, s.len() as int)[0] == s[i as int]);
            let e = parked.remove(i);
            return Some(e);
        }
        i = i + 1;
    }
    assert(s.subrange(i as int, s.len() as int) =~= Seq::<PlacementInput>::empty());
    None
}

/// Drop every parked entry of kind `k`.
fn retain_other_kinds(parked: &mut Vec<PlacementInput>, k: PlacementInputKind)
    ensures
        final(parked)@ == without_kind(old(parked)@, k),
{
    let ghost s = parked@;
    assert(s.len() == parked.len());
    let mut kept: Vec<PlacementInput> = Vec::new();
    let mut rest: Vec<PlacementInput> = Vec::new();
    std::mem::swap(parked, &mut rest);
    let ghost r0 = rest@;
    assert(r0 == s);
    let mut i: usize = 0;
    while rest.len() > 0
        invariant
            rest@ == s.subrange(i as int, s.len() as int),
            i <= s.len(),
            s.len() <= usize::MAX,
            kept@ == without_kind(s.take(i as int), k),
        decreases rest@.len(),
    {
        let e = rest.remove(0);
        assert(s.take(i + 1) == s.take(i as int).push(s[i as int]));
        proof {
            s.take(i as int).lemma_filter_push(s[i as int], |p: PlacementInput| p.kind != k);
        }
        if e.kind != k {
            kept.push(e);
        }
        assert(rest@ =~= s.subrange(i + 1, s.len() as int));
        i = i + 1;
    }
    assert(s.take(s.len() as int) == s);
    *parked = kept;
}

/// Tab: move the focus to the next dimension field of the active tool,
/// in `fields` order (cyclically; from the first field when the focused
/// kind is not among them). The focused buffer is parked with its
/// digits, replacing any parked entry of the same kind; the next field
/// is taken out of the parked entries, or opened empty. Only tools with
/// at least two fields take Tab.
pub fn placement_input_tab<P, G>(editor: &mut FootprintEditor<P, G>, fields: &Vec<PlacementInputKind>)
    ensures
        fields@.len() < 2 ==> *final(editor) == *old(editor),
        fields@.len() >= 2 ==> {
            let o = old(editor).state;
            let f = final(editor).state;
            let focused: Option<PlacementInputKind> = match o.placement_input {
                Some(p) => Some(p.kind),
                None => None,
            };
            let nk = next_field(fields@, focused);
            let pos = parked_position(o.placement_input_others@, nk);
            let remaining = if pos < 0 {
                o.placement_input_others@
            } else {
                o.placement_input_others@.remove(pos)
            };
            &&& f.placement_input is Some
            &&& f.placement_input.unwrap().kind == nk
            &&& pos < 0 ==> f.placement_input.unwrap().buffer@.len() == 0
            &&& pos >= 0 ==> f.placement_input == Some(o.placement_input_others@[pos])
            &&& f.placement_input_others@ == (match o.placement_input {
                Some(prev) => without_kind(remaining, prev.kind).push(prev),
                None => remaining,
            })
            &&& *final(editor) == (FootprintEditor {
                state: FootprintEditorState {
                    placement_input: f.placement_input,
                    placement_input_others: f.placement_input_others,
                    ..o
                },
                canvas_stale: true,
                ..*old(editor)
            })
        },
{
    if fields.len() < 2 {
        return ;
    }
    let current = match &editor.state.placement_input {
        Some(p) => p.kind,
        None => fields[0],
    };
    let idx = find_kind(fields, current);
    let n = fields.len();
    let ni = if idx + 1 == n {
        0
    } else {
        idx + 1
    };
    proof {
        let ii = idx as int;
        let nn = n as int;
        if ii + 1 == nn {
            assert((ii + 1) % nn == 0) by (nonlinear_arith) requires ii + 1 == nn, nn > 0;
        } else {
            assert((ii + 1) % nn == ii + 1) by (nonlinear_arith) requires 0 <= ii + 1 < nn;
        }
    }
    let next_kind = fields[ni];
    let prev_focused = editor.state.placement_input.take();
    let next_focused = match take_parked(&mut editor.state.placement_input_others, next_kind) {
        Some(p) => p,
        None => PlacementInput { buffer: String::new(), kind: next_kind },
    };
    if let Some(prev) = prev_focused {
        retain_other_kinds(&mut editor.state.placement_input_others, prev.kind);
        editor.state.placement_input_others.push(prev);
    }
    editor.state.placement_input = Some(next_focused);
    editor.canvas_stale = true;
}

} // verus!
