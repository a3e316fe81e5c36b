//! Revision history — which two revisions the diff view compares.

use vstd::prelude::*;
use crate::decimal::{decimal_digits, u64_to_decimal};
use crate::text::append_str;

verus! {

/// Why the diff view shows a note instead of a diff.
#[derive(Clone, Copy, Debug, PartialEq, Eq, Structural)]
pub enum DiffNotice {
    /// "Pick a revision above to see the diff against its predecessor."
    NothingSelected,
    /// "Selected revision is no longer in the component history."
    NotInHistory,
    /// "This is the very first revision — no predecessor to diff against."
    FirstRevision,
}

/// Position of the first revision with version `v`, or -1.
pub open spec fn version_position(versions: Seq<u64>, v: u64) -> int
    decreases versions.len(),
{
    if versions.len() == 0 {
        -1
    } else if versions[0] == v {
        0
    } else {
        let rest = version_position(versions.drop_first(), v);
        if rest < 0 {
            -1
        } else {
            rest + 1
        }
    }
}

/// The revisions the diff view compares, as positions in the history
/// (`versions`, oldest first): the selected one and its predecessor.
pub open spec fn diff_positions(versions: Seq<u64>, selected: Option<u64>) -> Result<
    (int, int),
    DiffNotice,
> {
    match selected {
        None => Err(DiffNotice::NothingSelected),
        Some(v) => {
            let at = version_position(versions, v);
            if at < 0 {
                Err(DiffNotice::NotInHistory)
            } else if at == 0 {
                Err(DiffNotice::FirstRevision)
            } else {
                Ok((at - 1, at))
            }
        },
    }
}

/// The (previous, selected) positions to diff (see `diff_positions`).
pub fn diff_pair(versions: &Vec<u64>, selected: Option<u64>) -> (r: Result<(usize, usize), DiffNotice>)
    ensures
        match diff_positions(versions@, selected) {
            Ok((p, n)) => r == Ok::<(usize, usize), DiffNotice>((p as usize, n as usize)) && n
                < versions@.len(),
            Err(why) => r == Err::<(usize, usize), DiffNotice>(why),
        },
{
    let v = match selected {
        None => return Err(DiffNotice::NothingSelected),
        Some(v) => v,
    };
    let mut i: usize = 0;
    assert(versions@.skip(0) =~= versions@);
    while i < versions.len()
        invariant
            i <= versions@.len(),
            selected == Some(v),
            version_position(versions@, v) == (if version_position(versions@.skip(i as int), v)
                < 0 {
                -1
            } else {
                version_position(versions@.skip(i as int), v) + i
            }),
        decreases versions@.len() - i,
    {
        assert(versions@.skip(i as int).drop_first() =~= versions@.skip(i + 1));
        assert(versions@.skip(i as int)[0] == versions@[i as int]);
        if versions[i] == v {
            assert(version_position(versions@.skip(i as int), v) == 0);
            assert(version_position(versions@, v) == i);
            if i == 0 {
                return Err(DiffNotice::FirstRevision);
            }
            return Ok((i - 1, i));
        }
        i = i + 1;
    }
    assert(versions@.skip(i as int).len() == 0);
    Err(DiffNotice::NotInHistory)
}

/// The diff view's heading: `Diff: v<prev>  →  v<next>`.
pub open spec fn diff_heading(prev: u64, next: u64) -> Seq<char> {
    "Diff: v"@ + decimal_digits(prev as nat) + "  \u{2192}  v"@ + decimal_digits(next as nat)
}

/// The diff view's heading (see `diff_heading`).
pub fn diff_header_label(prev: u64, next: u64) -> (r: String)
    ensures
        r@ == diff_heading(prev, next),
{
    let mut s = String::from_str("Diff: v");
    let a = u64_to_decimal(prev);
    append_str(&mut s, a.as_str());
    append_str(&mut s, "  \u{2192}  v");
    let b = u64_to_decimal(next);
    append_str(&mut s, b.as_str());
    s
}

} // verus!
