//! Component preview — where the bound symbol and footprint files lie
//! inside a library.
//!
//! A library keeps each symbol in `symbols/<uuid>.snxsym` and each
//! footprint in `footprints/<uuid>.snxfpt`, the UUID written in its
//! usual hyphenated lower-case form. Paths are returned as lists of
//! components, starting with the library directory's.

use vstd::prelude::*;
use crate::text::{push_char, string_from_chars};

verus! {

/// The references of a component row that the preview opens.
#[derive(Clone, Copy, Debug, PartialEq, Eq, Structural)]
pub struct ComponentRefs {
    /// The bound symbol's UUID, as its 128-bit value.
    pub symbol_uuid: u128,
    /// The bound footprint's UUID, if a footprint is bound.
    pub footprint_uuid: Option<u128>,
}

/// Lower-case hexadecimal digit of a value below sixteen.
pub open spec fn hex_digit(n: nat) -> char {
    if n < 10 {
        ('0' as int + n) as char
    } else {
        ('a' as int + n - 10) as char
    }
}

/// The lowest `n` hexadecimal digits of `v`, most significant first,
/// padded with zeros.
pub open spec fn hex_fixed(v: nat, n: nat) -> Seq<char>
    decreases n,
{
    if n == 0 {
        Seq::empty()
    } else {
        hex_fixed(v / 16, (n - 1) as nat).push(hex_digit(v % 16))
    }
}

/// The hyphenated form of a UUID: its 32 hex digits grouped 8-4-4-4-12.
pub open spec fn uuid_text(v: nat) -> Seq<char> {
    let h = hex_fixed(v, 32);
    h.subrange(0, 8) + seq!['-'] + h.subrange(8, 12) + seq!['-'] + h.subrange(12, 16) + seq![
        '-',
    ] + h.subrange(16, 20) + seq!['-'] + h.subrange(20, 32)
}

fn hex_char(n: u128) -> (c: char)
    requires
        n < 16,
    ensures
        c == hex_digit(n as nat),
{
    let d = n as u8;
    if d < 10 {
        (48u8 + d) as char
    } else {
        (97u8 + d - 10) as char
    }
}

fn hex_digits(v: u128, n: usize) -> (r: Vec<char>)
    ensures
        r@ == hex_fixed(v as nat, n as nat),
        r@.len() == n,
    decreases n,
{
    if n == 0 {
        Vec::new()
    } else {
        let mut r = hex_digits(v / 16, n - 1);
        r.push(hex_char(v % 16));
        r
    }
}

fn push_range(out: &mut Vec<char>, h: &Vec<char>, from: usize, to: usize)
    requires
        from <= to <= h@.len(),
    ensures
        final(out)@ == old(out)@ + h@.subrange(from as int, to as int),
{
    let mut k: usize = from;
    while k < to
        invariant
            from <= k <= to <= h@.len(),
            out@ == old(out)@ + h@.subrange(from as int, k as int),
        decreases to - k,
    {
        out.push(h[k]);
        assert(h@.subrange(from as int, k + 1) =~= h@.subrange(from as int, k as int).push(
            h@[k as int],
        ));
        k = k + 1;
    }
}

/// The hyphenated lower-case text of the UUID with value `v`.
pub fn uuid_string(v: u128) -> (s: String)
    ensures
        s@ == uuid_text(v as nat),
{
    let h = hex_digits(v, 32);
    let mut out: Vec<char> = Vec::new();
    push_range(&mut out, &h, 0, 8);
    out.push('-');
    push_range(&mut out, &h, 8, 12);
    out.push('-');
    push_range(&mut out, &h, 12, 16);
    out.push('-');
    push_range(&mut out, &h, 16, 20);
    out.push('-');
    push_range(&mut out, &h, 20, 32);
    assert(out@ =~= uuid_text(v as nat));
    string_from_chars(&out)
}

/// `uuid_text(v)` followed by `ext`.
fn file_name(v: u128, ext: &str) -> (s: String)
    ensures
        s@ == uuid_text(v as nat) + ext@,
{
    let mut s = uuid_string(v);
    let cs = crate::text::chars_of(ext);
    let mut i: usize = 0;
    while i < cs.len()
        invariant
            i <= cs@.len(),
            cs@ == ext@,
            s@ == uuid_text(v as nat) + cs@.take(i as int),
        decreases cs@.len() - i,
    {
        push_char(&mut s, cs[i]);
        assert(cs@.take(i + 1) =~= cs@.take(i as int).push(cs@[i as int]));
        i = i + 1;
    }
    assert(cs@.take(cs@.len() as int) =~= cs@);
    s
}

/// `library` followed by `dir` and `file` (as `Path::join` builds it,
/// component by component).
pub open spec fn joined(library: Seq<String>, path: Seq<String>, dir: Seq<char>, file: Seq<char>) -> bool {
    &&& path.len() == library.len() + 2
    &&& forall|i: int| 0 <= i < library.len() ==> #[trigger] path[i]@ == library[i]@
    &&& path[library.len() as int]@ == dir
    &&& path[library.len() + 1int]@ == file
}

fn join_under(library: &Vec<String>, dir: &str, file: String) -> (path: Vec<String>)
    ensures
        joined(library@, path@, dir@, file@),
{
    let mut path: Vec<String> = Vec::new();
    let mut i: usize = 0;
    while i < library.len()
        invariant
            i <= library@.len(),
            path@.len() == i,
            forall|k: int| 0 <= k < i ==> #[trigger] path@[k]@ == library@[k]@,
        decreases library@.len() - i,
    {
        path.push(library[i].clone());
        i = i + 1;
    }
    path.push(String::from_str(dir));
    path.push(file);
    path
}

/// The symbol file of the row: `<library>/symbols/<uuid>.snxsym`, the
/// library directory given by its path components.
pub fn symbol_path(library: &Vec<String>, state: &ComponentRefs) -> (path: Vec<String>)
    ensures
        joined(
            library@,
            path@,
            "symbols"@,
            uuid_text(state.symbol_uuid as nat) + ".snxsym"@,
        ),
{
    let file = file_name(state.symbol_uuid, ".snxsym");
    join_under(library, "symbols", file)
}

/// The footprint file of the row, if a footprint is bound:
/// `<library>/footprints/<uuid>.snxfpt`.
pub fn footprint_path(library: &Vec<String>, state: &ComponentRefs) -> (path: Option<Vec<String>>)
    ensures
        match state.footprint_uuid {
            None => path is None,
            Some(u) => (path matches Some(p) && joined(
                library@,
                p@,
                "footprints"@,
                uuid_text(u as nat) + ".snxfpt"@,
            )),
        },
{
    match state.footprint_uuid {
        None => None,
        Some(u) => {
            let file = file_name(u, ".snxfpt");
            Some(join_under(library, "footprints", file))
        },
    }
}

} // verus!
