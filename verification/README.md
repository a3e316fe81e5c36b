# signex_app — footprint and component editor logic, verified

The decision logic of the Signex library editor: how footprint-editor
messages are routed, how pad and sketch selections change, what the
sketch tools do with each click, how typed placement numbers are read,
how pads are cut, copied and pasted, how symbol pins bind to footprint
pads and what the Pin Map tab shows about it. The functions in `src/`
are checked by Verus against their contracts; the two exceptions are
the thin wrappers in `text.rs` around `String::push` and `String::pop`,
whose contracts (append one character; remove and return the last one)
are taken as given.

Positions are a type parameter, so the library never computes with
floating point; the desktop editor instantiates it with millimetre
pairs. The geometry that needs real numbers (hit tests, align and
spacing moves, arc centres, the corners of rounded rectangles) lives in
`app/`, which computes it and hands the library one flag per pad or the
positions it needs.

Layout:

- `src/` — the verified library (`types.rs` holds the editor state).
- `tests/` — tests on concrete values, including the laws.
- `app/` — the millimetre geometry and the calls that feed the library.
