use vstd::prelude::*;

use crate::model::{
    indent_of, init_state, next_match_from, scan_count, scan_result, scan_step, scan_upto,
    visit_index, SpecMatch,
};
use crate::pattern::{groups_of, line_matches};

verus! {

/// The indentation of the line a match points at.
pub open spec fn indent_at(lines: Seq<Seq<char>>, m: SpecMatch) -> nat {
    indent_of(lines[m.no - 1])
}

/// A recorded match points into the scanned range, its line matches the
/// pattern, and it carries that match's groups.
pub open spec fn entry_valid(
    lines: Seq<Seq<char>>,
    pat: Seq<char>,
    m: SpecMatch,
    anchor: int,
    down: bool,
) -> bool {
    &&& 1 <= m.no <= lines.len()
    &&& line_matches(pat, lines[m.no - 1])
    &&& m.values == groups_of(pat, lines[m.no - 1])->Some_0
    &&& (down ==> anchor <= m.no - 1)
    &&& (!down ==> m.no - 1 < anchor)
}

/// What holds of the scan's state after any number of steps: recorded
/// matches are real and in range, the chain's indentations sink
/// strictly in scan order, the running minimum is the last recorded
/// indentation, and everything in the chain lies strictly below the
/// test declaration's indentation.
pub open spec fn state_ok(
    lines: Seq<Seq<char>>,
    tpat: Seq<char>,
    nspat: Option<Seq<char>>,
    anchor: int,
    down: bool,
    k: int,
) -> bool {
    let st = scan_upto(lines, tpat, nspat, anchor, down, k);
    &&& 0 <= st.min_indent <= usize::MAX as int
    &&& (match st.name {
        Some(nm) => entry_valid(lines, tpat, nm, anchor, down) && st.min_indent <= indent_of(
            lines[nm.no - 1],
        ),
        None => true,
    })
    &&& (nspat is Some ==> forall|i: int|
        0 <= i < st.chain.len() ==> entry_valid(
            lines,
            nspat->Some_0,
            #[trigger] st.chain[i],
            anchor,
            down,
        ))
    &&& (nspat is None ==> st.chain.len() == 0)
    &&& (forall|i: int, j: int|
        0 <= i < j < st.chain.len() ==> indent_at(lines, #[trigger] st.chain[j]) < indent_at(
            lines,
            #[trigger] st.chain[i],
        ))
    &&& (st.chain.len() > 0 ==> st.min_indent == indent_at(lines, st.chain.last()))
    &&& (st.name is Some && st.chain.len() > 0 ==> indent_at(lines, st.chain[0]) < indent_of(
        lines[st.name->Some_0.no - 1],
    ))
}

proof fn lemma_state_ok(
    lines: Seq<Seq<char>>,
    tpat: Seq<char>,
    nspat: Option<Seq<char>>,
    anchor: int,
    down: bool,
    k: int,
)
    requires
        0 <= anchor,
        0 <= k <= scan_count(lines.len() as int, anchor, down),
    ensures
        state_ok(lines, tpat, nspat, anchor, down, k),
    decreases k,
{
    if k == 0 {
        assert(scan_upto(lines, tpat, nspat, anchor, down, 0) == init_state());
    } else {
        lemma_state_ok(lines, tpat, nspat, anchor, down, k - 1);
        let st = scan_upto(lines, tpat, nspat, anchor, down, k - 1);
        let idx = visit_index(lines.len() as int, anchor, down, k - 1);
        let st2 = scan_upto(lines, tpat, nspat, anchor, down, k);
        assert(st2 == scan_step(st, tpat, nspat, lines[idx], idx + 1));
        assert(0 <= idx < lines.len());
        if st.stopped {
        } else if st.name is None && st.chain.len() == 0 && line_matches(tpat, lines[idx]) {
            assert(st2.chain.len() == 0);
        } else if nspat is Some && line_matches(nspat->Some_0, lines[idx]) && indent_of(
            lines[idx],
        ) < st.min_indent {
            let entry = SpecMatch { no: idx + 1, values: groups_of(nspat->Some_0, lines[idx])->Some_0 };
            assert(st2.chain == st.chain.push(entry));
            assert(entry_valid(lines, nspat->Some_0, entry, anchor, down));
            let n = st.chain.len() as int;
            assert forall|i: int, j: int| 0 <= i < j < st2.chain.len() implies indent_at(
                lines,
                #[trigger] st2.chain[j],
            ) < indent_at(lines, #[trigger] st2.chain[i]) by {
                if j < n {
                    assert(st2.chain[i] == st.chain[i]);
                    assert(st2.chain[j] == st.chain[j]);
                } else {
                    assert(st2.chain[j] == entry);
                    assert(st2.chain[i] == st.chain[i]);
                    if n > 0 {
                        assert(st.min_indent == indent_at(lines, st.chain[n - 1]));
                        if i < n - 1 {
                            assert(indent_at(lines, st.chain[n - 1]) < indent_at(
                                lines,
                                st.chain[i],
                            ));
                        }
                    }
                }
            }
            if st.name is Some {
                assert(st2.chain[0] == st.chain.push(entry)[0]);
                if n > 0 {
                    assert(st2.chain[0] == st.chain[0]);
                } else {
                    assert(st2.chain[0] == entry);
                }
            }
        } else {
        }
    }
}

/// Enclosure is monotone: in any located test-case the namespace chain
/// rises strictly in indentation from outermost to innermost, and the
/// test declaration, when present, sits at or below the innermost
/// namespace's depth.
pub proof fn lemma_enclosure_monotonic(
    lines: Seq<Seq<char>>,
    tpat: Seq<char>,
    nspat: Option<Seq<char>>,
    anchor: int,
    down: bool,
)
    requires
        0 <= anchor,
    ensures
        match scan_result(lines, tpat, nspat, anchor, down) {
            Some(tc) => (forall|i: int, j: int|
                0 <= i < j < tc.namespace.len() ==> indent_at(lines, #[trigger] tc.namespace[i])
                    < indent_at(lines, #[trigger] tc.namespace[j])) && (tc.name is Some
                && tc.namespace.len() > 0 ==> indent_at(lines, tc.namespace.last()) <= indent_of(
                lines[tc.name->Some_0.no - 1],
            )),
            None => true,
        },
{
    let count = scan_count(lines.len() as int, anchor, down);
    lemma_state_ok(lines, tpat, nspat, anchor, down, count);
    let st = scan_upto(lines, tpat, nspat, anchor, down, count);
    match scan_result(lines, tpat, nspat, anchor, down) {
        Some(tc) => {
            let n = st.chain.len() as int;
            assert(tc.namespace == st.chain.reverse());
            assert forall|i: int, j: int| 0 <= i < j < tc.namespace.len() implies indent_at(
                lines,
                #[trigger] tc.namespace[i],
            ) < indent_at(lines, #[trigger] tc.namespace[j]) by {
                assert(tc.namespace[i] == st.chain[n - 1 - i]);
                assert(tc.namespace[j] == st.chain[n - 1 - j]);
            }
            if tc.name is Some && tc.namespace.len() > 0 {
                assert(tc.namespace.last() == st.chain[0]);
            }
        },
        None => {},
    }
}

/// A test declared at indentation 0 has no enclosing scope: its
/// located test-case carries an empty namespace chain.
pub proof fn lemma_top_level_name_alone(
    lines: Seq<Seq<char>>,
    tpat: Seq<char>,
    nspat: Option<Seq<char>>,
    anchor: int,
    down: bool,
)
    requires
        0 <= anchor,
    ensures
        match scan_result(lines, tpat, nspat, anchor, down) {
            Some(tc) => tc.name matches Some(nm) && indent_of(lines[nm.no - 1]) == 0
                ==> tc.namespace.len() == 0,
            None => true,
        },
{
    let count = scan_count(lines.len() as int, anchor, down);
    lemma_state_ok(lines, tpat, nspat, anchor, down, count);
    let st = scan_upto(lines, tpat, nspat, anchor, down, count);
    match scan_result(lines, tpat, nspat, anchor, down) {
        Some(tc) => {
            if tc.name is Some && tc.namespace.len() > 0 {
                assert(tc.namespace == st.chain.reverse());
                assert(st.chain.len() > 0);
                assert(indent_at(lines, st.chain[0]) < indent_of(
                    lines[st.name->Some_0.no - 1],
                ));
            }
        },
        None => {},
    }
}

proof fn lemma_next_first(lines: Seq<Seq<char>>, pat: Seq<char>, from: int, m: int)
    requires
        0 <= from <= m < lines.len(),
        line_matches(pat, lines[m]),
        forall|i: int| from <= i < m ==> !line_matches(pat, lines[i]),
    ensures
        next_match_from(lines, pat, from) == Some(
            SpecMatch { no: m + 1, values: groups_of(pat, lines[m])->Some_0 },
        ),
    decreases m - from,
{
    if from == m {
    } else {
        lemma_next_first(lines, pat, from + 1, m);
    }
}

/// Backward and forward scans assign the same absolute number to the
/// same declaration: when the backward scan's test declaration is the
/// first line its pattern matches at all, the forward single-match
/// search from the top of the file reports exactly that line number
/// and those capture groups.
pub proof fn lemma_scan_directions_agree(
    lines: Seq<Seq<char>>,
    tpat: Seq<char>,
    nspat: Option<Seq<char>>,
    anchor: int,
)
    requires
        0 <= anchor,
    ensures
        match scan_result(lines, tpat, nspat, anchor, false) {
            Some(tc) => tc.name matches Some(nm) ==> ((forall|i: int|
                0 <= i < nm.no - 1 ==> !line_matches(tpat, lines[i])) ==> next_match_from(
                lines,
                tpat,
                0,
            ) == Some(nm)),
            None => true,
        },
{
    let count = scan_count(lines.len() as int, anchor, false);
    lemma_state_ok(lines, tpat, nspat, anchor, false, count);
    let st = scan_upto(lines, tpat, nspat, anchor, false, count);
    match scan_result(lines, tpat, nspat, anchor, false) {
        Some(tc) => {
            match tc.name {
                Some(nm) => {
                    if forall|i: int| 0 <= i < nm.no - 1 ==> !line_matches(tpat, lines[i]) {
                        assert(entry_valid(lines, tpat, nm, anchor, false));
                        lemma_next_first(lines, tpat, 0, nm.no - 1);
                    }
                },
                None => {},
            }
        },
        None => {},
    }
}

} // verus!
