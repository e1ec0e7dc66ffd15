use vstd::prelude::*;

use crate::pattern::{groups_of, line_matches};

verus! {

// ---------------------------------------------------------------------
// Indentation
// ---------------------------------------------------------------------
/// The whitespace characters, as Unicode defines the White_Space
/// property; leading characters of this set measure a line's depth.
pub open spec fn is_wspace(c: char) -> bool {
    ||| c == ' '
    ||| c == '\t'
    ||| c == '\n'
    ||| c == '\u{b}'
    ||| c == '\u{c}'
    ||| c == '\r'
    ||| c == '\u{85}'
    ||| c == '\u{a0}'
    ||| c == '\u{1680}'
    ||| c == '\u{2000}'
    ||| c == '\u{2001}'
    ||| c == '\u{2002}'
    ||| c == '\u{2003}'
    ||| c == '\u{2004}'
    ||| c == '\u{2005}'
    ||| c == '\u{2006}'
    ||| c == '\u{2007}'
    ||| c == '\u{2008}'
    ||| c == '\u{2009}'
    ||| c == '\u{200a}'
    ||| c == '\u{2028}'
    ||| c == '\u{2029}'
    ||| c == '\u{202f}'
    ||| c == '\u{205f}'
    ||| c == '\u{3000}'
}

/// The indentation depth of a line: how many whitespace characters it
/// starts with. A textual proxy for lexical scope, not a parse.
pub open spec fn indent_of(line: Seq<char>) -> nat
    decreases line.len(),
{
    if line.len() == 0 || !is_wspace(line[0]) {
        0
    } else {
        1 + indent_of(line.drop_first())
    }
}

// ---------------------------------------------------------------------
// The scan's data, at the specification level
// ---------------------------------------------------------------------
/// A pattern match pinned to its line: `no` is the 1-based line number
/// in the scanned file, `values` the capture groups that participated.
pub ghost struct SpecMatch {
    pub no: int,
    pub values: Seq<Seq<char>>,
}

/// The result of a scope scan: the nearest test declaration, if any, and
/// the chain of enclosing scope declarations, outermost first.
pub ghost struct SpecCase {
    pub name: Option<SpecMatch>,
    pub namespace: Seq<SpecMatch>,
}

/// The scan's running state. `chain` holds the enclosing declarations in
/// the order the scan met them; `min_indent` is the smallest indentation
/// seen on a recorded line (`usize::MAX` until one is recorded);
/// `stopped` records that depth 0 was reached and the walk is over.
pub ghost struct ScanState {
    pub name: Option<SpecMatch>,
    pub chain: Seq<SpecMatch>,
    pub min_indent: int,
    pub stopped: bool,
}

pub open spec fn init_state() -> ScanState {
    ScanState { name: None, chain: Seq::empty(), min_indent: usize::MAX as int, stopped: false }
}

/// One step of the scan over the line numbered `lineno` (1-based).
///
/// While nothing has been recorded, the test pattern is tried first; its
/// match never stops the walk by itself. Afterwards only the namespace
/// pattern is tried, and a match is recorded exactly when its
/// indentation sinks strictly below every indentation recorded so far —
/// a match at the same depth is a sibling scope and is ignored. Reaching
/// depth 0 ends the walk after the step.
pub open spec fn scan_step(
    st: ScanState,
    tpat: Seq<char>,
    nspat: Option<Seq<char>>,
    line: Seq<char>,
    lineno: int,
) -> ScanState {
    if st.stopped {
        st
    } else if st.name is None && st.chain.len() == 0 && line_matches(tpat, line) {
        let ind = indent_of(line) as int;
        ScanState {
            name: Some(SpecMatch { no: lineno, values: groups_of(tpat, line)->Some_0 }),
            chain: st.chain,
            min_indent: if ind < st.min_indent {
                ind
            } else {
                st.min_indent
            },
            stopped: false,
        }
    } else if nspat is Some && line_matches(nspat->Some_0, line) && indent_of(line)
        < st.min_indent {
        ScanState {
            name: st.name,
            chain: st.chain.push(
                SpecMatch { no: lineno, values: groups_of(nspat->Some_0, line)->Some_0 },
            ),
            min_indent: indent_of(line) as int,
            stopped: indent_of(line) == 0,
        }
    } else {
        ScanState {
            name: st.name,
            chain: st.chain,
            min_indent: st.min_indent,
            stopped: st.min_indent == 0,
        }
    }
}

/// How many lines the scan visits: backward, the lines before the
/// anchor; forward, the lines from the anchor on.
pub open spec fn scan_count(len: int, anchor: int, down: bool) -> int {
    if down {
        if anchor >= len {
            0
        } else {
            len - anchor
        }
    } else {
        if anchor <= len {
            anchor
        } else {
            len
        }
    }
}

/// The 0-based index of the `k`-th visited line: forward walks away from
/// the anchor toward the end, backward toward the top.
pub open spec fn visit_index(len: int, anchor: int, down: bool, k: int) -> int {
    if down {
        anchor + k
    } else {
        (if anchor <= len {
            anchor
        } else {
            len
        }) - 1 - k
    }
}

/// The scan's state after its first `k` steps.
pub open spec fn scan_upto(
    lines: Seq<Seq<char>>,
    tpat: Seq<char>,
    nspat: Option<Seq<char>>,
    anchor: int,
    down: bool,
    k: int,
) -> ScanState
    decreases k,
{
    if k <= 0 {
        init_state()
    } else {
        let idx = visit_index(lines.len() as int, anchor, down, k - 1);
        scan_step(scan_upto(lines, tpat, nspat, anchor, down, k - 1), tpat, nspat, lines[idx], idx + 1)
    }
}

/// What a full scope scan returns: `None` when nothing at all matched,
/// otherwise the nearest test declaration (possibly absent) and the
/// enclosing chain, reversed into outermost-first order.
pub open spec fn scan_result(
    lines: Seq<Seq<char>>,
    tpat: Seq<char>,
    nspat: Option<Seq<char>>,
    anchor: int,
    down: bool,
) -> Option<SpecCase> {
    let st = scan_upto(lines, tpat, nspat, anchor, down, scan_count(lines.len() as int, anchor, down));
    if st.name is None && st.chain.len() == 0 {
        None
    } else {
        Some(SpecCase { name: st.name, namespace: st.chain.reverse() })
    }
}

/// The first line at index `start` or later that `pat` matches, with its
/// 1-based number and participating groups; `None` past the end.
pub open spec fn next_match_from(lines: Seq<Seq<char>>, pat: Seq<char>, start: int) -> Option<
    SpecMatch,
>
    decreases lines.len() - start,
{
    if start < 0 || start >= lines.len() {
        None
    } else if line_matches(pat, lines[start]) {
        Some(SpecMatch { no: start + 1, values: groups_of(pat, lines[start])->Some_0 })
    } else {
        next_match_from(lines, pat, start + 1)
    }
}

} // verus!
