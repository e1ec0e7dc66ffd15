use vstd::prelude::*;

use crate::errors::PickError;
use crate::model::{
    indent_of, is_wspace, next_match_from, scan_count, scan_result, scan_step, scan_upto,
    visit_index, SpecCase, SpecMatch,
};
use crate::pattern::{
    compile_pattern, opt_compiles, pattern_captures, present_values, regex_compiles, Pattern,
};
use vstd::string::StrSliceExecFns;

verus! {

/// A regex match anchored to a concrete line: `no` is the 1-based line
/// number in the scanned file, `values` the capture groups that
/// participated in the match, in declaration order, group 0 first.
#[derive(Debug, Clone)]
pub struct WithLineNo {
    pub no: usize,
    pub values: Vec<String>,
}

impl View for WithLineNo {
    type V = SpecMatch;

    open spec fn view(&self) -> SpecMatch {
        SpecMatch { no: self.no as int, values: self.values.deep_view() }
    }
}

impl DeepView for WithLineNo {
    type V = SpecMatch;

    open spec fn deep_view(&self) -> SpecMatch {
        self.view()
    }
}

/// The result of a scope scan: the nearest test declaration relative to
/// the anchor, if any, and the chain of enclosing scope declarations,
/// ordered outermost first. An absent enclosing scope is an empty
/// chain, never a placeholder entry.
#[derive(Debug, Clone)]
pub struct TestCase {
    pub name: Option<WithLineNo>,
    pub namespace: Vec<WithLineNo>,
}

impl View for TestCase {
    type V = SpecCase;

    open spec fn view(&self) -> SpecCase {
        SpecCase { name: self.name.deep_view(), namespace: self.namespace.deep_view() }
    }
}

impl DeepView for TestCase {
    type V = SpecCase;

    open spec fn deep_view(&self) -> SpecCase {
        self.view()
    }
}

/// Whether `c` has the Unicode White_Space property.
pub fn is_whitespace_char(c: char) -> (r: bool)
    ensures
        r == is_wspace(c),
{
    c == ' ' || c == '\t' || c == '\n' || c == '\u{b}' || c == '\u{c}' || c == '\r' || c
        == '\u{85}' || c == '\u{a0}' || c == '\u{1680}' || c == '\u{2000}' || c == '\u{2001}' || c
        == '\u{2002}' || c == '\u{2003}' || c == '\u{2004}' || c == '\u{2005}' || c == '\u{2006}'
        || c == '\u{2007}' || c == '\u{2008}' || c == '\u{2009}' || c == '\u{200a}' || c
        == '\u{2028}' || c == '\u{2029}' || c == '\u{202f}' || c == '\u{205f}' || c == '\u{3000}'
}

proof fn lemma_indent_prefix(s: Seq<char>, i: int)
    requires
        0 <= i <= s.len(),
        forall|j: int| 0 <= j < i ==> is_wspace(s[j]),
        i == s.len() || !is_wspace(s[i]),
    ensures
        indent_of(s) == i,
    decreases i,
{
    if i == 0 {
    } else {
        assert(is_wspace(s[0]));
        let t = s.drop_first();
        assert forall|j: int| 0 <= j < i - 1 implies is_wspace(t[j]) by {
            assert(t[j] == s[j + 1]);
        }
        if i - 1 < t.len() {
            assert(t[i - 1] == s[i]);
        }
        lemma_indent_prefix(t, i - 1);
    }
}

/// The number of leading whitespace characters of `line`.
pub fn line_indent(line: &str) -> (r: usize)
    ensures
        r as nat == indent_of(line@),
{
    let n = line.unicode_len();
    let mut i: usize = 0;
    while i < n && is_whitespace_char(line.get_char(i))
        invariant
            i <= n,
            n == line@.len(),
            forall|j: int| 0 <= j < i ==> is_wspace(line@[j]),
        decreases n - i,
    {
        i = i + 1;
    }
    proof {
        lemma_indent_prefix(line@, i as int);
    }
    i
}

/// The absolute 1-based line number of the match found at visited-offset
/// `no`, when the walk started at `line_no` and ran in the given
/// direction.
fn get_exact_line(no: usize, line_no: usize, search_downwards: bool) -> (r: usize)
    requires
        search_downwards ==> line_no + no < usize::MAX,
        !search_downwards ==> no < line_no,
    ensures
        search_downwards ==> r == line_no + no + 1,
        !search_downwards ==> r == line_no - no,
{
    if search_downwards {
        line_no + no + 1
    } else {
        line_no - no
    }
}

/// Walk the lines with the given pattern, from index `line_no` toward
/// the end, and return the first match. No indentation logic: this is
/// unconditional first-match-wins.
pub fn find_next_with(lines: &Vec<String>, pat: &Pattern, line_no: usize) -> (r: Option<
    WithLineNo,
>)
    ensures
        r.deep_view() == next_match_from(lines.deep_view(), pat@, line_no as int),
{
    let ghost ldv = lines.deep_view();
    let mut idx: usize = line_no;
    while idx < lines.len()
        invariant
            line_no <= idx,
            ldv == lines.deep_view(),
            next_match_from(ldv, pat@, line_no as int) == next_match_from(
                ldv,
                pat@,
                idx as int,
            ),
        decreases lines.len() - idx,
    {
        proof {
            assert(ldv[idx as int] == lines[idx as int]@);
        }
        match pattern_captures(pat, lines[idx].as_str()) {
            Some(gs) => {
                let values = present_values(&gs);
                let no = get_exact_line(idx - line_no, line_no, true);
                return Some(WithLineNo { no, values });
            },
            None => {},
        }
        idx = idx + 1;
    }
    None
}

/// Reverse a chain of matches, turning scan order into outermost-first
/// order.
fn reverse_matches(v: Vec<WithLineNo>) -> (r: Vec<WithLineNo>)
    ensures
        r.deep_view() == v.deep_view().reverse(),
{
    let ghost orig = v.deep_view();
    let mut v = v;
    let mut r: Vec<WithLineNo> = Vec::new();
    while v.len() > 0
        invariant
            v.deep_view() == orig.subrange(0, v.len() as int),
            r.deep_view().len() + v.deep_view().len() == orig.len(),
            forall|i: int|
                0 <= i < r.deep_view().len() ==> r.deep_view()[i] == orig[orig.len() - 1 - i],
        decreases v.len(),
    {
        let ghost old_v = v.deep_view();
        let ghost old_r = r.deep_view();
        let x = v.pop().unwrap();
        r.push(x);
        proof {
            assert(v.deep_view() =~= orig.subrange(0, v.len() as int));
            assert(x.deep_view() == old_v[old_v.len() - 1]);
            assert(old_v[old_v.len() - 1] == orig[old_v.len() - 1]);
            assert(r.deep_view() =~= old_r.push(x.deep_view()));
        }
    }
    proof {
        assert(r.deep_view() =~= orig.reverse());
    }
    r
}

/// The view of an optional pattern: the pattern text when one is given.
pub open spec fn opt_pattern_view(p: Option<&Pattern>) -> Option<Seq<char>> {
    match p {
        Some(q) => Some(q@),
        None => None,
    }
}

/// The view of an optional pattern text.
pub open spec fn opt_text_view(p: Option<&str>) -> Option<Seq<char>> {
    match p {
        Some(q) => Some(q@),
        None => None,
    }
}

/// The scope scan. Walk the lines away from the anchor — backward over
/// the lines before it, or forward from it on — looking first for the
/// nearest test declaration and then for the chain of enclosing scope
/// declarations, each strictly less indented than everything recorded
/// before it. The walk ends at indentation depth 0: nothing outside
/// file scope can be an ancestor.
pub fn find_nearest_with(
    lines: &Vec<String>,
    tpat: &Pattern,
    nspat: Option<&Pattern>,
    line_no: usize,
    search_downwards: bool,
) -> (r: Option<TestCase>)
    ensures
        r.deep_view() == scan_result(
            lines.deep_view(),
            tpat@,
            opt_pattern_view(nspat),
            line_no as int,
            search_downwards,
        ),
{
    let ghost ldv = lines.deep_view();
    let ghost tp = tpat@;
    let ghost nsv = opt_pattern_view(nspat);
    let ghost anchor = line_no as int;
    let n = lines.len();
    let start = if search_downwards {
        line_no
    } else {
        if line_no < n {
            line_no
        } else {
            n
        }
    };
    let count = if search_downwards {
        if line_no >= n {
            0
        } else {
            n - line_no
        }
    } else {
        start
    };
    proof {
        assert(count as int == scan_count(ldv.len() as int, anchor, search_downwards));
    }
    let mut name: Option<WithLineNo> = None;
    let mut chain: Vec<WithLineNo> = Vec::new();
    let mut min_indent: usize = usize::MAX;
    let mut stopped: bool = false;
    let mut k: usize = 0;
    while k < count
        invariant
            k <= count,
            n == ldv.len(),
            ldv == lines.deep_view(),
            tp == tpat@,
            nsv == opt_pattern_view(nspat),
            count as int == scan_count(ldv.len() as int, anchor, search_downwards),
            anchor == line_no as int,
            search_downwards ==> start == line_no,
            !search_downwards ==> start as int == (if anchor <= ldv.len() as int {
                anchor
            } else {
                ldv.len() as int
            }),
            !search_downwards ==> count == start,
            scan_upto(ldv, tp, nsv, anchor, search_downwards, k as int).name == name.deep_view(),
            scan_upto(ldv, tp, nsv, anchor, search_downwards, k as int).chain == chain.deep_view(),
            scan_upto(ldv, tp, nsv, anchor, search_downwards, k as int).min_indent
                == min_indent as int,
            scan_upto(ldv, tp, nsv, anchor, search_downwards, k as int).stopped == stopped,
        decreases count - k,
    {
        let ghost st_old = scan_upto(ldv, tp, nsv, anchor, search_downwards, k as int);
        let ghost st_new = scan_upto(ldv, tp, nsv, anchor, search_downwards, k as int + 1);
        if !stopped {
            let idx = if search_downwards {
                line_no + k
            } else {
                start - 1 - k
            };
            proof {
                assert(idx as int == visit_index(ldv.len() as int, anchor, search_downwards,
                    k as int));
                assert(0 <= idx as int && (idx as int) < ldv.len());
                assert(ldv[idx as int] == lines[idx as int]@);
                assert(st_new == scan_step(st_old, tp, nsv, ldv[idx as int], idx as int + 1));
            }
            let mut matched_name = false;
            if name.is_none() && chain.len() == 0 {
                proof {
                    assert(st_old.name is None);
                    assert(st_old.chain.len() == 0);
                }
                match pattern_captures(tpat, lines[idx].as_str()) {
                    Some(gs) => {
                        let values = present_values(&gs);
                        let no = get_exact_line(k, start, search_downwards);
                        let ind = line_indent(lines[idx].as_str());
                        if ind < min_indent {
                            min_indent = ind;
                        }
                        name = Some(WithLineNo { no, values });
                        matched_name = true;
                        proof {
                            assert(no as int == idx as int + 1);
                            assert(st_new.name == name.deep_view());
                            assert(st_new.min_indent == min_indent as int);
                            assert(st_new.stopped == false);
                        }
                    },
                    None => {},
                }
            }
            if !matched_name {
                match nspat {
                    Some(np) => {
                        match pattern_captures(np, lines[idx].as_str()) {
                            Some(gs) => {
                                let ind = line_indent(lines[idx].as_str());
                                if ind < min_indent {
                                    min_indent = ind;
                                    let values = present_values(&gs);
                                    let no = get_exact_line(k, start, search_downwards);
                                    let entry = WithLineNo { no, values };
                                    proof {
                                        assert(st_new.chain == st_old.chain.push(entry.deep_view()));
                                    }
                                    chain.push(entry);
                                    proof {
                                        assert(chain.deep_view() =~= st_new.chain);
                                    }
                                }
                            },
                            None => {},
                        }
                    },
                    None => {},
                }
                if min_indent == 0 {
                    stopped = true;
                }
            }
        }
        k = k + 1;
        proof {
            assert(scan_upto(ldv, tp, nsv, anchor, search_downwards, k as int) == st_new);
            assert(st_new.chain =~= chain.deep_view());
        }
    }
    let ghost st_final = scan_upto(ldv, tp, nsv, anchor, search_downwards,
        scan_count(ldv.len() as int, anchor, search_downwards));
    if name.is_none() && chain.len() == 0 {
        proof {
            assert(st_final.name is None && st_final.chain.len() == 0);
        }
        None
    } else {
        let namespace = reverse_matches(chain);
        Some(TestCase { name, namespace })
    }
}

/// As `find_nearest_with`, for patterns still in text form; it fails
/// exactly when one of the given pattern texts does not compile.
pub fn find_nearest(
    lines: &Vec<String>,
    test: &str,
    namespace: Option<&str>,
    line_no: usize,
    search_downwards: bool,
) -> (r: Result<Option<TestCase>, PickError>)
    ensures
        match r {
            Ok(m) => regex_compiles(test@) && opt_compiles(opt_text_view(namespace))
                && m.deep_view() == scan_result(
                lines.deep_view(),
                test@,
                opt_text_view(namespace),
                line_no as int,
                search_downwards,
            ),
            Err(e) => e == PickError::Pattern && !(regex_compiles(test@) && opt_compiles(
                opt_text_view(namespace),
            )),
        },
{
    let tpat = match compile_pattern(test) {
        Ok(p) => p,
        Err(_) => {
            return Err(PickError::Pattern);
        },
    };
    match namespace {
        Some(ns) => {
            let nspat = match compile_pattern(ns) {
                Ok(p) => p,
                Err(_) => {
                    return Err(PickError::Pattern);
                },
            };
            Ok(find_nearest_with(lines, &tpat, Some(&nspat), line_no, search_downwards))
        },
        None => Ok(find_nearest_with(lines, &tpat, None, line_no, search_downwards)),
    }
}

/// As `find_next_with`, for a pattern still in text form; it fails
/// exactly when the given pattern text does not compile.
pub fn find_next(lines: &Vec<String>, test: &str, line_no: usize) -> (r: Result<
    Option<WithLineNo>,
    PickError,
>)
    ensures
        match r {
            Ok(m) => regex_compiles(test@) && m.deep_view() == next_match_from(
                lines.deep_view(),
                test@,
                line_no as int,
            ),
            Err(e) => e == PickError::Pattern && !regex_compiles(test@),
        },
{
    match compile_pattern(test) {
        Ok(p) => Ok(find_next_with(lines, &p, line_no)),
        Err(_) => Err(PickError::Pattern),
    }
}

} // verus!
