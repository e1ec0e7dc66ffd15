use vstd::prelude::*;

verus! {

// The scans depend on the `regex` crate for line matching. The compiled
// matcher and its error type are opaque to the verifier, so they are
// declared here, and every call into the crate goes through a wrapper
// whose contract states what the crate's documentation promises.
#[verifier::external_type_specification]
#[verifier::external_body]
pub struct ExRegex(regex::Regex);

#[verifier::external_type_specification]
#[verifier::external_body]
pub struct ExRegexError(regex::Error);

/// The capture groups that a pattern yields on one line, or `None` when
/// the pattern does not match the line. Group 0 is the whole match; a
/// group that did not participate in the match is `None`. Matching is a
/// function of the pattern text and the line alone, so the result bears
/// a name that the matching wrapper's contract applies.
pub uninterp spec fn caps_of(pattern: Seq<char>, line: Seq<char>) -> Option<
    Seq<Option<Seq<char>>>,
>;

/// Whether `pattern` matches somewhere in `line`.
pub open spec fn line_matches(pattern: Seq<char>, line: Seq<char>) -> bool {
    caps_of(pattern, line) is Some
}

/// Whether a pattern text compiles: whether `regex::Regex::new` accepts
/// it. Acceptance depends on the text alone, so it bears a name that
/// the compiling wrapper's contract applies, and every error clause
/// downstream is scoped by it.
pub uninterp spec fn regex_compiles(text: Seq<char>) -> bool;

/// Whether an optional pattern text compiles; no pattern compiles
/// trivially.
pub open spec fn opt_compiles(text: Option<Seq<char>>) -> bool {
    match text {
        Some(t) => regex_compiles(t),
        None => true,
    }
}

/// The capture groups that participated in a match, in declaration order.
pub open spec fn present_groups(gs: Seq<Option<Seq<char>>>) -> Seq<Seq<char>>
    decreases gs.len(),
{
    if gs.len() == 0 {
        Seq::empty()
    } else {
        let rest = present_groups(gs.drop_first());
        match gs[0] {
            Some(v) => seq![v] + rest,
            None => rest,
        }
    }
}

/// The participating groups of a match of `pattern` against `line`.
pub open spec fn groups_of(pattern: Seq<char>, line: Seq<char>) -> Option<Seq<Seq<char>>> {
    match caps_of(pattern, line) {
        Some(gs) => Some(present_groups(gs)),
        None => None,
    }
}

/// A compiled pattern together with the text it was compiled from.
/// The view of a `Pattern` is that text; the fields stay private so the
/// pairing made by `compile_pattern` cannot be taken apart.
pub struct Pattern {
    text: String,
    re: regex::Regex,
}

impl View for Pattern {
    type V = Seq<char>;

    closed spec fn view(&self) -> Seq<char> {
        self.text@
    }
}

/// Relies on `regex::Regex::new`: it compiles the given pattern text —
/// succeeding or failing as a function of that text alone — or reports
/// a syntax or size error. The compiled matcher is stored beside the
/// text it came from.
#[verifier::external_body]
pub fn compile_pattern(text: &str) -> (r: Result<Pattern, regex::Error>)
    ensures
        r matches Ok(p) ==> p@ == text@,
        r is Ok <==> regex_compiles(text@),
{
    match regex::Regex::new(text) {
        Ok(re) => Ok(Pattern { text: text.to_string(), re }),
        Err(e) => Err(e),
    }
}

/// Relies on `regex::Regex::captures` and `regex::Captures::iter`: on a
/// match they yield every capture group in declaration order, group 0
/// first, a non-participating group as `None`; without a match `captures`
/// returns `None`. The groups depend on the pattern text and the line
/// alone.
#[verifier::external_body]
pub fn pattern_captures(p: &Pattern, line: &str) -> (r: Option<Vec<Option<String>>>)
    ensures
        r.deep_view() == caps_of(p@, line@),
{
    p.re.captures(line).map(|c| c.iter().map(|g| g.map(|m| m.as_str().to_string())).collect())
}

proof fn lemma_present_groups_push(gs: Seq<Option<Seq<char>>>, g: Option<Seq<char>>)
    ensures
        present_groups(gs.push(g)) == match g {
            Some(v) => present_groups(gs).push(v),
            None => present_groups(gs),
        },
    decreases gs.len(),
{
    let pushed = gs.push(g);
    if gs.len() == 0 {
        assert(pushed.drop_first() =~= Seq::empty());
        assert(present_groups(pushed.drop_first()) =~= Seq::<Seq<char>>::empty());
        assert(pushed[0] == g);
        match g {
            Some(v) => {
                assert(present_groups(pushed) =~= seq![v]);
                assert(present_groups(gs).push(v) =~= seq![v]);
            },
            None => {
                assert(present_groups(pushed) =~= Seq::<Seq<char>>::empty());
            },
        }
    } else {
        assert(pushed.drop_first() =~= gs.drop_first().push(g));
        lemma_present_groups_push(gs.drop_first(), g);
        match g {
            Some(v) => {
                match gs[0] {
                    Some(w) => {
                        assert(present_groups(pushed) =~= present_groups(gs).push(v));
                    },
                    None => {},
                }
            },
            None => {},
        }
    }
}

/// Keep the capture groups that participated in a match, dropping the
/// others, as the scans store them.
pub fn present_values(groups: &Vec<Option<String>>) -> (r: Vec<String>)
    ensures
        r.deep_view() == present_groups(groups.deep_view()),
{
    let mut r: Vec<String> = Vec::new();
    let mut i: usize = 0;
    while i < groups.len()
        invariant
            i <= groups.len(),
            r.deep_view() == present_groups(groups.deep_view().take(i as int)),
        decreases groups.len() - i,
    {
        proof {
            assert(groups.deep_view().take(i + 1) =~= groups.deep_view().take(i as int).push(
                groups.deep_view()[i as int],
            ));
            lemma_present_groups_push(groups.deep_view().take(i as int), groups.deep_view()[i as int]);
        }
        match &groups[i] {
            Some(s) => {
                let copy = s.as_str().to_owned();
                r.push(copy);
                proof {
                    assert(r.deep_view() =~= present_groups(groups.deep_view().take(i + 1)));
                }
            },
            None => {
                proof {
                    assert(r.deep_view() =~= present_groups(groups.deep_view().take(i + 1)));
                }
            },
        }
        i = i + 1;
    }
    proof {
        assert(groups.deep_view().take(groups.len() as int) =~= groups.deep_view());
    }
    r
}

} // verus!
