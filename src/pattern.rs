use vstd::prelude::*;

use crate::text::has_char;
use vstd::string::StringSliceAdditionalSpecFns;

verus! {

/// The options that a flag string selects: `i` ignores case, `m` makes
/// `^` and `$` match at line ends, `s` lets `.` match a newline, and `g`
/// asks for every match rather than the first.
#[derive(Clone, Copy, Debug, PartialEq, Eq, Structural)]
pub struct RegexFlags {
    pub case_insensitive: bool,
    pub multi_line: bool,
    pub dot_matches_new_line: bool,
    pub global: bool,
}

/// The options of a flag string.
pub open spec fn flags_spec(flags: Seq<char>) -> RegexFlags {
    RegexFlags {
        case_insensitive: flags.contains('i'),
        multi_line: flags.contains('m'),
        dot_matches_new_line: flags.contains('s'),
        global: flags.contains('g'),
    }
}

/// Reads a flag string; characters other than `i`, `m`, `s` and `g` are
/// ignored.
pub fn regex_flags(flags: &str) -> (r: RegexFlags)
    ensures
        r == flags_spec(flags@),
{
    RegexFlags {
        case_insensitive: has_char(flags, 'i'),
        multi_line: has_char(flags, 'm'),
        dot_matches_new_line: has_char(flags, 's'),
        global: has_char(flags, 'g'),
    }
}

/// One match: its byte range in the text, the text it covers, and the
/// text of each capture group that took part in it, in group order.
pub struct MatchResult {
    pub start: usize,
    pub end: usize,
    pub matched: String,
    pub groups: Vec<String>,
}

/// The outcome of running a pattern: the matches, or the reason the
/// pattern was refused.
pub struct RegexResponse {
    pub ok: bool,
    pub matches: Vec<MatchResult>,
    pub error: Option<String>,
}

/// A match as the engine reports it, with `None` for each group that took
/// no part in it.
pub struct RawMatch {
    pub start: usize,
    pub end: usize,
    pub matched: String,
    pub groups: Vec<Option<String>>,
}

/// The text of a group that may have taken no part.
pub open spec fn group_view(g: Option<String>) -> Option<Seq<char>> {
    match g {
        Some(s) => Some(s@),
        None => None,
    }
}

/// A reported match as plain values: start, end, matched text, groups.
pub open spec fn raw_view(m: RawMatch) -> (int, int, Seq<char>, Seq<Option<Seq<char>>>) {
    (m.start as int, m.end as int, m.matched@, m.groups@.map_values(|g: Option<String>| group_view(g)))
}

/// Whether a pattern compiles under the given options.
pub uninterp spec fn pattern_compiles(
    pattern: Seq<char>,
    case_insensitive: bool,
    multi_line: bool,
    dot_matches_new_line: bool,
) -> bool;

/// The successive matches of a pattern in a text under the given options,
/// each as (start, end, matched text, groups).
pub uninterp spec fn regex_matches(
    pattern: Seq<char>,
    case_insensitive: bool,
    multi_line: bool,
    dot_matches_new_line: bool,
    text: Seq<char>,
) -> Seq<(int, int, Seq<char>, Seq<Option<Seq<char>>>)>;

/// Relies on `regex::RegexBuilder::build` (the three options set,
/// whitespace kept significant) and then `Regex::captures_iter`: whether
/// the pattern compiles and which matches it finds depend on the pattern,
/// the options and the text alone. A refusal carries the error's text,
/// which is never empty. Matches are byte ranges of the text, successive
/// and not overlapping.
#[verifier::external_body]
fn find_matches(pattern: &str, flags: &RegexFlags, text: &str) -> (r: Result<
    Vec<RawMatch>,
    String,
>)
    ensures
        r is Ok == pattern_compiles(
            pattern@,
            flags.case_insensitive,
            flags.multi_line,
            flags.dot_matches_new_line,
        ),
        r matches Err(m) ==> m@.len() > 0,
        r matches Ok(v) ==> v@.map_values(|m: RawMatch| raw_view(m)) == regex_matches(
            pattern@,
            flags.case_insensitive,
            flags.multi_line,
            flags.dot_matches_new_line,
            text@,
        ),
        r matches Ok(v) ==> forall|k: int|
            0 <= k < v.len() ==> #[trigger] v[k].start <= v[k].end <= text.spec_bytes().len(),
        r matches Ok(v) ==> forall|k: int|
            0 <= k < v.len() - 1 ==> #[trigger] v[k].end <= v[k + 1].start,
{
    let re = regex::RegexBuilder::new(pattern)
        .case_insensitive(flags.case_insensitive)
        .multi_line(flags.multi_line)
        .dot_matches_new_line(flags.dot_matches_new_line)
        .ignore_whitespace(false)
        .build()
        .map_err(|e| e.to_string())?;
    Ok(re.captures_iter(text).map(|c| {
        let m = c.get(0).unwrap();
        let groups = c.iter().skip(1).map(|g| g.map(|x| x.as_str().to_string())).collect();
        RawMatch { start: m.start(), end: m.end(), matched: m.as_str().to_string(), groups }
    }).collect())
}

/// The groups that took part, in order.
pub open spec fn present_groups(g: Seq<Option<Seq<char>>>) -> Seq<Seq<char>>
    decreases g.len(),
{
    if g.len() == 0 {
        Seq::empty()
    } else {
        match g.last() {
            Some(s) => present_groups(g.drop_last()).push(s),
            None => present_groups(g.drop_last()),
        }
    }
}

/// Keeps the groups that took part in a match.
pub fn keep_present(groups: Vec<Option<String>>) -> (r: Vec<String>)
    ensures
        r@.map_values(|s: String| s@) == present_groups(
            groups@.map_values(|g: Option<String>| group_view(g)),
        ),
{
    let ghost gv = groups@.map_values(|g: Option<String>| group_view(g));
    let mut r: Vec<String> = Vec::new();
    let mut i: usize = 0;
    while i < groups.len()
        invariant
            i <= groups.len(),
            gv == groups@.map_values(|g: Option<String>| group_view(g)),
            r@.map_values(|s: String| s@) == present_groups(gv.subrange(0, i as int)),
        decreases groups.len() - i,
    {
        let ghost before = r@;
        assert(gv.subrange(0, i as int) == gv.subrange(0, i + 1).drop_last());
        assert(gv.subrange(0, i + 1).last() == group_view(groups@[i as int]));
        match &groups[i] {
            Some(s) => {
                r.push(s.clone());
                assert(r@.map_values(|s: String| s@) == before.map_values(|s: String| s@).push(
                    s@,
                ));
            },
            None => {},
        }
        i = i + 1;
    }
    assert(gv == gv.subrange(0, groups.len() as int));
    r
}

/// Whether a reported match is the found match `v`, keeping the groups
/// that took part.
pub open spec fn reports(m: MatchResult, v: (int, int, Seq<char>, Seq<Option<Seq<char>>>)) -> bool {
    &&& m.start == v.0
    &&& m.end == v.1
    &&& m.matched@ == v.2
    &&& m.groups@.map_values(|s: String| s@) == present_groups(v.3)
}

/// How many matches are reported out of `n` found.
pub open spec fn reported_count(global: bool, n: int) -> int {
    if global || n <= 1 {
        n
    } else {
        1
    }
}

/// Runs `pattern` over `text` with the options of `flags`. A pattern that
/// does not compile gives `ok == false`, no matches and the compiler's
/// message. Otherwise the matches are reported in order, all of them with
/// `g` and only the first without it; each keeps the groups that took
/// part.
pub fn run_regex(pattern: &str, text: &str, flags: &str) -> (r: RegexResponse)
    ensures
        r.ok == pattern_compiles(
            pattern@,
            flags@.contains('i'),
            flags@.contains('m'),
            flags@.contains('s'),
        ),
        !r.ok ==> r.matches.len() == 0 && (r.error matches Some(m) && m@.len() > 0),
        r.ok ==> r.error is None,
        r.ok ==> ({
            let all = regex_matches(
                pattern@,
                flags@.contains('i'),
                flags@.contains('m'),
                flags@.contains('s'),
                text@,
            );
            &&& r.matches.len() == reported_count(flags@.contains('g'), all.len() as int)
            &&& forall|k: int| 0 <= k < r.matches.len() ==> reports(#[trigger] r.matches[k], all[k])
        }),
        forall|k: int|
            0 <= k < r.matches.len() ==> #[trigger] r.matches[k].start <= r.matches[k].end
                <= text.spec_bytes().len(),
        forall|k: int|
            0 <= k < r.matches.len() - 1 ==> #[trigger] r.matches[k].end <= r.matches[k
                + 1].start,
{
    let opts = regex_flags(flags);
    let mut found = match find_matches(pattern, &opts, text) {
        Ok(v) => v,
        Err(message) => {
            return RegexResponse { ok: false, matches: Vec::new(), error: Some(message) };
        },
    };
    let ghost all = found@;
    let ghost views = regex_matches(
        pattern@,
        opts.case_insensitive,
        opts.multi_line,
        opts.dot_matches_new_line,
        text@,
    );
    assert(forall|k: int| 0 <= k < all.len() ==> views[k] == raw_view(#[trigger] all[k]));
    let n = found.len();
    let mut results: Vec<MatchResult> = Vec::new();
    let mut i: usize = 0;
    while i < n && (opts.global || i == 0)
        invariant
            n == all.len(),
            views.len() == n,
            i <= n,
            found@ == all.subrange(i as int, n as int),
            results.len() == i,
            !opts.global ==> i <= 1,
            forall|k: int| 0 <= k < all.len() ==> views[k] == raw_view(#[trigger] all[k]),
            forall|k: int|
                0 <= k < all.len() ==> #[trigger] all[k].start <= all[k].end
                    <= text.spec_bytes().len(),
            forall|k: int| 0 <= k < all.len() - 1 ==> #[trigger] all[k].end <= all[k + 1].start,
            forall|k: int|
                0 <= k < i ==> {
                    &&& #[trigger] results[k].start == all[k].start
                    &&& results[k].end == all[k].end
                    &&& results[k].matched@ == all[k].matched@
                    &&& results[k].groups@.map_values(|s: String| s@) == present_groups(
                        views[k].3,
                    )
                },
        decreases n - i,
    {
        assert(found@[0] == all[i as int]);
        let m = found.remove(0);
        assert(found@ == all.subrange(i + 1, n as int));
        let groups = keep_present(m.groups);
        results.push(MatchResult { start: m.start, end: m.end, matched: m.matched, groups });
        i = i + 1;
    }
    assert(results.len() == reported_count(opts.global, n as int));
    assert forall|k: int| 0 <= k < results.len() - 1 implies #[trigger] results[k].end
        <= results[k + 1].start by {
        assert(results[k].start == all[k].start);
        assert(results[k + 1].start == all[k + 1].start);
        assert(all[k].end <= all[k + 1].start);
    }
    assert forall|k: int| 0 <= k < results.len() implies reports(#[trigger] results[k], views[k])
        && results[k].start <= results[k].end <= text.spec_bytes().len() by {
        assert(results[k].start == all[k].start);
        assert(views[k] == raw_view(all[k]));
    }
    assert(views == regex_matches(
        pattern@,
        flags@.contains('i'),
        flags@.contains('m'),
        flags@.contains('s'),
        text@,
    ));
    assert(views.len() == n);
    let r = RegexResponse { ok: true, matches: results, error: None };
    r
}

} // verus!
