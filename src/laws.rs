//! Properties of the line matcher and of a scan, proved over the
//! specifications that the executable functions meet.

use vstd::prelude::*;

use crate::lint::{findings_of, flags_line, Finding, Rules};
use crate::pattern::regex_matches;
use crate::scan::{feed_fails, feed_step, request_step, Candidate, ScanState};
use crate::text::{byte_lines, is_white_space, sniffed_mimetype, text_lines, trim_leading};
use vstd::utf8::decode_utf8;

verus! {

/// Every finding names the file, carries the 1-based number of a line that
/// the task pattern matches and the formal pattern does not, and shows that
/// line without its leading white space.
pub proof fn lemma_findings_sound(
    formal: Seq<char>,
    task: Seq<char>,
    path: Seq<char>,
    lines: Seq<Seq<char>>,
)
    ensures
        forall|j: int|
            0 <= j < findings_of(formal, task, path, lines).len() ==> {
                let f = #[trigger] findings_of(formal, task, path, lines)[j];
                &&& 1 <= f.line_number <= lines.len()
                &&& f.path == path
                &&& flags_line(formal, task, lines[f.line_number - 1])
                &&& f.line == trim_leading(lines[f.line_number - 1])
            },
    decreases lines.len(),
{
    if lines.len() > 0 {
        let prev = lines.drop_last();
        lemma_findings_sound(formal, task, path, prev);
        let fs = findings_of(formal, task, path, lines);
        let ps = findings_of(formal, task, path, prev);
        assert forall|j: int| 0 <= j < fs.len() implies {
            let f = #[trigger] fs[j];
            &&& 1 <= f.line_number <= lines.len()
            &&& f.path == path
            &&& flags_line(formal, task, lines[f.line_number - 1])
            &&& f.line == trim_leading(lines[f.line_number - 1])
        } by {
            if j < ps.len() {
                assert(fs[j] == ps[j]);
                assert(lines[ps[j].line_number - 1] == prev[ps[j].line_number - 1]);
            }
        }
    }
}

/// For a file's content, a finding's line number is the 1-based position of
/// a physical line (newline-delimited, line ending removed), and its text is
/// that line decoded, without its leading white space.
pub proof fn lemma_reported_lines_are_physical(
    formal: Seq<char>,
    task: Seq<char>,
    path: Seq<char>,
    content: Seq<u8>,
)
    requires
        text_lines(content) is Some,
    ensures
        forall|j: int|
            0 <= j < findings_of(formal, task, path, text_lines(content)->0).len() ==> {
                let f = #[trigger] findings_of(formal, task, path, text_lines(content)->0)[j];
                &&& 1 <= f.line_number <= byte_lines(content).len()
                &&& f.line == trim_leading(decode_utf8(byte_lines(content)[f.line_number - 1]))
            },
{
    let ls = text_lines(content)->0;
    lemma_findings_sound(formal, task, path, ls);
}

/// Every line that the task pattern matches and the formal pattern does not
/// has a finding.
pub proof fn lemma_findings_complete(
    formal: Seq<char>,
    task: Seq<char>,
    path: Seq<char>,
    lines: Seq<Seq<char>>,
    k: int,
)
    requires
        0 <= k < lines.len(),
        flags_line(formal, task, lines[k]),
    ensures
        exists|j: int|
            0 <= j < findings_of(formal, task, path, lines).len()
                && (#[trigger] findings_of(formal, task, path, lines)[j]).line_number == k + 1,
    decreases lines.len(),
{
    let fs = findings_of(formal, task, path, lines);
    if k == lines.len() - 1 {
        assert(fs[fs.len() - 1].line_number == k + 1);
    } else {
        lemma_findings_complete(formal, task, path, lines.drop_last(), k);
        let j = choose|j: int|
            0 <= j < findings_of(formal, task, path, lines.drop_last()).len()
                && (#[trigger] findings_of(formal, task, path, lines.drop_last())[j]).line_number
                == k + 1;
        assert(fs[j].line_number == k + 1);
    }
}

/// Findings come in line order: their line numbers strictly increase.
pub proof fn lemma_findings_ordered(
    formal: Seq<char>,
    task: Seq<char>,
    path: Seq<char>,
    lines: Seq<Seq<char>>,
)
    ensures
        forall|i: int, j: int|
            0 <= i < j < findings_of(formal, task, path, lines).len() ==> (#[trigger] findings_of(
                formal,
                task,
                path,
                lines,
            )[i]).line_number < (#[trigger] findings_of(formal, task, path, lines)[j]).line_number,
    decreases lines.len(),
{
    if lines.len() > 0 {
        let prev = lines.drop_last();
        lemma_findings_ordered(formal, task, path, prev);
        lemma_findings_sound(formal, task, path, prev);
        let fs = findings_of(formal, task, path, lines);
        let ps = findings_of(formal, task, path, prev);
        assert forall|i: int, j: int| 0 <= i < j < fs.len() implies (#[trigger] fs[i]).line_number
            < (#[trigger] fs[j]).line_number by {
            assert(fs[i] == ps[i]);
            if j < ps.len() {
                assert(fs[j] == ps[j]);
            }
        }
    }
}

/// A line that the formal pattern matches is never reported, whatever the
/// task pattern says of it.
pub proof fn lemma_exempt_line_not_reported(
    formal: Seq<char>,
    task: Seq<char>,
    path: Seq<char>,
    lines: Seq<Seq<char>>,
    k: int,
)
    requires
        0 <= k < lines.len(),
        regex_matches(formal, lines[k]),
    ensures
        forall|j: int|
            0 <= j < findings_of(formal, task, path, lines).len() ==> (#[trigger] findings_of(
                formal,
                task,
                path,
                lines,
            )[j]).line_number != k + 1,
{
    lemma_findings_sound(formal, task, path, lines);
}

/// Trimming removes leading white space only: the text is the removed
/// white space followed by the result, which starts with no white space.
pub proof fn lemma_trim_leading(s: Seq<char>)
    ensures
        trim_leading(s).len() <= s.len(),
        s == s.take(s.len() - trim_leading(s).len()) + trim_leading(s),
        forall|j: int| 0 <= j < s.len() - trim_leading(s).len() ==> is_white_space(#[trigger] s[j]),
        trim_leading(s).len() > 0 ==> !is_white_space(trim_leading(s)[0]),
    decreases s.len(),
{
    if s.len() > 0 && is_white_space(s[0]) {
        let t = s.drop_first();
        lemma_trim_leading(t);
        let n = s.len() - trim_leading(s).len();
        assert(s.take(n) =~= seq![s[0]] + t.take(n - 1));
        assert(s =~= seq![s[0]] + t);
        assert(s =~= s.take(n) + trim_leading(s));
        assert forall|j: int| 0 <= j < n implies is_white_space(#[trigger] s[j]) by {
            if j > 0 {
                assert(s[j] == t[j - 1]);
            }
        }
    } else {
        assert(s.take(0) + s =~= s);
    }
}

/// A candidate whose absolute path the exclusion pattern matches is never
/// read: whatever content is handed over, no finding is added and the scan
/// does not fail.
pub proof fn lemma_excluded_never_scanned(
    rules: Rules,
    cands: Seq<Candidate>,
    s: ScanState,
    content: Seq<u8>,
)
    requires
        0 <= s.next < cands.len(),
        regex_matches(rules.skip@, cands[s.next].absolute@),
    ensures
        request_step(rules, cands, s).current is None,
        feed_step(rules, request_step(rules, cands, s), content).findings == s.findings,
        !feed_fails(rules, request_step(rules, cands, s), content),
{
}

/// Content whose sniffed mimetype the text pattern does not match is never
/// scanned, whatever the file is called.
pub proof fn lemma_non_text_never_scanned(rules: Rules, s: ScanState, content: Seq<u8>)
    requires
        !regex_matches(rules.text@, sniffed_mimetype(content)),
    ensures
        feed_step(rules, s, content).findings == s.findings,
        !feed_fails(rules, s, content),
{
}

/// What one candidate contributes to a scan, given its content.
pub open spec fn file_findings(rules: Rules, c: Candidate, content: Seq<u8>) -> Seq<Finding> {
    if regex_matches(rules.skip@, c.absolute@) || !regex_matches(
        rules.text@,
        sniffed_mimetype(content),
    ) {
        Seq::empty()
    } else {
        match text_lines(content) {
            Some(ls) => findings_of(rules.formal@, rules.task@, c.path@, ls),
            None => Seq::empty(),
        }
    }
}

/// The findings of the first `n` candidates, file after file.
pub open spec fn scan_findings(
    rules: Rules,
    cands: Seq<Candidate>,
    contents: Seq<Seq<u8>>,
    n: int,
) -> Seq<Finding>
    decreases n,
{
    if n <= 0 {
        Seq::empty()
    } else {
        scan_findings(rules, cands, contents, n - 1) + file_findings(
            rules,
            cands[n - 1],
            contents[n - 1],
        )
    }
}

/// Whether one candidate's content stops a scan: the candidate is read, its
/// content is text, and a line is not UTF-8.
pub open spec fn file_fails(rules: Rules, c: Candidate, content: Seq<u8>) -> bool {
    &&& !regex_matches(rules.skip@, c.absolute@)
    &&& regex_matches(rules.text@, sniffed_mimetype(content))
    &&& text_lines(content) is None
}

/// The state after the first `n` candidates were each requested and, when
/// asked for, their content handed over.
pub open spec fn after_visits(
    rules: Rules,
    cands: Seq<Candidate>,
    contents: Seq<Seq<u8>>,
    n: int,
) -> ScanState
    decreases n,
{
    if n <= 0 {
        ScanState { next: 0, current: None, findings: Seq::empty(), failed: false }
    } else {
        let s = after_visits(rules, cands, contents, n - 1);
        feed_step(rules, request_step(rules, cands, s), contents[n - 1])
    }
}

/// After `n` visits no content is awaited, and unless a file stopped the
/// scan, the next candidate is the `n`-th.
proof fn lemma_visits_shape(rules: Rules, cands: Seq<Candidate>, contents: Seq<Seq<u8>>, n: int)
    requires
        0 <= n <= cands.len(),
    ensures
        after_visits(rules, cands, contents, n).current is None,
        !after_visits(rules, cands, contents, n).failed ==> after_visits(
            rules,
            cands,
            contents,
            n,
        ).next == n,
    decreases n,
{
    if n > 0 {
        lemma_visits_shape(rules, cands, contents, n - 1);
    }
}

/// A scan that no file stops has, after `n` candidates, the findings of
/// those candidates, file after file and in line order within a file.
pub proof fn lemma_scan_outcome(
    rules: Rules,
    cands: Seq<Candidate>,
    contents: Seq<Seq<u8>>,
    n: int,
)
    requires
        0 <= n <= cands.len(),
        contents.len() == cands.len(),
        forall|i: int| 0 <= i < n ==> !file_fails(rules, cands[i], #[trigger] contents[i]),
    ensures
        after_visits(rules, cands, contents, n) == (ScanState {
            next: n,
            current: None,
            findings: scan_findings(rules, cands, contents, n),
            failed: false,
        }),
    decreases n,
{
    if n > 0 {
        assert(!file_fails(rules, cands[n - 1], contents[n - 1]));
        lemma_scan_outcome(rules, cands, contents, n - 1);
    }
}

/// Two scans of the same candidates with the same rules end in the same
/// state, error or findings alike, whenever every file that is read has the
/// same content both times; what excluded files hold never matters.
pub proof fn lemma_repeated_scans_agree(
    rules: Rules,
    cands: Seq<Candidate>,
    first: Seq<Seq<u8>>,
    second: Seq<Seq<u8>>,
    n: int,
)
    requires
        0 <= n <= cands.len(),
        first.len() == cands.len(),
        second.len() == cands.len(),
        forall|i: int|
            0 <= i < n && !regex_matches(rules.skip@, (#[trigger] cands[i]).absolute@) ==> first[i]
                == second[i],
    ensures
        after_visits(rules, cands, first, n) == after_visits(rules, cands, second, n),
    decreases n,
{
    if n > 0 {
        lemma_repeated_scans_agree(rules, cands, first, second, n - 1);
        lemma_visits_shape(rules, cands, first, n - 1);
        let s = request_step(rules, cands, after_visits(rules, cands, first, n - 1));
        if s.current is None {
            assert(feed_step(rules, s, first[n - 1]) == s);
            assert(feed_step(rules, s, second[n - 1]) == s);
        } else {
            assert(!regex_matches(rules.skip@, cands[n - 1].absolute@));
            assert(first[n - 1] == second[n - 1]);
        }
    }
}

/// Whether `f` reports a line of candidate `i`: one that was read and whose
/// content is text; `f` carries its display path and the 1-based number of
/// one of its physical lines, which is flagged, and shows that line decoded
/// and without its leading white space.
pub open spec fn reported_from(
    rules: Rules,
    cands: Seq<Candidate>,
    contents: Seq<Seq<u8>>,
    f: Finding,
    i: int,
) -> bool {
        &&& 0 <= i < cands.len()
        &&& !regex_matches(rules.skip@, cands[i].absolute@)
        &&& regex_matches(rules.text@, sniffed_mimetype(contents[i]))
        &&& text_lines(contents[i]) is Some
        &&& f.path == cands[i].path@
        &&& 1 <= f.line_number <= byte_lines(contents[i]).len()
        &&& flags_line(rules.formal@, rules.task@, text_lines(contents[i])->0[f.line_number - 1])
        &&& f.line == trim_leading(decode_utf8(byte_lines(contents[i])[f.line_number - 1]))
}

/// Whether `f` reports a line of one of the first `n` candidates.
pub open spec fn reported_from_first(
    rules: Rules,
    cands: Seq<Candidate>,
    contents: Seq<Seq<u8>>,
    f: Finding,
    n: int,
) -> bool {
    exists|i: int| 0 <= i < n && #[trigger] reported_from(rules, cands, contents, f, i)
}

/// Every finding of a scan reports a line of one of the candidates taken up.
pub proof fn lemma_scan_findings_physical(
    rules: Rules,
    cands: Seq<Candidate>,
    contents: Seq<Seq<u8>>,
    n: int,
)
    requires
        0 <= n <= cands.len(),
        contents.len() == cands.len(),
    ensures
        forall|j: int|
            0 <= j < scan_findings(rules, cands, contents, n).len() ==> reported_from_first(
                rules,
                cands,
                contents,
                #[trigger] scan_findings(rules, cands, contents, n)[j],
                n,
            ),
    decreases n,
{
    if n > 0 {
        lemma_scan_findings_physical(rules, cands, contents, n - 1);
        let earlier = scan_findings(rules, cands, contents, n - 1);
        let own = file_findings(rules, cands[n - 1], contents[n - 1]);
        let all = scan_findings(rules, cands, contents, n);
        assert(all == earlier + own);
        let k = n - 1;
        if text_lines(contents[k]) is Some {
            let ls = text_lines(contents[k])->0;
            lemma_reported_lines_are_physical(rules.formal@, rules.task@, cands[k].path@, contents[k]);
            lemma_findings_sound(rules.formal@, rules.task@, cands[k].path@, ls);
        }
        assert forall|j: int| 0 <= j < all.len() implies reported_from_first(
            rules,
            cands,
            contents,
            #[trigger] all[j],
            n,
        ) by {
            if j < earlier.len() {
                assert(all[j] == earlier[j]);
                assert(reported_from_first(rules, cands, contents, earlier[j], n - 1));
                let i = choose|i: int|
                    0 <= i < n - 1 && #[trigger] reported_from(rules, cands, contents, earlier[j], i);
                assert(reported_from(rules, cands, contents, all[j], i));
            } else {
                let ls = text_lines(contents[k])->0;
                let fs = findings_of(rules.formal@, rules.task@, cands[k].path@, ls);
                assert(own == fs);
                assert(all[j] == fs[j - earlier.len()]);
                assert(reported_from(rules, cands, contents, all[j], k));
            }
        }
    }
}

} // verus!
