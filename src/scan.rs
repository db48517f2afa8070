//! A scan of candidate files, one decision at a time.
//!
//! The caller enumerates the candidate files and reads their content when
//! asked to; every decision (which path is excluded, which content is text,
//! which lines are reported, in what order) is taken here.

use vstd::prelude::*;
use vstd::string::*;

use crate::lint::{findings, findings_of, Finding, Linter, Rules, TodolintError, Warning};
use crate::pattern::regex_matches;
use crate::text::{sniff_mimetype, sniffed_mimetype, text_lines};

verus! {

/// The cleaned form of a path, or `None` when it cannot be shown as text.
pub uninterp spec fn cleaned_path(p: Seq<char>) -> Option<Seq<char>>;

/// Relies on clean_path::clean: a lexical clean-up (repeated separators,
/// `.` and `..` elements) that depends on the path alone; the result is
/// handed back as text when it is valid UTF-8.
#[verifier::external_body]
fn clean(p: &str) -> (r: Option<String>)
    ensures
        match r {
            Some(s) => cleaned_path(p@) == Some(s@),
            None => cleaned_path(p@) is None,
        },
{
    clean_path::clean(p).into_os_string().into_string().ok()
}

/// The cleaned display form of `raw`; an error when it cannot be shown as text.
pub fn normalize_path(raw: &str) -> (r: Result<String, TodolintError>)
    ensures
        match cleaned_path(raw@) {
            Some(c) => r matches Ok(s) && s@ == c,
            None => r matches Err(e) && e is PathRenderError,
        },
{
    match clean(raw) {
        Some(s) => Ok(s),
        None => {
            let message = String::from_str("unable to process path: ").concat(raw);
            Err(TodolintError::PathRenderError(message))
        },
    }
}

/// A file to consider: its cleaned display form and its absolute form.
#[derive(Debug)]
pub struct Candidate {
    pub path: String,
    pub absolute: String,
}

/// What the scan needs next.
#[derive(Debug)]
pub enum Request {
    /// The content of this file, to be handed to `Scan::feed`.
    Read(String),
    /// Nothing: this file's path is excluded.
    Excluded(String),
    /// Nothing: every candidate has been taken up.
    Finished,
}

/// What became of the content handed to `Scan::feed`.
#[derive(Debug)]
pub enum Verdict {
    /// It was text, and its lines were checked.
    Scanned,
    /// It was not text: this is its mimetype.
    NotText(String),
    /// No content had been asked for.
    NotRequested,
}

/// The state of a scan, as mathematical values.
pub struct ScanState {
    /// Index of the next candidate to take up.
    pub next: int,
    /// The display path of the file whose content is asked for.
    pub current: Option<Seq<char>>,
    /// The findings so far, in order.
    pub findings: Seq<Finding>,
    /// Whether the scan stopped on an error: it then asks for nothing more
    /// and holds no findings.
    pub failed: bool,
}

/// The state after asking for the next request.
pub open spec fn request_step(rules: Rules, cands: Seq<Candidate>, s: ScanState) -> ScanState {
    if !s.failed && 0 <= s.next < cands.len() {
        let c = cands[s.next];
        ScanState {
            next: s.next + 1,
            current: if regex_matches(rules.skip@, c.absolute@) {
                None
            } else {
                Some(c.path@)
            },
            findings: s.findings,
            failed: false,
        }
    } else {
        ScanState { next: s.next, current: None, findings: s.findings, failed: s.failed }
    }
}

/// Whether handing `content` over in state `s` stops the scan: the content
/// was asked for, is text, and has a line that is not UTF-8.
pub open spec fn feed_fails(rules: Rules, s: ScanState, content: Seq<u8>) -> bool {
    &&& s.current is Some
    &&& regex_matches(rules.text@, sniffed_mimetype(content))
    &&& text_lines(content) is None
}

/// The state after handing `content` over. A failure is terminal: the
/// findings so far are dropped, since a failed scan has no partial result.
pub open spec fn feed_step(rules: Rules, s: ScanState, content: Seq<u8>) -> ScanState {
    if feed_fails(rules, s, content) {
        ScanState { next: s.next, current: None, findings: Seq::empty(), failed: true }
    } else {
        match s.current {
        None => s,
        Some(p) => {
            let scanned = regex_matches(rules.text@, sniffed_mimetype(content));
            ScanState {
                next: s.next,
                current: None,
                findings: match text_lines(content) {
                    Some(ls) if scanned => s.findings + findings_of(rules.formal@, rules.task@, p, ls),
                    _ => s.findings,
                },
                failed: s.failed,
            }
        },
        }
    }
}

/// A scan in progress over a list of candidates.
#[derive(Debug)]
pub struct Scan {
    rules: Rules,
    candidates: Vec<Candidate>,
    next: usize,
    current: Option<String>,
    warnings: Vec<Warning>,
    failed: bool,
}

impl View for Scan {
    type V = ScanState;

    closed spec fn view(&self) -> ScanState {
        ScanState {
            next: self.next as int,
            current: match self.current {
                Some(p) => Some(p@),
                None => None,
            },
            findings: findings(self.warnings@),
            failed: self.failed,
        }
    }
}

impl Scan {
    /// The rules the scan applies.
    pub closed spec fn rules_spec(&self) -> Rules {
        self.rules
    }

    /// The candidates, in the order they are taken up.
    pub closed spec fn candidates_spec(&self) -> Seq<Candidate> {
        self.candidates@
    }

    /// Takes up the next candidate: asks for its content unless its absolute
    /// path is excluded; says so when there is none left, or when the scan
    /// has stopped on an error.
    pub fn next_request(&mut self) -> (r: Request)
        ensures
            final(self).rules_spec() == old(self).rules_spec(),
            final(self).candidates_spec() == old(self).candidates_spec(),
            final(self)@ == request_step(old(self).rules_spec(), old(self).candidates_spec(), old(self)@),
            ({
                let cands = old(self).candidates_spec();
                let i = old(self)@.next;
                if !old(self)@.failed && i < cands.len() {
                    if regex_matches(old(self).rules_spec().skip@, cands[i].absolute@) {
                        r matches Request::Excluded(p) && p@ == cands[i].path@
                    } else {
                        r matches Request::Read(p) && p@ == cands[i].path@
                    }
                } else {
                    r is Finished
                }
            }),
    {
        if !self.failed && self.next < self.candidates.len() {
            let i = self.next;
            let path = self.candidates[i].path.clone();
            let excluded = self.rules.excludes(self.candidates[i].absolute.as_str());
            self.next = i + 1;
            if excluded {
                self.current = None;
                Request::Excluded(path)
            } else {
                self.current = Some(path.clone());
                Request::Read(path)
            }
        } else {
            self.current = None;
            Request::Finished
        }
    }

    /// Takes the content of the file asked for: checks its lines when its
    /// sniffed mimetype is text, and otherwise leaves the warnings as they are.
    /// An error stops the scan for good: its warnings are dropped and it asks
    /// for nothing more.
    pub fn feed(&mut self, content: &[u8]) -> (r: Result<Verdict, TodolintError>)
        ensures
            final(self).rules_spec() == old(self).rules_spec(),
            final(self).candidates_spec() == old(self).candidates_spec(),
            final(self)@ == feed_step(old(self).rules_spec(), old(self)@, content@),
            r is Err <==> feed_fails(old(self).rules_spec(), old(self)@, content@),
            r matches Err(e) ==> e is IOError,
            r is Err ==> final(self)@.failed && final(self)@.findings.len() == 0,
            old(self)@.current is None ==> r matches Ok(Verdict::NotRequested),
            old(self)@.current is Some ==> {
                let m = sniffed_mimetype(content@);
                if regex_matches(old(self).rules_spec().text@, m) {
                    r is Err || r matches Ok(Verdict::Scanned)
                } else {
                    r matches Ok(Verdict::NotText(t)) && t@ == m
                }
            },
    {
        let path = match self.current.take() {
            Some(p) => p,
            None => {
                return Ok(Verdict::NotRequested);
            },
        };
        let mimetype = sniff_mimetype(content);
        if !self.rules.is_text_mimetype(mimetype.as_str()) {
            return Ok(Verdict::NotText(mimetype));
        }
        match self.rules.check_content(&path, content) {
            Ok(found) => {
                let ghost before = self.warnings@;
                let ghost added = found@;
                let mut found = found;
                self.warnings.append(&mut found);
                assert(findings(self.warnings@) =~= findings(before) + findings(added));
                Ok(Verdict::Scanned)
            },
            Err(e) => {
                self.failed = true;
                self.warnings = Vec::new();
                assert(findings(self.warnings@) =~= Seq::empty());
                Err(e)
            },
        }
    }

    /// The warnings so far: for each file read, its warnings in line order,
    /// files in the order of the candidates.
    pub fn warnings(&self) -> (r: &Vec<Warning>)
        ensures
            findings(r@) == self@.findings,
    {
        &self.warnings
    }

    /// The warnings so far, taken out of the scan.
    pub fn into_warnings(self) -> (r: Vec<Warning>)
        ensures
            findings(r@) == self@.findings,
    {
        self.warnings
    }
}

impl Linter {
    /// Starts a scan of `candidates` with this configuration's patterns.
    pub fn scan(&self, candidates: Vec<Candidate>) -> (r: Result<Scan, TodolintError>)
        ensures
            r is Ok <==> self.compiles(),
            r matches Err(e) ==> e is RegexParseError,
            r matches Ok(s) ==> {
                &&& self.compiled_as(s.rules_spec())
                &&& s.candidates_spec() == candidates@
                &&& s@ == (ScanState {
                    next: 0,
                    current: None,
                    findings: Seq::empty(),
                    failed: false,
                })
            },
    {
        let rules = self.rules()?;
        let scan = Scan { rules, candidates, next: 0, current: None, warnings: Vec::new(), failed: false };
        assert(findings(scan.warnings@) =~= Seq::empty());
        Ok(scan)
    }
}

} // verus!
