//! Findings, configuration, the compiled rules, and the line matcher.

use vstd::prelude::*;
use vstd::string::*;

use crate::config::{
    default_skip_paths, default_skip_paths_spec, default_task_names, default_task_names_spec,
    generate_skip_path_pattern, generate_task_pattern, skip_path_pattern, task_pattern, views,
    DEFAULT_FORMAL_TASK_PATTERN, TEXT_MIMETYPE_PATTERN,
};
use crate::pattern::{regex_compiles, regex_matches, Pattern};
use crate::text::{decode_lines, text_lines, trim_leading, trim_start};

verus! {

#[verifier::external_type_specification]
#[verifier::external_body]
pub struct ExWalkdirError(walkdir::Error);

/// One line that holds a task marker.
#[derive(Debug)]
pub struct Warning {
    /// The file, in its cleaned display form.
    pub path: String,
    /// The line's position in the file, counting from 1.
    pub line_number: u64,
    /// The line without its leading white space.
    pub line: String,
}

/// What a `Warning` says, as mathematical values.
pub struct Finding {
    pub path: Seq<char>,
    pub line_number: int,
    pub line: Seq<char>,
}

impl View for Warning {
    type V = Finding;

    open spec fn view(&self) -> Finding {
        Finding { path: self.path@, line_number: self.line_number as int, line: self.line@ }
    }
}

/// The views of a sequence of warnings.
pub open spec fn findings(ws: Seq<Warning>) -> Seq<Finding> {
    ws.map_values(|w: Warning| w@)
}

/// Why a scan stopped.
#[derive(Debug)]
pub enum TodolintError {
    IOError(String),
    DirectoryTraversalError(walkdir::Error),
    UnsupportedPathError(String),
    PathRenderError(String),
    UnknownMimetypeError(String),
    RegexParseError(String),
    TOMLParseError(String),
}

/// Whether a line is reported: it is not exempted by the formal pattern, and
/// the task pattern matches it.
pub open spec fn flags_line(formal: Seq<char>, task: Seq<char>, line: Seq<char>) -> bool {
    !regex_matches(formal, line) && regex_matches(task, line)
}

/// The findings for the lines of one file, in line order, numbered from 1.
pub open spec fn findings_of(
    formal: Seq<char>,
    task: Seq<char>,
    path: Seq<char>,
    lines: Seq<Seq<char>>,
) -> Seq<Finding>
    decreases lines.len(),
{
    if lines.len() == 0 {
        Seq::empty()
    } else {
        let earlier = findings_of(formal, task, path, lines.drop_last());
        if flags_line(formal, task, lines.last()) {
            earlier.push(
                Finding {
                    path,
                    line_number: lines.len() as int,
                    line: trim_leading(lines.last()),
                },
            )
        } else {
            earlier
        }
    }
}

/// Configuration overrides; an absent value means the built-in default.
#[derive(Debug)]
pub struct Linter {
    /// Enables additional logging.
    pub debug: Option<bool>,
    /// Names whose paths are never scanned (regex syntax).
    pub skip_paths: Option<Vec<String>>,
    /// Regex of the lines that cite where their work is tracked.
    pub formal_task_pattern: Option<String>,
    /// Marker terms (regex syntax).
    pub task_names: Option<Vec<String>>,
}

impl Default for Linter {
    fn default() -> (r: Linter)
        ensures
            r.debug is None,
            r.skip_paths is None,
            r.formal_task_pattern is None,
            r.task_names is None,
    {
        Linter { debug: None, skip_paths: None, formal_task_pattern: None, task_names: None }
    }
}

/// The patterns a scan applies, each compiled once.
#[derive(Debug)]
pub struct Rules {
    /// Matches the absolute paths that are never scanned.
    pub skip: Pattern,
    /// Matches the lines that are exempt.
    pub formal: Pattern,
    /// Matches the lines that hold a marker term.
    pub task: Pattern,
    /// Matches the mimetypes of text.
    pub text: Pattern,
    /// Whether additional logging was asked for.
    pub debug: bool,
}

impl Linter {
    /// The excluded path names in effect.
    pub open spec fn effective_skip_paths(&self) -> Seq<Seq<char>> {
        match self.skip_paths {
            Some(v) => views(v@),
            None => default_skip_paths_spec(),
        }
    }

    /// The formal pattern in effect.
    pub open spec fn effective_formal_pattern(&self) -> Seq<char> {
        match self.formal_task_pattern {
            Some(s) => s@,
            None => DEFAULT_FORMAL_TASK_PATTERN@,
        }
    }

    /// The marker terms in effect.
    pub open spec fn effective_task_names(&self) -> Seq<Seq<char>> {
        match self.task_names {
            Some(v) => views(v@),
            None => default_task_names_spec(),
        }
    }

    /// Whether every pattern in effect compiles.
    pub open spec fn compiles(&self) -> bool {
        &&& regex_compiles(skip_path_pattern(self.effective_skip_paths()))
        &&& regex_compiles(self.effective_formal_pattern())
        &&& regex_compiles(task_pattern(self.effective_task_names()))
        &&& regex_compiles(TEXT_MIMETYPE_PATTERN@)
    }

    /// Whether `rules` are this configuration's patterns, compiled.
    pub open spec fn compiled_as(&self, rules: Rules) -> bool {
        &&& rules.skip@ == skip_path_pattern(self.effective_skip_paths())
        &&& rules.formal@ == self.effective_formal_pattern()
        &&& rules.task@ == task_pattern(self.effective_task_names())
        &&& rules.text@ == TEXT_MIMETYPE_PATTERN@
        &&& rules.debug == (self.debug == Some(true))
    }

    /// Compiles the patterns in effect, defaults in place of absent overrides.
    pub fn rules(&self) -> (r: Result<Rules, TodolintError>)
        ensures
            r is Ok <==> self.compiles(),
            r matches Ok(rules) ==> self.compiled_as(rules),
            r matches Err(e) ==> e is RegexParseError,
    {
        let skip = match &self.skip_paths {
            Some(v) => generate_skip_path_pattern(v.as_slice()),
            None => {
                let d = default_skip_paths();
                generate_skip_path_pattern(d.as_slice())
            },
        };
        let skip = match skip {
            Ok(p) => p,
            Err(e) => {
                return Err(TodolintError::RegexParseError(e.to_string()));
            },
        };
        let formal = match &self.formal_task_pattern {
            Some(s) => Pattern::new(s.as_str()),
            None => Pattern::new(DEFAULT_FORMAL_TASK_PATTERN),
        };
        let formal = match formal {
            Ok(p) => p,
            Err(e) => {
                return Err(TodolintError::RegexParseError(e.to_string()));
            },
        };
        let task = match &self.task_names {
            Some(v) => generate_task_pattern(v.as_slice()),
            None => {
                let d = default_task_names();
                generate_task_pattern(d.as_slice())
            },
        };
        let task = match task {
            Ok(p) => p,
            Err(e) => {
                return Err(TodolintError::RegexParseError(e.to_string()));
            },
        };
        let text = match Pattern::new(TEXT_MIMETYPE_PATTERN) {
            Ok(p) => p,
            Err(e) => {
                return Err(TodolintError::RegexParseError(e.to_string()));
            },
        };
        let debug = match self.debug {
            Some(d) => d,
            None => false,
        };
        Ok(Rules { skip, formal, task, text, debug })
    }

    /// The warnings for a file whose content is `content`, shown as `pth`.
    pub fn check(&self, pth: String, content: &[u8]) -> (r: Result<Vec<Warning>, TodolintError>)
        ensures
            !self.compiles() ==> (r matches Err(e) && e is RegexParseError),
            self.compiles() ==> match text_lines(content@) {
                None => r matches Err(e) && e is IOError,
                Some(ls) => r matches Ok(ws) && findings(ws@) == findings_of(
                    self.effective_formal_pattern(),
                    task_pattern(self.effective_task_names()),
                    pth@,
                    ls,
                ),
            },
    {
        let rules = self.rules()?;
        rules.check_content(&pth, content)
    }
}

impl Rules {
    /// Whether the path exclusion pattern matches the absolute path.
    pub fn excludes(&self, absolute: &str) -> (r: bool)
        ensures
            r == regex_matches(self.skip@, absolute@),
    {
        self.skip.is_match(absolute)
    }

    /// Whether the mimetype's top-level type is text.
    pub fn is_text_mimetype(&self, mimetype: &str) -> (r: bool)
        ensures
            r == regex_matches(self.text@, mimetype@),
    {
        self.text.is_match(mimetype)
    }

    /// The warnings for `lines`, the lines of the file shown as `path`.
    pub fn check_lines(&self, path: &String, lines: &Vec<String>) -> (r: Vec<Warning>)
        ensures
            findings(r@) == findings_of(self.formal@, self.task@, path@, views(lines@)),
    {
        let mut warnings: Vec<Warning> = Vec::new();
        let mut i: usize = 0;
        while i < lines.len()
            invariant
                0 <= i <= lines@.len(),
                findings(warnings@) == findings_of(
                    self.formal@,
                    self.task@,
                    path@,
                    views(lines@.take(i as int)),
                ),
            decreases lines@.len() - i,
        {
            let ghost before = views(lines@.take(i as int));
            let ghost after = views(lines@.take(i + 1));
            assert(after.drop_last() =~= before);
            assert(after.last() == lines@[i as int]@);
            let line = lines[i].as_str();
            if !self.formal.is_match(line) && self.task.is_match(line) {
                let w = Warning { path: path.clone(), line_number: (i + 1) as u64, line: trim_start(line) };
                warnings.push(w);
                assert(findings(warnings@) =~= findings_of(self.formal@, self.task@, path@, after));
            } else {
                assert(findings(warnings@) =~= findings_of(self.formal@, self.task@, path@, after));
            }
            i += 1;
        }
        assert(lines@.take(lines@.len() as int) =~= lines@);
        warnings
    }

    /// The warnings for a file whose content is `content`, shown as `path`;
    /// an error when a line is not valid UTF-8.
    pub fn check_content(&self, path: &String, content: &[u8]) -> (r: Result<Vec<Warning>, TodolintError>)
        ensures
            match text_lines(content@) {
                None => r matches Err(e) && e is IOError,
                Some(ls) => r matches Ok(ws) && findings(ws@) == findings_of(
                    self.formal@,
                    self.task@,
                    path@,
                    ls,
                ),
            },
    {
        match decode_lines(content) {
            Some(lines) => Ok(self.check_lines(path, &lines)),
            None => {
                let message = String::from_str("unable to read line from file: ").concat(path.as_str());
                Err(TodolintError::IOError(message))
            },
        }
    }
}

} // verus!
