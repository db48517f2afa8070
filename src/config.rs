//! Built-in defaults and the regex sources built from marker and path lists.

use vstd::prelude::*;
use vstd::string::*;

use crate::pattern::{regex_compiles, Pattern};

verus! {

/// File, relative to the working directory, that may hold configuration overrides.
pub const CONFIGURATION_FILENAME: &'static str = "todolint.toml";

/// Matches lines where a pending-work marker (`pending`, `todo`, `to-do`,
/// `fixme`, in any letter case) is directly followed by `: ` and a reference
/// of the form `<authority>:<resource>`, such as `todo: https://tracker/123`:
/// such a line says where the work is tracked, and is exempt.
pub const DEFAULT_FORMAL_TASK_PATTERN: &'static str = "(?i)^.*\\b(pending|todo|to-do|fixme): [^:]+:.+$";

/// Matches the mimetypes whose top-level type is text.
pub const TEXT_MIMETYPE_PATTERN: &'static str = "^text/.+$";

/// The task pattern is this, the marker terms joined by `|`, then the suffix.
pub const TASK_PATTERN_PREFIX: &'static str = "(?i)^.*\\b(";

/// See `TASK_PATTERN_PREFIX`.
pub const TASK_PATTERN_SUFFIX: &'static str = ")\\b.*$";

/// The path exclusion pattern is this, the path names joined by `|`, then the
/// suffix: a name matches whole path elements, anywhere in the path, so that
/// everything under an excluded directory is excluded too.
pub const SKIP_PATH_PATTERN_PREFIX: &'static str = "^(.*(/|\\\\))?(";

/// See `SKIP_PATH_PATTERN_PREFIX`.
pub const SKIP_PATH_PATTERN_SUFFIX: &'static str = ")((/|\\\\).*)?$";

/// The character views of a sequence of strings.
pub open spec fn views(s: Seq<String>) -> Seq<Seq<char>> {
    s.map_values(|x: String| x@)
}

/// The parts with `sep` between each two neighbours.
pub open spec fn joined(parts: Seq<Seq<char>>, sep: Seq<char>) -> Seq<char>
    decreases parts.len(),
{
    if parts.len() == 0 {
        Seq::empty()
    } else if parts.len() == 1 {
        parts[0]
    } else {
        joined(parts.drop_last(), sep) + sep + parts.last()
    }
}

/// Source of the regex that matches a line holding any of the marker terms
/// between word boundaries, in any letter case.
pub open spec fn task_pattern(names: Seq<Seq<char>>) -> Seq<char> {
    TASK_PATTERN_PREFIX@ + joined(names, "|"@) + TASK_PATTERN_SUFFIX@
}

/// Source of the regex that matches a path with an element (or run of
/// elements) matching any of the given names.
pub open spec fn skip_path_pattern(paths: Seq<Seq<char>>) -> Seq<char> {
    SKIP_PATH_PATTERN_PREFIX@ + joined(paths, "|"@) + SKIP_PATH_PATTERN_SUFFIX@
}

/// The built-in marker terms.
pub open spec fn default_task_names_spec() -> Seq<Seq<char>> {
    seq![
        "band aid"@, "band-aid"@, "bandaid"@, "bodge"@, "cludge"@,
        "duct tape"@, "duct-tape"@, "ducttape"@, "duck tape"@, "duck-tape"@,
        "ducktape"@, "hack"@, "kludge"@, "fixme"@, "jury rig"@,
        "jury-rig"@, "juryrig"@, "macgyver"@, "makeshift"@, "rube goldberg"@,
        "rube-goldberg"@, "rube goldberg"@, "stop-gap"@, "stop gap"@, "stopgap"@,
        "temporary solution"@, "to-do"@, "todo"@, "waiting on"@, "workaround"@,
    ]
}

/// The built-in excluded path names: the configuration file, version control
/// metadata, translations, and third-party or build output directories.
pub open spec fn default_skip_paths_spec() -> Seq<Seq<char>> {
    seq![
        CONFIGURATION_FILENAME@, ".git"@, "i18n"@, "l10n"@, "node_modules"@, "target"@,
        "vendor"@,
    ]
}

/// Joins `parts` with `sep` between each two neighbours.
pub fn join(parts: &[String], sep: &str) -> (r: String)
    ensures
        r@ == joined(views(parts@), sep@),
{
    let mut out = String::new();
    let mut i: usize = 0;
    while i < parts.len()
        invariant
            0 <= i <= parts@.len(),
            out@ == joined(views(parts@.take(i as int)), sep@),
        decreases parts@.len() - i,
    {
        let ghost before = views(parts@.take(i as int));
        let ghost after = views(parts@.take(i + 1));
        assert(after.drop_last() =~= before);
        assert(after.last() == parts@[i as int]@);
        if i > 0 {
            out.append(sep);
        } else {
            assert(after =~= seq![parts@[0]@]);
        }
        out.append(parts[i].as_str());
        i += 1;
    }
    assert(parts@.take(parts@.len() as int) =~= parts@);
    out
}

/// The built-in marker terms, in the order of `default_task_names_spec`.
pub fn default_task_names() -> (r: Vec<String>)
    ensures
        views(r@) == default_task_names_spec(),
{
    let mut v: Vec<String> = Vec::new();
    v.push("band aid".to_owned());
    v.push("band-aid".to_owned());
    v.push("bandaid".to_owned());
    v.push("bodge".to_owned());
    v.push("cludge".to_owned());
    v.push("duct tape".to_owned());
    v.push("duct-tape".to_owned());
    v.push("ducttape".to_owned());
    v.push("duck tape".to_owned());
    v.push("duck-tape".to_owned());
    v.push("ducktape".to_owned());
    v.push("hack".to_owned());
    v.push("kludge".to_owned());
    v.push("fixme".to_owned());
    v.push("jury rig".to_owned());
    v.push("jury-rig".to_owned());
    v.push("juryrig".to_owned());
    v.push("macgyver".to_owned());
    v.push("makeshift".to_owned());
    v.push("rube goldberg".to_owned());
    v.push("rube-goldberg".to_owned());
    v.push("rube goldberg".to_owned());
    v.push("stop-gap".to_owned());
    v.push("stop gap".to_owned());
    v.push("stopgap".to_owned());
    v.push("temporary solution".to_owned());
    v.push("to-do".to_owned());
    v.push("todo".to_owned());
    v.push("waiting on".to_owned());
    v.push("workaround".to_owned());
    assert(views(v@) =~= default_task_names_spec());
    v
}

/// The built-in excluded path names, in the order of `default_skip_paths_spec`.
pub fn default_skip_paths() -> (r: Vec<String>)
    ensures
        views(r@) == default_skip_paths_spec(),
{
    let mut v: Vec<String> = Vec::new();
    v.push(CONFIGURATION_FILENAME.to_owned());
    v.push(".git".to_owned());
    v.push("i18n".to_owned());
    v.push("l10n".to_owned());
    v.push("node_modules".to_owned());
    v.push("target".to_owned());
    v.push("vendor".to_owned());
    assert(views(v@) =~= default_skip_paths_spec());
    v
}

/// Builds the regex that matches paths that are, or lie under, any of `file_paths`.
pub fn generate_skip_path_pattern(file_paths: &[String]) -> (r: Result<Pattern, regex::Error>)
    ensures
        r is Ok <==> regex_compiles(skip_path_pattern(views(file_paths@))),
        r matches Ok(p) ==> p@ == skip_path_pattern(views(file_paths@)),
{
    let mut source = SKIP_PATH_PATTERN_PREFIX.to_owned();
    let alternatives = join(file_paths, "|");
    source.append(alternatives.as_str());
    source.append(SKIP_PATH_PATTERN_SUFFIX);
    Pattern::new(source.as_str())
}

/// Builds the regex that matches lines holding any of `task_names` as a word.
pub fn generate_task_pattern(task_names: &[String]) -> (r: Result<Pattern, regex::Error>)
    ensures
        r is Ok <==> regex_compiles(task_pattern(views(task_names@))),
        r matches Ok(p) ==> p@ == task_pattern(views(task_names@)),
{
    let mut source = TASK_PATTERN_PREFIX.to_owned();
    let alternatives = join(task_names, "|");
    source.append(alternatives.as_str());
    source.append(TASK_PATTERN_SUFFIX);
    Pattern::new(source.as_str())
}

} // verus!
