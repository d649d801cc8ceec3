//! Which changed paths count: the ignore filter and its built-in globs.

use crate::text::push_char;
use vstd::prelude::*;
use vstd::string::*;
use watchexec_filterer_globset::GlobsetFilterer;

verus! {

/// Declares `watchexec_filterer_globset::GlobsetFilterer`, the compiled rule
/// set, to the verifier. Nothing inside it is visible to proofs.
#[verifier::external_type_specification]
#[verifier::external_body]
pub struct ExGlobsetFilterer(GlobsetFilterer);

/// The paths that a compiled rule set rejects when each is reported alone,
/// as a path of unknown file type.
pub uninterp spec fn excluded_paths(rules: GlobsetFilterer) -> Set<Seq<char>>;

/// Asks the rule set about one path.
///
/// Trusted: builds an event that carries `path` alone, with no file type,
/// and calls `GlobsetFilterer::check_event` on it. That function reads only
/// the rules compiled into the filterer and the event, touches neither disk
/// nor environment, and is documented never to fail; the contract claims no
/// more than that its answer is settled by the rules and the path.
#[verifier::external_body]
fn passes(rules: &GlobsetFilterer, path: &str) -> (pass: bool)
    ensures
        pass == !excluded_paths(*rules).contains(path@),
{
    let tag = watchexec_events::Tag::Path { path: std::path::PathBuf::from(path), file_type: None };
    let event = watchexec_events::Event { tags: vec![tag], metadata: Default::default() };
    let normal = watchexec_events::Priority::Normal;
    watchexec::filter::Filterer::check_event(rules, &event, normal).unwrap_or(true)
}

/// What the filter says of a path.
#[derive(Debug, Clone, Copy, PartialEq, Eq, Structural)]
pub enum FilterDecision {
    /// A change of the path asks for a rebuild.
    Include,
    /// A change of the path is of no interest.
    Exclude,
}

/// The decision for `path` under rules that reject exactly `excluded`.
pub open spec fn decision_of(excluded: Set<Seq<char>>, path: Seq<char>) -> FilterDecision {
    if excluded.contains(path) {
        FilterDecision::Exclude
    } else {
        FilterDecision::Include
    }
}

/// The ignore filter: one rule set, compiled once from the built-in globs,
/// the project's ignore files and those of the environment.
pub struct IgnoreFilter {
    rules: GlobsetFilterer,
}

impl IgnoreFilter {
    /// The paths that this filter excludes.
    pub closed spec fn excluded(&self) -> Set<Seq<char>> {
        excluded_paths(self.rules)
    }

    /// Wraps a compiled rule set.
    pub fn new(rules: GlobsetFilterer) -> (filter: IgnoreFilter)
        ensures
            filter.excluded() == excluded_paths(rules),
    {
        IgnoreFilter { rules }
    }

    /// Decides whether a change of `path` counts.
    ///
    /// The answer depends on the rule set and the path alone: asking twice
    /// gives the same decision, and asking changes nothing.
    pub fn decide(&self, path: &str) -> (decision: FilterDecision)
        ensures
            decision == decision_of(self.excluded(), path@),
    {
        if passes(&self.rules, path) {
            FilterDecision::Include
        } else {
            FilterDecision::Exclude
        }
    }
}

/// The glob `**<sep><name>`: `name` at any depth below the root, the root's
/// own entries included.
pub open spec fn entry_glob(sep: char, name: Seq<char>) -> Seq<char> {
    "**"@.push(sep) + name
}

/// The glob `**<sep><name><sep>**`: everything below such a `name`.
pub open spec fn tree_glob(sep: char, name: Seq<char>) -> Seq<char> {
    entry_glob(sep, name).push(sep) + "**"@
}

/// The built-in ignore globs for a platform whose path separator is `sep`:
/// operating-system metadata, editor swap and lock files, version-control
/// directories, database files and journals, the build-output directory and
/// compiler crash reports. The globs are written as lines of an ignore file,
/// so the `#` that begins an auto-save file's name is escaped.
pub open spec fn default_ignore_globs(sep: char) -> Seq<Seq<char>> {
    seq![
        entry_glob(sep, ".DS_Store"@),
        "*.sw?"@,
        "*.sw?x"@,
        "\\#*#"@,
        ".#*"@,
        ".*.kate-swp"@,
        tree_glob(sep, ".hg"@),
        tree_glob(sep, ".git"@),
        tree_glob(sep, ".svn"@),
        "*.db"@,
        "*.db-*"@,
        tree_glob(sep, "*.db-journal"@),
        tree_glob(sep, "target"@),
        "rustc-ice-*.txt"@,
    ]
}

fn make_entry_glob(sep: char, name: &str) -> (glob: String)
    ensures
        glob@ == entry_glob(sep, name@),
{
    let mut glob = String::from_str("**");
    push_char(&mut glob, sep);
    glob.append(name);
    glob
}

fn make_tree_glob(sep: char, name: &str) -> (glob: String)
    ensures
        glob@ == tree_glob(sep, name@),
{
    let mut glob = make_entry_glob(sep, name);
    push_char(&mut glob, sep);
    glob.append("**");
    glob
}

/// Builds the list of built-in ignore globs, in the order in which they are
/// handed to the rule set.
pub fn default_ignores(sep: char) -> (globs: Vec<String>)
    ensures
        crate::job::texts(globs@) == default_ignore_globs(sep),
{
    let mut globs: Vec<String> = Vec::new();
    globs.push(make_entry_glob(sep, ".DS_Store"));
    globs.push(String::from_str("*.sw?"));
    globs.push(String::from_str("*.sw?x"));
    globs.push(String::from_str("\\#*#"));
    globs.push(String::from_str(".#*"));
    globs.push(String::from_str(".*.kate-swp"));
    globs.push(make_tree_glob(sep, ".hg"));
    globs.push(make_tree_glob(sep, ".git"));
    globs.push(make_tree_glob(sep, ".svn"));
    globs.push(String::from_str("*.db"));
    globs.push(String::from_str("*.db-*"));
    globs.push(make_tree_glob(sep, "*.db-journal"));
    globs.push(make_tree_glob(sep, "target"));
    globs.push(String::from_str("rustc-ice-*.txt"));
    assert(crate::job::texts(globs@) =~= default_ignore_globs(sep));
    globs
}

} // verus!
