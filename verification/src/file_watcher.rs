//! Debouncer for filesystem change notifications.
//!
//! A raw notification carries an event kind and a list of affected paths.
//! Only data-modification events are considered; each path is filtered
//! against ignore patterns and a source-extension allow-list, and repeats
//! within the debounce window are suppressed.  At most one path per
//! notification is accepted.

use vstd::prelude::*;

use crate::DEBOUNCE_WINDOW_MS;
use crate::duration_map::DurationMap;
use crate::path_text::{
    contains_substring, extension_of, file_name_of, has_substring, spec_extension, spec_file_name,
    str_eq,
};

verus! {

/// Kind of a filesystem change notification, as the engine distinguishes
/// them.  Everything but a data modification is ignored.
#[derive(Clone, Copy, Debug, PartialEq, Eq, Structural)]
pub enum FileEventKind {
    DataModified,
    Created,
    Removed,
    MetadataModified,
    Other,
}

/// One filesystem change notification: a kind and the affected paths.
#[derive(Debug)]
pub struct FileEvent {
    pub kind: FileEventKind,
    pub paths: Vec<String>,
}

/// Keeps a map from path to the instant of its last accepted event, and
/// the fixed filter tables.
pub struct FileWatcher {
    last_events: DurationMap,
    debouncing_duration: u64,
    source_extensions: Vec<String>,
    ignore_patterns: Vec<String>,
}

/// The fixed allow-list of source-file extensions, dot included.
pub open spec fn spec_source_extensions() -> Seq<Seq<char>> {
    seq![
        ".rs"@, ".py"@, ".js"@, ".jsx"@, ".ts"@, ".tsx"@, ".go"@, ".cpp"@, ".h"@, ".c"@, ".lua"@,
    ]
}

/// The fixed substrings identifying build, dependency, VCS, IDE,
/// temporary, cache and log directories.
pub open spec fn spec_ignore_patterns() -> Seq<Seq<char>> {
    seq![
        "/target/"@, "/build/"@, "/dist/"@, "/out/"@, "/.next/"@,
        "/node_modules/"@, "/vendor/"@, "/.venv/"@, "/venv/"@, "/env/"@,
        "/.git/"@, "/.svn/"@, "/.hg/"@,
        "/.vscode/"@, "/.idea/"@, "/.vs/"@,
        "/tmp/"@, "/temp/"@, "/.tmp/"@,
        "/.cache/"@, "/cache/"@, "/__pycache__/"@, "/.pytest_cache/"@,
        "/logs/"@, "/.log/"@,
    ]
}

impl FileWatcher {
    /// Map from path to the instant of its last accepted event.
    pub closed spec fn last_seen(&self) -> Map<Seq<char>, u64> {
        self.last_events@
    }

    /// The debounce window in milliseconds.
    pub closed spec fn window(&self) -> u64 {
        self.debouncing_duration
    }

    pub closed spec fn patterns(&self) -> Seq<Seq<char>> {
        self.ignore_patterns@.map_values(|s: String| s@)
    }

    pub closed spec fn extensions(&self) -> Seq<Seq<char>> {
        self.source_extensions@.map_values(|s: String| s@)
    }

    pub closed spec fn wf(&self) -> bool {
        self.last_events.wf()
    }

    /// Every recorded instant lies at or before `now`; holds whenever the
    /// clock handed in is monotone.
    pub open spec fn ready_at(&self, now: u64) -> bool {
        forall|k: Seq<char>|
            #[trigger] self.last_seen().contains_key(k) ==> self.last_seen()[k] <= now
    }

    /// The path matches an ignore pattern, or its extension is not in the
    /// source allow-list.
    pub open spec fn spec_ignored(&self, p: Seq<char>) -> bool {
        (exists|i: int| 0 <= i < self.patterns().len() && has_substring(p, #[trigger] self.patterns()[i]))
            || match spec_extension(p) {
            None => true,
            Some(e) => !self.extensions().contains("."@ + e),
        }
    }

    /// The path was accepted less than one debounce window ago.
    pub open spec fn spec_debounce_hit(&self, p: Seq<char>, now: u64) -> bool {
        self.last_seen().contains_key(p) && now - self.last_seen()[p] < self.window()
    }

    pub fn new() -> (r: FileWatcher)
        ensures
            r.wf(),
            r.last_seen() == Map::<Seq<char>, u64>::empty(),
            r.window() == DEBOUNCE_WINDOW_MS,
            r.patterns() == spec_ignore_patterns(),
            r.extensions() == spec_source_extensions(),
    {
        let mut source_extensions: Vec<String> = Vec::new();
        source_extensions.push(String::from_str(".rs"));
        source_extensions.push(String::from_str(".py"));
        source_extensions.push(String::from_str(".js"));
        source_extensions.push(String::from_str(".jsx"));
        source_extensions.push(String::from_str(".ts"));
        source_extensions.push(String::from_str(".tsx"));
        source_extensions.push(String::from_str(".go"));
        source_extensions.push(String::from_str(".cpp"));
        source_extensions.push(String::from_str(".h"));
        source_extensions.push(String::from_str(".c"));
        source_extensions.push(String::from_str(".lua"));

        let mut ignore_patterns: Vec<String> = Vec::new();
        ignore_patterns.push(String::from_str("/target/"));
        ignore_patterns.push(String::from_str("/build/"));
        ignore_patterns.push(String::from_str("/dist/"));
        ignore_patterns.push(String::from_str("/out/"));
        ignore_patterns.push(String::from_str("/.next/"));
        ignore_patterns.push(String::from_str("/node_modules/"));
        ignore_patterns.push(String::from_str("/vendor/"));
        ignore_patterns.push(String::from_str("/.venv/"));
        ignore_patterns.push(String::from_str("/venv/"));
        ignore_patterns.push(String::from_str("/env/"));
        ignore_patterns.push(String::from_str("/.git/"));
        ignore_patterns.push(String::from_str("/.svn/"));
        ignore_patterns.push(String::from_str("/.hg/"));
        ignore_patterns.push(String::from_str("/.vscode/"));
        ignore_patterns.push(String::from_str("/.idea/"));
        ignore_patterns.push(String::from_str("/.vs/"));
        ignore_patterns.push(String::from_str("/tmp/"));
        ignore_patterns.push(String::from_str("/temp/"));
        ignore_patterns.push(String::from_str("/.tmp/"));
        ignore_patterns.push(String::from_str("/.cache/"));
        ignore_patterns.push(String::from_str("/cache/"));
        ignore_patterns.push(String::from_str("/__pycache__/"));
        ignore_patterns.push(String::from_str("/.pytest_cache/"));
        ignore_patterns.push(String::from_str("/logs/"));
        ignore_patterns.push(String::from_str("/.log/"));

        let r = FileWatcher {
            last_events: DurationMap::new(),
            debouncing_duration: DEBOUNCE_WINDOW_MS,
            source_extensions,
            ignore_patterns,
        };
        proof {
            assert(r.extensions() =~= spec_source_extensions());
            assert(r.patterns() =~= spec_ignore_patterns());
        }
        r
    }

    /// Check the path against the ignore patterns and the extension
    /// allow-list; a match with a pattern, or an unrecognized (or missing)
    /// extension, makes the path untrackable.
    pub fn should_ignore(&self, path: &String) -> (r: bool)
        ensures
            r == self.spec_ignored(path@),
    {
        let mut i: usize = 0;
        while i < self.ignore_patterns.len()
            invariant
                i <= self.ignore_patterns@.len(),
                forall|j: int| 0 <= j < i ==> !has_substring(path@, #[trigger] self.patterns()[j]),
            decreases self.ignore_patterns@.len() - i,
        {
            if contains_substring(path.as_str(), self.ignore_patterns[i].as_str()) {
                proof {
                    assert(has_substring(path@, self.patterns()[i as int]));
                }
                return true;
            }
            i += 1;
        }
        match extension_of(path.as_str()) {
            Some(ext) => {
                let dot_ext = String::from_str(".").concat(ext.as_str());
                let mut k: usize = 0;
                while k < self.source_extensions.len()
                    invariant
                        k <= self.source_extensions@.len(),
                        dot_ext@ == "."@ + spec_extension(path@)->Some_0,
                        spec_extension(path@) is Some,
                        forall|j: int| 0 <= j < k ==> #[trigger] self.extensions()[j] != dot_ext@,
                        forall|j: int|
                            0 <= j < self.patterns().len()
                                ==> !has_substring(path@, #[trigger] self.patterns()[j]),
                    decreases self.source_extensions@.len() - k,
                {
                    if self.source_extensions[k] == dot_ext {
                        proof {
                            assert(self.extensions()[k as int] == dot_ext@);
                        }
                        return false;
                    }
                    k += 1;
                }
                proof {
                    assert(!self.extensions().contains(dot_ext@));
                }
                true
            },
            None => true,
        }
    }

    /// Record the event instant for the path unless it falls within the
    /// debounce window of the previous accepted instant.
    pub fn should_debounce(&mut self, path: &String, now: u64) -> (r: bool)
        requires
            old(self).wf(),
            old(self).ready_at(now),
        ensures
            final(self).wf(),
            final(self).ready_at(now),
            final(self).window() == old(self).window(),
            final(self).patterns() == old(self).patterns(),
            final(self).extensions() == old(self).extensions(),
            r == old(self).spec_debounce_hit(path@, now),
            r ==> *final(self) == *old(self),
            !r ==> final(self).last_seen() == old(self).last_seen().insert(path@, now),
    {
        if let Some(last_t) = self.last_events.get(path) {
            proof {
                assert(self.last_seen().contains_key(path@));
            }
            if now - last_t < self.debouncing_duration {
                return true;
            }
        }
        self.last_events.put(path, now);
        proof {
            assert forall|k: Seq<char>| #[trigger] self.last_seen().contains_key(k)
                implies self.last_seen()[k] <= now by {
                if k != path@ {
                    assert(old(self).last_seen().contains_key(k));
                }
            }
        }
        false
    }

    /// Process one notification at instant `now`: for a data-modification
    /// event, return the first affected path that is trackable and outside
    /// its debounce window, recording its instant; all other paths and all
    /// other event kinds leave the state unchanged.
    pub fn process_event(&mut self, event: &FileEvent, now: u64) -> (r: Option<String>)
        requires
            old(self).wf(),
            old(self).ready_at(now),
        ensures
            final(self).wf(),
            final(self).ready_at(now),
            final(self).window() == old(self).window(),
            final(self).patterns() == old(self).patterns(),
            final(self).extensions() == old(self).extensions(),
            ({
                let paths = event.paths@.map_values(|s: String| s@);
                match r {
                    Some(p) => event.kind is DataModified
                        && spec_first_accepted(*old(self), paths, now) == Some(p@)
                        && final(self).last_seen() == old(self).last_seen().insert(p@, now),
                    None => *final(self) == *old(self)
                        && (event.kind is DataModified
                            ==> spec_first_accepted(*old(self), paths, now) is None),
                }
            }),
    {
        let ghost paths = event.paths@.map_values(|s: String| s@);
        proof {
            assert(paths.skip(0) =~= paths);
        }
        match event.kind {
            FileEventKind::DataModified => {
                let mut i: usize = 0;
                while i < event.paths.len()
                    invariant
                        i <= event.paths@.len(),
                        event.kind is DataModified,
                        paths == event.paths@.map_values(|s: String| s@),
                        *self == *old(self),
                        old(self).wf(),
                        old(self).ready_at(now),
                        spec_first_accepted(*old(self), paths, now)
                            == spec_first_accepted(*old(self), paths.skip(i as int), now),
                    decreases event.paths@.len() - i,
                {
                    let path = &event.paths[i];
                    proof {
                        assert(paths.skip(i as int)[0] == paths[i as int]);
                        assert(paths.skip(i as int).drop_first() =~= paths.skip(i as int + 1));
                    }
                    let ignored = self.should_ignore(path);
                    if !ignored {
                        if !self.should_debounce(path, now) {
                            return Some(path.clone());
                        }
                    }
                    i += 1;
                }
                proof {
                    assert(paths.skip(event.paths@.len() as int).len() == 0);
                }
                None
            },
            _ => None,
        }
    }
}

/// The path is neither ignored nor inside its debounce window: the
/// debouncer would accept it at instant `now`.
pub open spec fn spec_accepts(w: FileWatcher, p: Seq<char>, now: u64) -> bool {
    !w.spec_ignored(p) && !w.spec_debounce_hit(p, now)
}

/// First path of the list that the debouncer accepts at instant `now`.
pub open spec fn spec_first_accepted(w: FileWatcher, paths: Seq<Seq<char>>, now: u64) -> Option<Seq<char>>
    decreases paths.len(),
{
    if paths.len() == 0 {
        None
    } else if spec_accepts(w, paths[0], now) {
        Some(paths[0])
    } else {
        spec_first_accepted(w, paths.drop_first(), now)
    }
}

/// An accepted path satisfies the acceptance predicate: it matches no
/// ignore pattern, carries a recognized source extension, and lies outside
/// its debounce window.
pub proof fn lemma_accepted_is_trackable(w: FileWatcher, paths: Seq<Seq<char>>, now: u64, p: Seq<char>)
    requires
        spec_first_accepted(w, paths, now) == Some(p),
    ensures
        spec_accepts(w, p, now),
        !w.spec_ignored(p),
        forall|i: int| 0 <= i < w.patterns().len() ==> !has_substring(p, #[trigger] w.patterns()[i]),
        spec_extension(p) is Some,
        w.extensions().contains("."@ + spec_extension(p)->Some_0),
    decreases paths.len(),
{
    if paths.len() > 0 {
        if spec_accepts(w, paths[0], now) {
            assert(paths[0] == p);
        } else {
            lemma_accepted_is_trackable(w, paths.drop_first(), now, p);
        }
    }
}

/// LAW: for all paths matching an ignore pattern, the debouncer never
/// returns them, whatever their extension.
pub proof fn lemma_ignored_pattern_never_accepted(w: FileWatcher, paths: Seq<Seq<char>>, now: u64, p: Seq<char>)
    requires
        exists|i: int| 0 <= i < w.patterns().len() && has_substring(p, #[trigger] w.patterns()[i]),
    ensures
        spec_first_accepted(w, paths, now) != Some(p),
{
    if spec_first_accepted(w, paths, now) == Some(p) {
        lemma_accepted_is_trackable(w, paths, now, p);
    }
}

/// LAW: for all paths lacking a recognized source extension, the debouncer
/// never returns them.
pub proof fn lemma_unrecognized_extension_never_accepted(w: FileWatcher, paths: Seq<Seq<char>>, now: u64, p: Seq<char>)
    requires
        match spec_extension(p) {
            None => true,
            Some(e) => !w.extensions().contains("."@ + e),
        },
    ensures
        spec_first_accepted(w, paths, now) != Some(p),
{
    if spec_first_accepted(w, paths, now) == Some(p) {
        lemma_accepted_is_trackable(w, paths, now, p);
    }
}

/// LAW: once a path is accepted at instant `t1`, any further event for it
/// strictly inside the debounce window is suppressed — exactly one
/// acceptance per window.
pub proof fn lemma_debounce_window(w0: FileWatcher, w1: FileWatcher, paths: Seq<Seq<char>>, p: Seq<char>, t1: u64, t2: u64)
    requires
        w1.last_seen() == w0.last_seen().insert(p, t1),
        w1.window() == w0.window(),
        t1 <= t2 < t1 + w0.window(),
    ensures
        w1.spec_debounce_hit(p, t2),
        spec_first_accepted(w1, paths, t2) != Some(p),
{
    assert(w1.last_seen().contains_key(p));
    assert(w1.last_seen()[p] == t1);
    if spec_first_accepted(w1, paths, t2) == Some(p) {
        lemma_accepted_is_trackable(w1, paths, t2, p);
    }
}

/// Spec-level language table, keyed by extension.
pub open spec fn spec_language_for_extension(e: Seq<char>) -> Seq<char> {
    if e == "rs"@ { "Rust"@ }
    else if e == "py"@ { "Python"@ }
    else if e == "js"@ { "JavaScript"@ }
    else if e == "ts"@ { "TypeScript"@ }
    else if e == "jsx"@ { "JavaScript React"@ }
    else if e == "tsx"@ { "TypeScript React"@ }
    else if e == "go"@ { "Go"@ }
    else if e == "cpp"@ || e == "cc"@ || e == "cxx"@ { "C++"@ }
    else if e == "c"@ { "C"@ }
    else if e == "h"@ || e == "hpp"@ { "C/C++ Header"@ }
    else if e == "java"@ { "Java"@ }
    else if e == "kt"@ { "Kotlin"@ }
    else if e == "php"@ { "PHP"@ }
    else if e == "rb"@ { "Ruby"@ }
    else if e == "swift"@ { "Swift"@ }
    else if e == "scala"@ { "Scala"@ }
    else if e == "clj"@ { "Clojure"@ }
    else if e == "hs"@ { "Haskell"@ }
    else if e == "elm"@ { "Elm"@ }
    else if e == "dart"@ { "Dart"@ }
    else if e == "lua"@ { "Lua"@ }
    else if e == "vim"@ { "Vim Script"@ }
    else if e == "sh"@ || e == "bash"@ { "Bash"@ }
    else if e == "zsh"@ { "Zsh"@ }
    else if e == "fish"@ { "Fish"@ }
    else if e == "ps1"@ { "PowerShell"@ }
    else if e == "sql"@ { "SQL"@ }
    else if e == "html"@ { "HTML"@ }
    else if e == "css"@ { "CSS"@ }
    else if e == "scss"@ { "SCSS"@ }
    else if e == "sass"@ { "Sass"@ }
    else if e == "less"@ { "Less"@ }
    else if e == "md"@ { "Markdown"@ }
    else if e == "yml"@ || e == "yaml"@ { "YAML"@ }
    else if e == "toml"@ { "TOML"@ }
    else if e == "json"@ { "JSON"@ }
    else if e == "xml"@ { "XML"@ }
    else { "Unknown"@ }
}

/// Spec-level language table for well-known extensionless file names.
pub open spec fn spec_language_for_filename(name: Seq<char>) -> Seq<char> {
    if name == "Dockerfile"@ { "Docker"@ }
    else if name == "Makefile"@ { "Makefile"@ }
    else if name == "CMakeLists.txt"@ { "CMake"@ }
    else { "Text"@ }
}

/// Language tag of a path: by extension when it has one, else by
/// well-known file name.
pub open spec fn spec_detect_language(p: Seq<char>) -> Seq<char> {
    match spec_extension(p) {
        Some(e) => spec_language_for_extension(e),
        None => spec_language_for_filename(spec_file_name(p)),
    }
}

/// Classify a path's language from its extension or well-known file name;
/// unclassifiable paths resolve to a sentinel tag, never to an error.
pub fn detect_language(path: &String) -> (r: Option<&'static str>)
    ensures
        match r {
            Some(l) => l@ == spec_detect_language(path@),
            None => false,
        },
{
    match extension_of(path.as_str()) {
        Some(ext) => {
            let e = ext.as_str();
            if str_eq(e, "rs") { Some("Rust") }
            else if str_eq(e, "py") { Some("Python") }
            else if str_eq(e, "js") { Some("JavaScript") }
            else if str_eq(e, "ts") { Some("TypeScript") }
            else if str_eq(e, "jsx") { Some("JavaScript React") }
            else if str_eq(e, "tsx") { Some("TypeScript React") }
            else if str_eq(e, "go") { Some("Go") }
            else if str_eq(e, "cpp") || str_eq(e, "cc") || str_eq(e, "cxx") { Some("C++") }
            else if str_eq(e, "c") { Some("C") }
            else if str_eq(e, "h") || str_eq(e, "hpp") { Some("C/C++ Header") }
            else if str_eq(e, "java") { Some("Java") }
            else if str_eq(e, "kt") { Some("Kotlin") }
            else if str_eq(e, "php") { Some("PHP") }
            else if str_eq(e, "rb") { Some("Ruby") }
            else if str_eq(e, "swift") { Some("Swift") }
            else if str_eq(e, "scala") { Some("Scala") }
            else if str_eq(e, "clj") { Some("Clojure") }
            else if str_eq(e, "hs") { Some("Haskell") }
            else if str_eq(e, "elm") { Some("Elm") }
            else if str_eq(e, "dart") { Some("Dart") }
            else if str_eq(e, "lua") { Some("Lua") }
            else if str_eq(e, "vim") { Some("Vim Script") }
            else if str_eq(e, "sh") || str_eq(e, "bash") { Some("Bash") }
            else if str_eq(e, "zsh") { Some("Zsh") }
            else if str_eq(e, "fish") { Some("Fish") }
            else if str_eq(e, "ps1") { Some("PowerShell") }
            else if str_eq(e, "sql") { Some("SQL") }
            else if str_eq(e, "html") { Some("HTML") }
            else if str_eq(e, "css") { Some("CSS") }
            else if str_eq(e, "scss") { Some("SCSS") }
            else if str_eq(e, "sass") { Some("Sass") }
            else if str_eq(e, "less") { Some("Less") }
            else if str_eq(e, "md") { Some("Markdown") }
            else if str_eq(e, "yml") || str_eq(e, "yaml") { Some("YAML") }
            else if str_eq(e, "toml") { Some("TOML") }
            else if str_eq(e, "json") { Some("JSON") }
            else if str_eq(e, "xml") { Some("XML") }
            else { Some("Unknown") }
        },
        None => {
            let name = file_name_of(path.as_str());
            let n = name.as_str();
            if str_eq(n, "Dockerfile") { Some("Docker") }
            else if str_eq(n, "Makefile") { Some("Makefile") }
            else if str_eq(n, "CMakeLists.txt") { Some("CMake") }
            else { Some("Text") }
        },
    }
}

} // verus!
