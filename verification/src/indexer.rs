//! The rules of indexing: which paths are skipped, what an index entry
//! holds, which file contents are read, and what a file-system change
//! does to the index.

use crate::config::IndexerConfig;
use crate::search::{copy_option_string, text_or_empty};
use crate::text::{chars_of, contains_seq, contains_str, lowercase, owned, push_char, str_eq, to_lowercase};
use vstd::prelude::*;

verus! {

/// A file or directory as the index records it.
#[derive(Debug, Clone)]
pub struct FileEntry {
    pub path: String,
    pub name: String,
    pub extension: Option<String>,
    pub size: u64,
    pub modified: i64,
    pub is_directory: bool,
    /// Text of the file, for full-text search.
    pub content: Option<String>,
}

/// What the file system tells about a path.
pub struct FileMetadata {
    /// The last component of the path, if it has one.
    pub file_name: Option<String>,
    /// The extension of the last component, if it has one.
    pub extension: Option<String>,
    pub size: u64,
    pub is_directory: bool,
    /// Seconds from the Unix epoch to the last modification, if the file
    /// system knows the time and it is not before the epoch.
    pub modified_secs: Option<u64>,
}

/// Some exclusion pattern occurs in `path`.
pub open spec fn excluded(path: Seq<char>, patterns: Seq<String>) -> bool {
    exists|i: int| 0 <= i < patterns.len() && contains_seq(path, #[trigger] patterns[i]@)
}

/// Whether `path` must be skipped: it contains one of the `patterns`.
pub fn should_exclude(path: &str, patterns: &Vec<String>) -> (r: bool)
    ensures
        r == excluded(path@, patterns@),
{
    let mut i: usize = 0;
    while i < patterns.len()
        invariant
            i <= patterns.len(),
            forall|j: int| 0 <= j < i ==> !contains_seq(path@, #[trigger] patterns@[j]@),
        decreases patterns.len() - i,
    {
        if contains_str(path, patterns[i].as_str()) {
            return true;
        }
        i = i + 1;
    }
    false
}

/// The entry for `path`, without content: none when the path has no final
/// component or no usable modification time; directories have no extension.
pub open spec fn entry_for(path: Seq<char>, meta: FileMetadata) -> Option<(Seq<char>, Option<Seq<char>>, u64, i64, bool)> {
    match (meta.file_name, meta.modified_secs) {
        (Some(name), Some(secs)) => Some((
            name@,
            if meta.is_directory { None } else { crate::search::option_string_view(meta.extension) },
            meta.size,
            secs as i64,
            meta.is_directory,
        )),
        _ => None,
    }
}

pub open spec fn entry_fields(e: FileEntry) -> (Seq<char>, Option<Seq<char>>, u64, i64, bool) {
    (e.name@, crate::search::option_string_view(e.extension), e.size, e.modified, e.is_directory)
}

impl FileEntry {
    /// The entry for `path` from its metadata, with no content yet; `None`
    /// when the path has no file name or no usable modification time.
    pub fn from_metadata(path: &str, meta: &FileMetadata) -> (r: Option<FileEntry>)
        ensures
            match (r, entry_for(path@, *meta)) {
                (Some(e), Some(f)) => e.path@ == path@ && entry_fields(e) == f && e.content is None,
                (None, None) => true,
                _ => false,
            },
    {
        let name = match &meta.file_name {
            Some(n) => n.clone(),
            None => return None,
        };
        let secs = match meta.modified_secs {
            Some(s) => s,
            None => return None,
        };
        let extension = if meta.is_directory { None } else { copy_option_string(&meta.extension) };
        proof {
            assert(crate::search::option_string_view(extension) == (if meta.is_directory { None } else { crate::search::option_string_view(meta.extension) }));
        }
        Some(FileEntry {
            path: owned(path),
            name,
            extension,
            size: meta.size,
            modified: secs as i64,
            is_directory: meta.is_directory,
            content: None,
        })
    }
}

/// An entry is made exactly when the path has a file name and a usable
/// modification time; it carries the name, size, time and kind from the
/// metadata, and an extension only for a file, never for a folder.
pub proof fn entries_follow_the_metadata(path: Seq<char>, meta: FileMetadata)
    ensures
        (entry_for(path, meta) is Some) <==> (meta.file_name is Some && meta.modified_secs is Some),
        entry_for(path, meta) matches Some(t) ==> {
            &&& t.0 == meta.file_name->0@
            &&& t.2 == meta.size
            &&& t.3 == meta.modified_secs->0 as i64
            &&& t.4 == meta.is_directory
            &&& (meta.is_directory ==> t.1 is None)
            &&& (!meta.is_directory ==> t.1 == crate::search::option_string_view(meta.extension))
        },
{
}

/// Bytes in a MiB.
pub const MIB: u64 = 1048576;

/// Only files smaller than this (1 MB) are read for their content.
pub const MAX_CONTENT_SIZE: u64 = 1048576;

/// At most this many characters of a file's content are kept.
pub const MAX_CONTENT_CHARS: usize = 10000;

/// An entry passes the size limit: directories always, files up to
/// `max_file_size_mb` MiB.
pub open spec fn within_size_limit(e: FileEntry, max_file_size_mb: u64) -> bool {
    e.is_directory || e.size <= max_file_size_mb * MIB
}

/// Whether the scan indexes `entry` under `config`'s size limit.
pub fn is_within_size_limit(entry: &FileEntry, config: &IndexerConfig) -> (r: bool)
    requires
        config.max_file_size_mb <= u64::MAX / MIB,
    ensures
        r == within_size_limit(*entry, config.max_file_size_mb),
{
    entry.is_directory || entry.size <= config.max_file_size_mb * MIB
}

/// Where the text of a file comes from.
#[derive(Debug)]
pub enum ContentSource {
    /// Its text is not indexed.
    Skip,
    /// Read the file as UTF-8 text.
    Text,
}

/// Extensions whose files are read as text.
pub open spec fn text_extensions() -> Seq<Seq<char>> {
    seq![
        "txt"@, "md"@, "rs"@, "toml"@, "json"@, "xml"@, "yaml"@, "yml"@,
        "js"@, "ts"@, "py"@, "go"@, "c"@, "cpp"@, "h"@, "hpp"@,
        "java"@, "cs"@, "rb"@, "php"@, "html"@, "css"@, "scss"@,
        "sh"@, "bash"@, "ps1"@, "bat"@, "cmd"@, "log"@, "ini"@, "cfg"@,
        "csv"@, "sql"@, "vue"@, "jsx"@, "tsx"@, "swift"@, "kt"@, "dart"@
    ]
}

/// The content source of a file: the text for a file under 1 MB with a
/// known text extension (compared lowercased); nothing for directories,
/// bigger files, files without extension and any other extension (PDF
/// documents are found by name only).
pub open spec fn source_of(extension: Option<Seq<char>>, size: u64, is_directory: bool) -> ContentSource {
    if is_directory || size >= MAX_CONTENT_SIZE {
        ContentSource::Skip
    } else {
        match extension {
            None => ContentSource::Skip,
            Some(ext) => {
                let lower = lowercase(ext);
                if text_extensions().contains(lower) {
                    ContentSource::Text
                } else {
                    ContentSource::Skip
                }
            },
        }
    }
}

fn is_text_extension(ext: &str) -> (r: bool)
    ensures
        r == text_extensions().contains(ext@),
{
    let known: [&str; 39] = [
        "txt", "md", "rs", "toml", "json", "xml", "yaml", "yml",
        "js", "ts", "py", "go", "c", "cpp", "h", "hpp",
        "java", "cs", "rb", "php", "html", "css", "scss",
        "sh", "bash", "ps1", "bat", "cmd", "log", "ini", "cfg",
        "csv", "sql", "vue", "jsx", "tsx", "swift", "kt", "dart",
    ];
    let ghost views = known@.map_values(|s: &str| s@);
    assert(views =~= text_extensions());
    let mut i: usize = 0;
    while i < 39
        invariant
            i <= 39,
            views == known@.map_values(|s: &str| s@),
            views == text_extensions(),
            forall|j: int| 0 <= j < i ==> views[j] != ext@,
        decreases 39 - i,
    {
        if str_eq(known[i], ext) {
            assert(views[i as int] == ext@);
            return true;
        }
        i = i + 1;
    }
    false
}

/// Where the content of `entry` comes from.
pub fn content_source(entry: &FileEntry) -> (r: ContentSource)
    ensures
        r == source_of(crate::search::option_string_view(entry.extension), entry.size, entry.is_directory),
{
    if entry.is_directory || entry.size >= MAX_CONTENT_SIZE {
        return ContentSource::Skip;
    }
    match &entry.extension {
        None => ContentSource::Skip,
        Some(ext) => {
            let lower = to_lowercase(ext.as_str());
            if is_text_extension(lower.as_str()) {
                ContentSource::Text
            } else {
                ContentSource::Skip
            }
        },
    }
}

/// Text kept for the index: its first 10 000 characters.
pub open spec fn trimmed(text: Seq<char>) -> Seq<char> {
    if text.len() > MAX_CONTENT_CHARS {
        text.take(MAX_CONTENT_CHARS as int)
    } else {
        text
    }
}

/// Cuts `text` as `trimmed` says.
pub fn trim_content(text: String) -> (r: String)
    ensures
        r@ == trimmed(text@),
{
    let chars = chars_of(text.as_str());
    if chars.len() <= MAX_CONTENT_CHARS {
        return text;
    }
    let mut r = String::new();
    let mut i: usize = 0;
    while i < MAX_CONTENT_CHARS
        invariant
            i <= MAX_CONTENT_CHARS,
            MAX_CONTENT_CHARS < chars.len(),
            r@ == chars@.take(i as int),
        decreases MAX_CONTENT_CHARS - i,
    {
        push_char(&mut r, chars[i]);
        i = i + 1;
        assert(r@ =~= chars@.take(i as int));
    }
    r
}

impl FileEntry {
    /// `self` with the text read for it, trimmed; `None` when nothing could be read.
    pub fn with_content(self, text: Option<String>) -> (r: FileEntry)
        ensures
            r.path == self.path,
            r.name == self.name,
            r.extension == self.extension,
            r.size == self.size,
            r.modified == self.modified,
            r.is_directory == self.is_directory,
            match text {
                Some(t) => r.content matches Some(c) && c@ == trimmed(t@),
                None => r.content is None,
            },
    {
        let content = match text {
            Some(t) => Some(trim_content(t)),
            None => None,
        };
        FileEntry { content, ..self }
    }
}

/// The fields of one index document.
pub struct IndexDocument {
    pub path: String,
    pub name: String,
    /// Present only when the entry has an extension.
    pub extension: Option<String>,
    pub size: u64,
    pub modified: i64,
    pub is_directory: bool,
    /// Empty when the entry has no content.
    pub content: String,
}

impl IndexDocument {
    /// The document recording `entry`.
    pub fn from_entry(entry: FileEntry) -> (r: IndexDocument)
        ensures
            r.path == entry.path,
            r.name == entry.name,
            r.extension == entry.extension,
            r.size == entry.size,
            r.modified == entry.modified,
            r.is_directory == entry.is_directory,
            r.content@ == text_or_empty(entry.content),
    {
        let content = match entry.content {
            Some(c) => c,
            None => String::new(),
        };
        IndexDocument {
            path: entry.path,
            name: entry.name,
            extension: entry.extension,
            size: entry.size,
            modified: entry.modified,
            is_directory: entry.is_directory,
            content,
        }
    }
}

/// The kinds of file-system change the watcher reacts to.
#[derive(Debug)]
pub enum WatchEventKind {
    Create,
    Modify,
    Remove,
    /// Any other change (access, metadata only, ...): ignored.
    Other,
}

/// One step of applying a file-system change to the index.
#[derive(Debug)]
pub enum WatchStep {
    /// Read the path's metadata and (re)index it.
    Index(String),
    /// Remove the path's documents from the index.
    Remove(String),
    /// Commit the index.
    Commit,
}

pub open spec fn step_view(s: WatchStep) -> (int, Seq<char>) {
    match s {
        WatchStep::Index(p) => (0, p@),
        WatchStep::Remove(p) => (1, p@),
        WatchStep::Commit => (2, Seq::empty()),
    }
}

pub open spec fn index_steps(paths: Seq<String>, exclude: Seq<String>) -> Seq<(int, Seq<char>)>
    decreases paths.len(),
{
    if paths.len() == 0 {
        Seq::empty()
    } else {
        let earlier = index_steps(paths.drop_last(), exclude);
        if excluded(paths.last()@, exclude) {
            earlier
        } else {
            earlier.push((0, paths.last()@))
        }
    }
}

pub open spec fn remove_steps(paths: Seq<String>) -> Seq<(int, Seq<char>)> {
    paths.map_values(|p: String| (1int, p@))
}

/// The steps a change takes: created or modified paths that no exclusion
/// pattern matches are indexed, then the index is committed; removed paths
/// are all removed, then the index is committed; other changes do nothing.
pub open spec fn watch_plan(kind: WatchEventKind, paths: Seq<String>, exclude: Seq<String>) -> Seq<(int, Seq<char>)> {
    match kind {
        WatchEventKind::Create | WatchEventKind::Modify => index_steps(paths, exclude).push((2, Seq::empty())),
        WatchEventKind::Remove => remove_steps(paths).push((2, Seq::empty())),
        WatchEventKind::Other => Seq::empty(),
    }
}

/// The steps that apply a change of `kind` to `paths`.
pub fn plan_watch_event(kind: WatchEventKind, paths: &Vec<String>, exclude: &Vec<String>) -> (r: Vec<WatchStep>)
    ensures
        r@.map_values(|s: WatchStep| step_view(s)) == watch_plan(kind, paths@, exclude@),
{
    let mut steps: Vec<WatchStep> = Vec::new();
    match kind {
        WatchEventKind::Create | WatchEventKind::Modify => {
            let mut i: usize = 0;
            while i < paths.len()
                invariant
                    i <= paths.len(),
                    steps@.map_values(|s: WatchStep| step_view(s)) == index_steps(paths@.take(i as int), exclude@),
                decreases paths.len() - i,
            {
                let skip = should_exclude(paths[i].as_str(), exclude);
                proof {
                    assert(paths@.take(i + 1).drop_last() =~= paths@.take(i as int));
                }
                if !skip {
                    steps.push(WatchStep::Index(paths[i].clone()));
                    assert(steps@.map_values(|s: WatchStep| step_view(s)) =~= index_steps(paths@.take(i + 1), exclude@));
                }
                i = i + 1;
            }
            assert(paths@.take(paths.len() as int) =~= paths@);
            steps.push(WatchStep::Commit);
            assert(steps@.map_values(|s: WatchStep| step_view(s)) =~= watch_plan(kind, paths@, exclude@));
        },
        WatchEventKind::Remove => {
            let mut i: usize = 0;
            while i < paths.len()
                invariant
                    i <= paths.len(),
                    steps@.map_values(|s: WatchStep| step_view(s)) == remove_steps(paths@.take(i as int)),
                decreases paths.len() - i,
            {
                let ghost before = steps@;
                let p = paths[i].clone();
                steps.push(WatchStep::Remove(p));
                proof {
                    assert(paths@.take(i + 1) =~= paths@.take(i as int).push(paths@[i as int]));
                    assert(remove_steps(paths@.take(i + 1)) =~= remove_steps(paths@.take(i as int)).push((1int, paths@[i as int]@)));
                    assert(steps@ =~= before.push(WatchStep::Remove(p)));
                }
                i = i + 1;
                assert(steps@.map_values(|s: WatchStep| step_view(s)) =~= remove_steps(paths@.take(i as int)));
            }
            assert(paths@.take(paths.len() as int) =~= paths@);
            steps.push(WatchStep::Commit);
            assert(steps@.map_values(|s: WatchStep| step_view(s)) =~= watch_plan(kind, paths@, exclude@));
        },
        WatchEventKind::Other => {
            assert(steps@.map_values(|s: WatchStep| step_view(s)) =~= watch_plan(kind, paths@, exclude@));
        },
    }
    steps
}

/// What the launcher does with the index at start-up.
#[derive(Debug)]
pub enum StartupPlan {
    /// The index already holds documents: only watch for changes.
    WatchOnly,
    /// The index is empty: scan the configured folders, then watch.
    ScanThenWatch,
}

/// An index with documents is only watched; an empty one is scanned first.
pub fn startup_plan(num_documents: u64) -> (r: StartupPlan)
    ensures
        (r is WatchOnly) <==> num_documents > 0,
{
    if num_documents > 0 { StartupPlan::WatchOnly } else { StartupPlan::ScanThenWatch }
}

/// A path is excluded exactly when one of the patterns occurs in it,
/// anywhere, its very end included: in particular every pattern excludes a
/// path that ends with it, and the pattern itself.
pub proof fn exclusion_is_containing_a_pattern(path: Seq<char>, patterns: Seq<String>)
    ensures
        excluded(path, patterns) <==> exists|i: int, k: int|
            0 <= i < patterns.len() && 0 <= k && k + patterns[i]@.len() <= path.len()
            && #[trigger] path.subrange(k, k + patterns[i]@.len()) == #[trigger] patterns[i]@,
        forall|i: int, front: Seq<char>| 0 <= i < patterns.len() ==> #[trigger] excluded(front + patterns[i]@, patterns),
        forall|i: int| 0 <= i < patterns.len() ==> #[trigger] excluded(patterns[i]@, patterns),
{
    if excluded(path, patterns) {
        let i = choose|i: int| 0 <= i < patterns.len() && contains_seq(path, #[trigger] patterns[i]@);
        let k = choose|k: int| crate::text::occurs_at(path, patterns[i]@, k);
        assert(path.subrange(k, k + patterns[i]@.len()) == patterns[i]@);
    }
    if exists|i: int, k: int|
        0 <= i < patterns.len() && 0 <= k && k + patterns[i]@.len() <= path.len()
        && #[trigger] path.subrange(k, k + patterns[i]@.len()) == #[trigger] patterns[i]@
    {
        let (i, k) = choose|i: int, k: int|
            0 <= i < patterns.len() && 0 <= k && k + patterns[i]@.len() <= path.len()
            && #[trigger] path.subrange(k, k + patterns[i]@.len()) == #[trigger] patterns[i]@;
        assert(crate::text::occurs_at(path, patterns[i]@, k));
        assert(contains_seq(path, patterns[i]@));
    }
    assert forall|i: int, front: Seq<char>| 0 <= i < patterns.len() implies #[trigger] excluded(front + patterns[i]@, patterns) by {
        let p = patterns[i]@;
        let whole = front + p;
        assert(whole.subrange(front.len() as int, (front.len() + p.len()) as int) =~= p);
        assert(crate::text::occurs_at(whole, p, front.len() as int));
        assert(contains_seq(whole, patterns[i]@));
    }
    assert forall|i: int| 0 <= i < patterns.len() implies #[trigger] excluded(patterns[i]@, patterns) by {
        let p = patterns[i]@;
        assert(p.subrange(0, p.len() as int) =~= p);
        assert(crate::text::occurs_at(p, p, 0));
        assert(contains_seq(p, patterns[i]@));
    }
}

/// A path below an excluded path is excluded too: the scan may skip a whole
/// excluded folder without looking inside.
pub proof fn excluded_paths_stay_excluded(path: Seq<char>, below: Seq<char>, patterns: Seq<String>)
    requires
        excluded(path, patterns),
    ensures
        excluded(path + below, patterns),
{
    let i = choose|i: int| 0 <= i < patterns.len() && contains_seq(path, #[trigger] patterns[i]@);
    let pat = patterns[i]@;
    let k = choose|k: int| crate::text::occurs_at(path, pat, k);
    assert((path + below).subrange(k, k + pat.len()) =~= path.subrange(k, k + pat.len()));
    assert(crate::text::occurs_at(path + below, pat, k));
}

proof fn lemma_index_steps_not_excluded(paths: Seq<String>, exclude: Seq<String>)
    ensures
        forall|j: int| 0 <= j < index_steps(paths, exclude).len() ==> {
            let s = #[trigger] index_steps(paths, exclude)[j];
            s.0 == 0 && !excluded(s.1, exclude)
        },
    decreases paths.len(),
{
    if paths.len() > 0 {
        let earlier = index_steps(paths.drop_last(), exclude);
        let all = index_steps(paths, exclude);
        lemma_index_steps_not_excluded(paths.drop_last(), exclude);
        assert forall|j: int| 0 <= j < all.len() implies {
            let s = #[trigger] all[j];
            s.0 == 0 && !excluded(s.1, exclude)
        } by {
            if j < earlier.len() {
                assert(all[j] == earlier[j]);
            }
        }
    }
}

/// The watcher never indexes a path an exclusion pattern matches, and every
/// change it acts on ends with a commit.
pub proof fn watcher_respects_exclusions(kind: WatchEventKind, paths: Seq<String>, exclude: Seq<String>)
    ensures
        forall|j: int| 0 <= j < watch_plan(kind, paths, exclude).len() && (#[trigger] watch_plan(kind, paths, exclude)[j]).0 == 0
            ==> !excluded(watch_plan(kind, paths, exclude)[j].1, exclude),
        !(kind is Other) ==> watch_plan(kind, paths, exclude).last() == (2int, Seq::<char>::empty()),
{
    lemma_index_steps_not_excluded(paths, exclude);
}

/// Every removed path is removed from the index, in order, then the index
/// is committed.
pub proof fn removals_reach_the_index(paths: Seq<String>, exclude: Seq<String>)
    ensures
        watch_plan(WatchEventKind::Remove, paths, exclude).len() == paths.len() + 1,
        forall|j: int| 0 <= j < paths.len() ==> #[trigger] watch_plan(WatchEventKind::Remove, paths, exclude)[j] == (1int, paths[j]@),
{
}

/// The scan keeps folders whatever their size, and files of at most
/// `max_file_size_mb` MiB of 1 048 576 bytes.
pub proof fn size_limit_is_in_mebibytes(e: FileEntry, max_file_size_mb: u64)
    ensures
        within_size_limit(e, max_file_size_mb) <==> (e.is_directory || e.size <= max_file_size_mb * 1048576),
{
}

/// Whose content is read: a file (not a folder) smaller than 1 MB (1 048 576
/// bytes) whose lowercased extension is one of the text extensions listed
/// here; nothing else, PDF documents included, and no file without
/// extension.
pub proof fn text_files_under_a_megabyte_are_read(ext: Seq<char>, size: u64, is_directory: bool)
    ensures
        (source_of(Some(ext), size, is_directory) is Text) <==> (
            !is_directory && size < 1048576 && seq![
                "txt"@, "md"@, "rs"@, "toml"@, "json"@, "xml"@, "yaml"@, "yml"@, "js"@, "ts"@, "py"@, "go"@, "c"@, "cpp"@, "h"@, "hpp"@, "java"@, "cs"@, "rb"@, "php"@, "html"@, "css"@, "scss"@, "sh"@, "bash"@, "ps1"@, "bat"@, "cmd"@, "log"@, "ini"@, "cfg"@, "csv"@, "sql"@, "vue"@, "jsx"@, "tsx"@, "swift"@, "kt"@, "dart"@
            ].contains(lowercase(ext))),
        source_of(None, size, is_directory) is Skip,
        (source_of(Some(ext), size, is_directory) is Skip) <==> !(source_of(Some(ext), size, is_directory) is Text),
{
    assert(text_extensions() =~= seq![
        "txt"@, "md"@, "rs"@, "toml"@, "json"@, "xml"@, "yaml"@, "yml"@, "js"@, "ts"@, "py"@, "go"@, "c"@, "cpp"@, "h"@, "hpp"@, "java"@, "cs"@, "rb"@, "php"@, "html"@, "css"@, "scss"@, "sh"@, "bash"@, "ps1"@, "bat"@, "cmd"@, "log"@, "ini"@, "cfg"@, "csv"@, "sql"@, "vue"@, "jsx"@, "tsx"@, "swift"@, "kt"@, "dart"@
    ]);
}

/// The content kept for a file is its first 10 000 characters: all of it
/// when it is shorter.
pub proof fn content_keeps_the_first_ten_thousand_characters(text: Seq<char>)
    ensures
        trimmed(text).len() == (if text.len() > 10000 { 10000 } else { text.len() as int }),
        trimmed(text) == text.take(trimmed(text).len() as int),
{
    assert(text.take(text.len() as int) =~= text);
}

/// Trimming keeps at most 10 000 characters, keeps a prefix of the text,
/// and trimming again changes nothing.
pub proof fn trimming_is_a_bounded_idempotent_prefix(text: Seq<char>)
    ensures
        trimmed(text).len() <= MAX_CONTENT_CHARS,
        trimmed(text) == text.take(trimmed(text).len() as int),
        trimmed(trimmed(text)) == trimmed(text),
{
    assert(text.take(text.len() as int) =~= text);
}

} // verus!
