//! Indexing and search settings, with their defaults.

use crate::text::owned;
use vstd::prelude::*;

verus! {

/// What to index and how.
#[derive(Debug, Clone)]
pub struct IndexerConfig {
    /// Folders to index.
    pub include_paths: Vec<String>,
    /// Path fragments to exclude: any path containing one of them is skipped.
    pub exclude_paths: Vec<String>,
    /// File extensions to index (empty: all).
    pub file_extensions: Vec<String>,
    /// Number of threads used to walk the file system.
    pub num_threads: usize,
    /// Largest file to index, in MiB.
    pub max_file_size_mb: u64,
}

/// How searches are run.
#[derive(Debug, Clone)]
pub struct SearchConfig {
    /// Number of queries whose results are cached.
    pub cache_size: u64,
    /// Lowest score a result may have to be shown.
    pub min_fuzzy_score: i64,
    /// Whether file contents are searched too.
    pub search_file_content: bool,
}

/// `num_cpus::get`: the number of CPUs available to this process; its
/// documentation promises at least one.
#[verifier::external_body]
fn available_cpus() -> (n: usize)
    ensures
        n >= 1,
{
    num_cpus::get()
}

/// `dirs::home_dir`: the user's profile folder, as text. It depends on the
/// environment; nothing is claimed of it.
#[verifier::external_body]
fn user_profile_dir() -> (r: Option<String>) {
    match dirs::home_dir() {
        Some(p) => Some(p.to_string_lossy().to_string()),
        None => None,
    }
}

/// `Path::exists` on a drive root: whether the drive is there. It depends
/// on the machine; nothing is claimed of it.
#[verifier::external_body]
fn drive_exists(root: &str) -> (r: bool) {
    std::path::Path::new(root).exists()
}

pub open spec fn string_views(v: Seq<String>) -> Seq<Seq<char>> {
    v.map_values(|s: String| s@)
}

impl IndexerConfig {
    /// The folders indexed by default: the user's profile (`C:\Users` when
    /// it is unknown), `C:\Program Files`, and the roots of the secondary
    /// drives `D:`, `E:`, `F:` that exist.
    pub open spec fn default_include_paths(profile: Option<Seq<char>>, d: bool, e: bool, f: bool) -> Seq<Seq<char>> {
        let home = match profile {
            Some(p) => p,
            None => "C:\\Users"@,
        };
        let base = seq![home, "C:\\Program Files"@];
        let with_d = if d { base.push("D:\\"@) } else { base };
        let with_e = if e { with_d.push("E:\\"@) } else { with_d };
        if f { with_e.push("F:\\"@) } else { with_e }
    }

    /// The default path fragments to exclude.
    pub open spec fn default_exclude_paths() -> Seq<Seq<char>> {
        seq!["C:\\Windows"@, "node_modules"@, ".git"@, "target"@, "$RECYCLE.BIN"@, "AppData\\Local\\Temp"@]
    }

    /// The default settings on a machine whose user profile is
    /// `user_profile` and on which drives `D:`, `E:`, `F:` exist as given:
    /// the default folders, skipping the Windows folder, build and
    /// version-control folders, the recycle bin and temporary files; every
    /// extension; `num_threads` threads; files up to 100 MiB.
    pub fn for_machine(user_profile: Option<String>, has_d: bool, has_e: bool, has_f: bool, num_threads: usize) -> (r: IndexerConfig)
        ensures
            string_views(r.include_paths@) == IndexerConfig::default_include_paths(
                crate::search::option_string_view(user_profile), has_d, has_e, has_f),
            string_views(r.exclude_paths@) == IndexerConfig::default_exclude_paths(),
            r.file_extensions@.len() == 0,
            r.num_threads == num_threads,
            r.max_file_size_mb == 100,
    {
        let ghost profile = crate::search::option_string_view(user_profile);
        let mut include_paths: Vec<String> = Vec::new();
        match user_profile {
            Some(p) => include_paths.push(p),
            None => include_paths.push(owned("C:\\Users")),
        }
        include_paths.push(owned("C:\\Program Files"));
        let ghost base = include_paths@;
        assert(string_views(base) =~= seq![
            (match profile { Some(p) => p, None => "C:\\Users"@ }), "C:\\Program Files"@]);
        if has_d {
            include_paths.push(owned("D:\\"));
        }
        let ghost with_d = include_paths@;
        if has_e {
            include_paths.push(owned("E:\\"));
        }
        let ghost with_e = include_paths@;
        if has_f {
            include_paths.push(owned("F:\\"));
        }
        let mut exclude_paths: Vec<String> = Vec::new();
        exclude_paths.push(owned("C:\\Windows"));
        exclude_paths.push(owned("node_modules"));
        exclude_paths.push(owned(".git"));
        exclude_paths.push(owned("target"));
        exclude_paths.push(owned("$RECYCLE.BIN"));
        exclude_paths.push(owned("AppData\\Local\\Temp"));
        let r = IndexerConfig {
            include_paths,
            exclude_paths,
            file_extensions: Vec::new(),
            num_threads,
            max_file_size_mb: 100,
        };
        let ghost home = match profile { Some(p) => p, None => "C:\\Users"@ };
        let ghost sb = seq![home, "C:\\Program Files"@];
        let ghost sd = if has_d { sb.push("D:\\"@) } else { sb };
        let ghost se = if has_e { sd.push("E:\\"@) } else { sd };
        assert(string_views(with_d) =~= sd);
        assert(string_views(with_e) =~= se);
        assert(string_views(r.include_paths@) =~= IndexerConfig::default_include_paths(profile, has_d, has_e, has_f));
        assert(string_views(r.exclude_paths@) =~= IndexerConfig::default_exclude_paths());
        r
    }
}

/// The default settings index the user's profile (or `C:\\Users`) and
/// `C:\\Program Files`, then each secondary drive that exists, in the order
/// D:, E:, F:; and they skip the Windows folder, `node_modules`, `.git`,
/// `target`, the recycle bin and the temporary folder.
pub proof fn default_folders_and_exclusions(profile: Option<Seq<char>>, d: bool, e: bool, f: bool)
    ensures
        ({
            let paths = IndexerConfig::default_include_paths(profile, d, e, f);
            let home: Seq<char> = match profile { Some(p) => p, None => "C:\\Users"@ };
            &&& paths.len() == 2 + (if d { 1int } else { 0 }) + (if e { 1int } else { 0 }) + (if f { 1int } else { 0 })
            &&& paths[0] == home
            &&& paths[1] == "C:\\Program Files"@
            &&& d ==> paths[2] == "D:\\"@
            &&& e ==> paths[if d { 3int } else { 2 }] == "E:\\"@
            &&& f ==> paths[paths.len() - 1] == "F:\\"@
        }),
        IndexerConfig::default_exclude_paths() == seq![
            "C:\\Windows"@, "node_modules"@, ".git"@, "target"@, "$RECYCLE.BIN"@, "AppData\\Local\\Temp"@
        ],
{
}

impl Default for IndexerConfig {
    /// The default settings for this machine (`for_machine` with the user's
    /// profile folder, the secondary drives that exist, and one thread per CPU).
    fn default() -> (r: IndexerConfig)
        ensures
            exists|profile: Option<Seq<char>>, d: bool, e: bool, f: bool|
                string_views(r.include_paths@) == #[trigger] IndexerConfig::default_include_paths(profile, d, e, f),
            string_views(r.exclude_paths@) == IndexerConfig::default_exclude_paths(),
            r.file_extensions@.len() == 0,
            r.num_threads >= 1,
            r.max_file_size_mb == 100,
    {
        let profile = user_profile_dir();
        let ghost pv = crate::search::option_string_view(profile);
        let d = drive_exists("D:\\");
        let e = drive_exists("E:\\");
        let f = drive_exists("F:\\");
        let r = IndexerConfig::for_machine(profile, d, e, f, available_cpus());
        assert(string_views(r.include_paths@) == IndexerConfig::default_include_paths(pv, d, e, f));
        r
    }
}

impl Default for SearchConfig {
    /// Cache 1000 queries, keep results scoring at least 50, search names only.
    fn default() -> (r: SearchConfig)
        ensures
            r.cache_size == 1000,
            r.min_fuzzy_score == 50,
            !r.search_file_content,
    {
        SearchConfig { cache_size: 1000, min_fuzzy_score: 50, search_file_content: false }
    }
}

} // verus!
