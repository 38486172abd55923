//! Discovery of candidate files under a path.
//!
//! The filter decides, from a file's path and size, whether a file is a
//! candidate. A directory tree is walked through `DirectoryWalk`: its owner
//! lists the directory that the walk hands out and reports the entries back;
//! the walk decides which files are kept and which directories are visited.
//! Each directory, known by its resolved identity, is visited at most once,
//! and directories reached through a symbolic link are entered only when the
//! options ask for it.
use vstd::prelude::*;
use crate::paths::{extension_of, file_extension};
use crate::text::{lower_of, to_lower};

verus! {

/// Options of a scan.
#[derive(Debug, Clone)]
pub struct ScanOptions {
    /// Whether subdirectories are scanned.
    pub recursive: bool,
    /// The extensions that a file must have; empty for any.
    pub include_extensions: Vec<String>,
    /// The extensions that exclude a file, whatever the inclusions say.
    pub exclude_extensions: Vec<String>,
    /// The largest size, in bytes, of a file that is kept.
    pub max_file_size: Option<u64>,
    /// Whether directories reached through a symbolic link are entered.
    pub follow_symlinks: bool,
}

/// The largest file size that the default options keep: 100 MiB.
pub const DEFAULT_MAX_FILE_SIZE: u64 = 104857600;

impl Default for ScanOptions {
    /// Recursive, scene and script extensions only, files up to 100 MiB,
    /// symbolic links to directories not followed.
    fn default() -> (r: Self)
        ensures
            r.recursive,
            r.include_extensions@.len() == 4,
            r.include_extensions@[0]@ == "ma"@,
            r.include_extensions@[1]@ == "mb"@,
            r.include_extensions@[2]@ == "mel"@,
            r.include_extensions@[3]@ == "py"@,
            r.exclude_extensions@.len() == 0,
            r.max_file_size == Some(DEFAULT_MAX_FILE_SIZE),
            !r.follow_symlinks,
    {
        let mut include_extensions: Vec<String> = Vec::new();
        include_extensions.push("ma".to_string());
        include_extensions.push("mb".to_string());
        include_extensions.push("mel".to_string());
        include_extensions.push("py".to_string());
        ScanOptions {
            recursive: true,
            include_extensions,
            exclude_extensions: Vec::new(),
            max_file_size: Some(DEFAULT_MAX_FILE_SIZE),
            follow_symlinks: false,
        }
    }
}

/// Some extension of `list`, lowercased, equals `ext`.
pub open spec fn listed(list: Seq<String>, ext: Seq<char>) -> bool {
    exists|i: int| 0 <= i < list.len() && lower_of((#[trigger] list[i])@) == ext
}

/// The extension test: a file without extension passes; one with an
/// extension passes when the extension, lowercased, is among the inclusions
/// (or there are none) and is not among the exclusions.
pub open spec fn extension_passes(path: Seq<char>, o: ScanOptions) -> bool {
    match extension_of(path) {
        Some(e) => {
            &&& (o.include_extensions@.len() == 0 || listed(o.include_extensions@, lower_of(e)))
            &&& !listed(o.exclude_extensions@, lower_of(e))
        },
        None => true,
    }
}

/// The size test: a file of unknown size passes, as does any file when there
/// is no ceiling.
pub open spec fn size_passes(size: Option<u64>, o: ScanOptions) -> bool {
    match (o.max_file_size, size) {
        (Some(m), Some(s)) => s <= m,
        _ => true,
    }
}

/// A file at `path` of size `size` is a candidate under the options `o`.
pub open spec fn passes_filter(path: Seq<char>, size: Option<u64>, o: ScanOptions) -> bool {
    extension_passes(path, o) && size_passes(size, o)
}

/// An extension listed both among the inclusions and among the exclusions
/// excludes the file, whatever its size.
pub proof fn lemma_exclusion_wins(path: Seq<char>, size: Option<u64>, o: ScanOptions)
    requires
        extension_of(path) is Some,
        listed(o.include_extensions@, lower_of(extension_of(path)->0)),
        listed(o.exclude_extensions@, lower_of(extension_of(path)->0)),
    ensures
        !passes_filter(path, size, o),
{
}

/// Whether some extension of `list`, lowercased, equals `ext`.
fn is_listed(list: &Vec<String>, ext: &String) -> (r: bool)
    ensures
        r == listed(list@, ext@),
{
    let mut i: usize = 0;
    while i < list.len()
        invariant
            i <= list@.len(),
            forall|k: int| 0 <= k < i ==> lower_of((#[trigger] list@[k])@) != ext@,
        decreases list@.len() - i,
    {
        let low = to_lower(list[i].as_str());
        if low == *ext {
            return true;
        }
        i += 1;
    }
    false
}

/// Whether a file at `file_path` of size `file_size` (none when unknown) is a
/// candidate under `options`.
pub fn should_include_file(file_path: &str, file_size: Option<u64>, options: &ScanOptions) -> (r:
    bool)
    ensures
        r == passes_filter(file_path@, file_size, *options),
{
    match file_extension(file_path) {
        Some(ext) => {
            let low = to_lower(ext.as_str());
            if options.include_extensions.len() > 0 && !is_listed(
                &options.include_extensions,
                &low,
            ) {
                return false;
            }
            if is_listed(&options.exclude_extensions, &low) {
                return false;
            }
        },
        None => {},
    }
    match (options.max_file_size, file_size) {
        (Some(m), Some(s)) => s <= m,
        _ => true,
    }
}

/// The outcome of a scan.
#[derive(Debug, Clone)]
pub struct ScanResult {
    /// The files found, in traversal order.
    pub files: Vec<String>,
    /// Number of directories listed.
    pub directories_scanned: usize,
    /// Total size of the files found, in bytes, saturated at `u64::MAX`.
    pub total_size: u64,
    /// Duration of the scan in milliseconds.
    pub duration_ms: u64,
}

/// The kind of a directory entry, symbolic links followed.
#[derive(Debug, Clone, Copy, PartialEq, Eq, Structural)]
pub enum EntryKind {
    /// A regular file.
    File,
    /// A directory.
    Directory,
    /// Anything else, or a dangling link.
    Other,
}

/// What a directory listing says of one entry.
#[derive(Debug, Clone)]
pub struct DirEntryInfo {
    /// The entry's path.
    pub path: String,
    /// What the entry is, symbolic links followed.
    pub kind: EntryKind,
    /// Whether the entry itself is a symbolic link.
    pub is_symlink: bool,
    /// The size in bytes, none when it could not be queried.
    pub size: Option<u64>,
    /// For a directory, a text that names it uniquely (its resolved path).
    pub identity: String,
}

/// `a + b`, or `u64::MAX` when that does not fit.
pub open spec fn saturating_sum(a: int, b: int) -> int {
    if a + b > u64::MAX {
        u64::MAX as int
    } else {
        a + b
    }
}

/// The paths of the entries that are candidate files.
pub open spec fn kept_files(es: Seq<DirEntryInfo>, o: ScanOptions) -> Seq<Seq<char>>
    decreases es.len(),
{
    if es.len() == 0 {
        Seq::<Seq<char>>::empty()
    } else {
        let f = kept_files(es.drop_last(), o);
        let e = es.last();
        if e.kind == EntryKind::File && passes_filter(e.path@, e.size, o) {
            f.push(e.path@)
        } else {
            f
        }
    }
}

/// `total` with the known sizes of the candidate files among `es` added, each
/// addition saturated at `u64::MAX`.
pub open spec fn size_after(total: int, es: Seq<DirEntryInfo>, o: ScanOptions) -> int
    decreases es.len(),
{
    if es.len() == 0 {
        total
    } else {
        let t = size_after(total, es.drop_last(), o);
        let e = es.last();
        if e.kind == EntryKind::File && passes_filter(e.path@, e.size, o) && e.size is Some {
            saturating_sum(t, e.size->0 as int)
        } else {
            t
        }
    }
}

/// The walk enters the directory entry `e`.
pub open spec fn descends(e: DirEntryInfo, o: ScanOptions) -> bool {
    &&& e.kind == EntryKind::Directory
    &&& o.recursive
    &&& (!e.is_symlink || o.follow_symlinks)
}

/// The directories among `es` that the walk schedules, and the identities
/// known afterwards, starting from the identities `seen`: a directory is
/// scheduled when the walk enters it and its identity is not yet known.
pub open spec fn schedule(es: Seq<DirEntryInfo>, o: ScanOptions, seen: Seq<Seq<char>>) -> (
    Seq<Seq<char>>,
    Seq<Seq<char>>,
)
    decreases es.len(),
{
    if es.len() == 0 {
        (Seq::<Seq<char>>::empty(), seen)
    } else {
        let (p, s) = schedule(es.drop_last(), o, seen);
        let e = es.last();
        if descends(e, o) && !s.contains(e.identity@) {
            (p.push(e.path@), s.push(e.identity@))
        } else {
            (p, s)
        }
    }
}

/// `p` is the path of an entry of `es` that the walk enters.
pub open spec fn entered_path(es: Seq<DirEntryInfo>, o: ScanOptions, p: Seq<char>) -> bool {
    exists|i: int| 0 <= i < es.len() && descends(#[trigger] es[i], o) && es[i].path@ == p
}

/// Every directory that `schedule` picks is entered by the walk: it is the
/// path of an entry that is a directory, and not a symbolic link unless links
/// are followed. The identities stay free of repeats, one more per directory
/// scheduled.
pub proof fn lemma_schedule(es: Seq<DirEntryInfo>, o: ScanOptions, seen: Seq<Seq<char>>)
    requires
        seen.no_duplicates(),
    ensures
        schedule(es, o, seen).1.no_duplicates(),
        schedule(es, o, seen).1.len() == seen.len() + schedule(es, o, seen).0.len(),
        forall|k: int|
            0 <= k < schedule(es, o, seen).0.len() ==> entered_path(
                es,
                o,
                #[trigger] schedule(es, o, seen).0[k],
            ),
    decreases es.len(),
{
    if es.len() > 0 {
        let init = es.drop_last();
        lemma_schedule(init, o, seen);
        let (p, s) = schedule(init, o, seen);
        let (p1, s1) = schedule(es, o, seen);
        let e = es.last();
        assert forall|k: int| 0 <= k < p1.len() implies entered_path(es, o, #[trigger] p1[k]) by {
            if k < p.len() {
                assert(p1[k] == p[k]);
                assert(entered_path(init, o, p[k]));
                let i = choose|i: int|
                    0 <= i < init.len() && descends(#[trigger] init[i], o) && init[i].path@ == p[k];
                assert(es[i] == init[i]);
            } else {
                assert(p1 == p.push(e.path@));
                assert(p1[k] == e.path@);
                assert(es[es.len() - 1] == e);
            }
        }
        if descends(e, o) && !s.contains(e.identity@) {
            assert forall|a: int, b: int| 0 <= a < s1.len() && 0 <= b < s1.len() && a != b implies s1[a]
                != s1[b] by {
                if a < s.len() && b < s.len() {
                } else if a == s.len() {
                    assert(s1[a] == e.identity@);
                    assert(s1[b] == s[b]);
                } else {
                    assert(s1[b] == e.identity@);
                    assert(s1[a] == s[a]);
                }
            }
        }
    }
}

/// A walk through a directory tree.
pub struct DirectoryWalk {
    options: ScanOptions,
    pending: Vec<String>,
    seen: Vec<String>,
    files: Vec<String>,
    directories_scanned: usize,
    total_size: u64,
}

impl DirectoryWalk {
    /// The walk's options.
    pub closed spec fn spec_options(&self) -> ScanOptions {
        self.options
    }

    /// The directories still to be listed; the last one is listed next.
    pub closed spec fn spec_pending(&self) -> Seq<Seq<char>> {
        self.pending@.map_values(|s: String| s@)
    }

    /// The identities of the directories scheduled so far.
    pub closed spec fn spec_seen(&self) -> Seq<Seq<char>> {
        self.seen@.map_values(|s: String| s@)
    }

    /// The files kept so far, in traversal order.
    pub closed spec fn spec_files(&self) -> Seq<Seq<char>> {
        self.files@.map_values(|s: String| s@)
    }

    /// The number of directories handed out for listing so far.
    pub closed spec fn spec_directories(&self) -> nat {
        self.directories_scanned as nat
    }

    /// The total size of the files kept so far, saturated at `u64::MAX`.
    pub closed spec fn spec_total_size(&self) -> int {
        self.total_size as int
    }

    /// The walk's invariant: identities are never repeated, and every
    /// scheduled directory has been handed out or is pending.
    pub closed spec fn wf(&self) -> bool {
        &&& self.spec_seen().no_duplicates()
        &&& self.directories_scanned + self.pending@.len() == self.seen@.len()
    }

    /// A walk that starts at the directory `root`, whose identity is
    /// `root_identity`.
    pub fn new(root: &str, root_identity: &str, options: ScanOptions) -> (r: Self)
        ensures
            r.wf(),
            r.spec_options() == options,
            r.spec_pending() == seq![root@],
            r.spec_seen() == seq![root_identity@],
            r.spec_files().len() == 0,
            r.spec_directories() == 0,
            r.spec_total_size() == 0,
    {
        let mut pending: Vec<String> = Vec::new();
        pending.push(root.to_string());
        let mut seen: Vec<String> = Vec::new();
        seen.push(root_identity.to_string());
        let r = DirectoryWalk {
            options,
            pending,
            seen,
            files: Vec::new(),
            directories_scanned: 0,
            total_size: 0,
        };
        proof {
            assert(r.spec_pending() =~= seq![root@]);
            assert(r.spec_seen() =~= seq![root_identity@]);
            assert(r.spec_files() =~= Seq::<Seq<char>>::empty());
        }
        r
    }

    /// The next directory to list, none when the walk is over.
    pub fn next_directory(&mut self) -> (r: Option<String>)
        requires
            old(self).wf(),
        ensures
            final(self).wf(),
            final(self).spec_options() == old(self).spec_options(),
            final(self).spec_seen() == old(self).spec_seen(),
            final(self).spec_files() == old(self).spec_files(),
            final(self).spec_total_size() == old(self).spec_total_size(),
            old(self).spec_pending().len() == 0 ==> r is None && final(self).spec_pending()
                == old(self).spec_pending() && final(self).spec_directories()
                == old(self).spec_directories(),
            old(self).spec_pending().len() > 0 ==> r is Some && r->0@ == old(
                self,
            ).spec_pending().last() && final(self).spec_pending() == old(
                self,
            ).spec_pending().drop_last() && final(self).spec_directories() == old(
                self,
            ).spec_directories() + 1,
    {
        let ghost before = self.pending@;
        let known: usize = self.seen.len();
        match self.pending.pop() {
            Some(dir) => {
                self.directories_scanned = self.directories_scanned + 1;
                proof {
                    assert(self.spec_pending() =~= before.map_values(|s: String| s@).drop_last());
                }
                Some(dir)
            },
            None => None,
        }
    }

    /// Takes in the entries of the directory last handed out: keeps the
    /// candidate files and schedules the directories to enter.
    pub fn visit(&mut self, entries: &Vec<DirEntryInfo>)
        requires
            old(self).wf(),
        ensures
            final(self).wf(),
            final(self).spec_options() == old(self).spec_options(),
            final(self).spec_directories() == old(self).spec_directories(),
            final(self).spec_files() == old(self).spec_files() + kept_files(
                entries@,
                old(self).spec_options(),
            ),
            final(self).spec_total_size() == size_after(
                old(self).spec_total_size(),
                entries@,
                old(self).spec_options(),
            ),
            final(self).spec_pending() == old(self).spec_pending() + schedule(
                entries@,
                old(self).spec_options(),
                old(self).spec_seen(),
            ).0,
            final(self).spec_seen() == schedule(
                entries@,
                old(self).spec_options(),
                old(self).spec_seen(),
            ).1,
    {
        let ghost o = self.options;
        let ghost files0 = self.spec_files();
        let ghost pending0 = self.spec_pending();
        let ghost seen0 = self.spec_seen();
        let ghost total0 = self.total_size as int;
        let ghost dirs0 = self.directories_scanned;
        let mut i: usize = 0;
        while i < entries.len()
            invariant
                i <= entries@.len(),
                self.options == o,
                self.spec_seen().no_duplicates(),
                seen0.no_duplicates(),
                self.directories_scanned == dirs0,
                self.directories_scanned + self.pending@.len() == self.seen@.len(),
                self.spec_files() == files0 + kept_files(entries@.take(i as int), o),
                self.total_size as int == size_after(total0, entries@.take(i as int), o),
                self.spec_pending() == pending0 + schedule(entries@.take(i as int), o, seen0).0,
                self.spec_seen() == schedule(entries@.take(i as int), o, seen0).1,
            decreases entries@.len() - i,
        {
            let e = &entries[i];
            let ghost t0 = entries@.take(i as int);
            let ghost t1 = entries@.take(i as int + 1);
            proof {
                assert(t1.drop_last() =~= t0);
                assert(t1.last() == *e);
            }
            let ghost f_before = self.files@;
            let ghost p_before = self.pending@;
            let ghost s_before = self.seen@;
            match e.kind {
                EntryKind::File => {
                    if should_include_file(e.path.as_str(), e.size, &self.options) {
                        self.files.push(e.path.clone());
                        proof {
                            assert(self.spec_files() =~= f_before.map_values(|s: String| s@).push(
                                e.path@,
                            ));
                        }
                        match e.size {
                            Some(s) => {
                                self.total_size = self.total_size.saturating_add(s);
                            },
                            None => {},
                        }
                    }
                },
                EntryKind::Directory => {
                    if self.options.recursive && (!e.is_symlink || self.options.follow_symlinks) {
                        let mut known = false;
                        let mut k: usize = 0;
                        while k < self.seen.len()
                            invariant
                                k <= self.seen@.len(),
                                known == exists|m: int|
                                    0 <= m < k && (#[trigger] self.seen@[m])@ == e.identity@,
                            decreases self.seen@.len() - k,
                        {
                            if self.seen[k] == e.identity {
                                known = true;
                            }
                            k += 1;
                        }
                        proof {
                            let sv = self.spec_seen();
                            if known {
                                let m = choose|m: int|
                                    0 <= m < self.seen@.len() && (#[trigger] self.seen@[m])@
                                        == e.identity@;
                                assert(sv[m] == e.identity@);
                                assert(sv.contains(e.identity@));
                            } else {
                                assert forall|m: int| 0 <= m < sv.len() implies sv[m]
                                    != e.identity@ by {
                                    assert(sv[m] == self.seen@[m]@);
                                }
                            }
                        }
                        if !known {
                            self.pending.push(e.path.clone());
                            self.seen.push(e.identity.clone());
                            proof {
                                assert(self.spec_pending() =~= p_before.map_values(
                                    |s: String| s@,
                                ).push(e.path@));
                                assert(self.spec_seen() =~= s_before.map_values(|s: String| s@).push(
                                    e.identity@,
                                ));
                            }
                        }
                    }
                },
                EntryKind::Other => {},
            }
            i += 1;
        }
        proof {
            assert(entries@.take(entries@.len() as int) =~= entries@);
        }
    }

    /// Ends the walk, reporting what it found.
    pub fn finish(self, duration_ms: u64) -> (r: ScanResult)
        ensures
            r.files@.map_values(|s: String| s@) == self.spec_files(),
            r.directories_scanned == self.spec_directories(),
            r.total_size == self.spec_total_size(),
            r.duration_ms == duration_ms,
    {
        ScanResult {
            files: self.files,
            directories_scanned: self.directories_scanned,
            total_size: self.total_size,
            duration_ms,
        }
    }
}

/// A walk lists each directory identity at most once: every directory handed
/// out or pending was scheduled under an identity of its own, so the listings
/// never outnumber the distinct identities met, and a tree whose links form a
/// cycle is still walked in finitely many steps.
pub proof fn lemma_walk_lists_each_identity_once(w: DirectoryWalk)
    requires
        w.wf(),
    ensures
        w.spec_seen().no_duplicates(),
        w.spec_directories() + w.spec_pending().len() == w.spec_seen().len(),
{
}

/// `p` is the path of an entry of `es` that is a directory and not a
/// symbolic link.
pub open spec fn plain_directory_path(es: Seq<DirEntryInfo>, p: Seq<char>) -> bool {
    exists|i: int|
        0 <= i < es.len() && !(#[trigger] es[i]).is_symlink && es[i].kind == EntryKind::Directory
            && es[i].path@ == p
}

/// Without following symbolic links, the walk schedules no directory reached
/// through one: each directory scheduled is an entry that is a directory and
/// not a link.
pub proof fn lemma_links_not_entered(es: Seq<DirEntryInfo>, o: ScanOptions, seen: Seq<Seq<char>>)
    requires
        !o.follow_symlinks,
        seen.no_duplicates(),
    ensures
        forall|k: int|
            0 <= k < schedule(es, o, seen).0.len() ==> plain_directory_path(
                es,
                #[trigger] schedule(es, o, seen).0[k],
            ),
{
    lemma_schedule(es, o, seen);
    assert forall|k: int| 0 <= k < schedule(es, o, seen).0.len() implies plain_directory_path(
        es,
        #[trigger] schedule(es, o, seen).0[k],
    ) by {
        assert(entered_path(es, o, schedule(es, o, seen).0[k]));
        let i = choose|i: int|
            0 <= i < es.len() && descends(#[trigger] es[i], o) && es[i].path@ == schedule(
                es,
                o,
                seen,
            ).0[k];
        assert(!es[i].is_symlink);
    }
}

/// What a scanner offers.
pub trait Scanner {
    /// The scanner's name.
    fn name(&self) -> &str;

    /// Whether a file at `file_path` of size `file_size` (none when unknown)
    /// is a candidate under `options`.
    fn should_include_file(&self, file_path: &str, file_size: Option<u64>, options: &ScanOptions) -> (r:
        bool)
        ensures
            r == passes_filter(file_path@, file_size, *options),
    {
        should_include_file(file_path, file_size, options)
    }
}

/// Scanner of the file system.
pub struct FileSystemScanner {
    name: String,
}

impl FileSystemScanner {
    /// The scanner's name.
    pub closed spec fn spec_name(&self) -> Seq<char> {
        self.name@
    }

    /// A scanner named "FileSystemScanner".
    pub fn new() -> (r: Self)
        ensures
            r.spec_name() == "FileSystemScanner"@,
    {
        FileSystemScanner { name: "FileSystemScanner".to_string() }
    }

    /// The scanner's name.
    pub fn name(&self) -> (r: &str)
        ensures
            r@ == self.spec_name(),
    {
        self.name.as_str()
    }

    /// Whether a file at `file_path` of size `file_size` (none when unknown)
    /// is a candidate under `options`.
    pub fn should_include_file(&self, file_path: &str, file_size: Option<u64>, options: &ScanOptions) -> (r:
        bool)
        ensures
            r == passes_filter(file_path@, file_size, *options),
    {
        should_include_file(file_path, file_size, options)
    }

    /// The scan of a path that is a single file: the file alone when it is a
    /// candidate, nothing otherwise.
    pub fn scan_single_file(
        &self,
        file_path: &str,
        file_size: Option<u64>,
        options: &ScanOptions,
        duration_ms: u64,
    ) -> (r: ScanResult)
        ensures
            passes_filter(file_path@, file_size, *options) ==> r.files@.len() == 1
                && r.files@[0]@ == file_path@ && r.total_size == match file_size {
                Some(s) => s,
                None => 0,
            },
            !passes_filter(file_path@, file_size, *options) ==> r.files@.len() == 0
                && r.total_size == 0,
            r.directories_scanned == 0,
            r.duration_ms == duration_ms,
    {
        let mut files: Vec<String> = Vec::new();
        let mut total_size: u64 = 0;
        if should_include_file(file_path, file_size, options) {
            files.push(file_path.to_string());
            total_size = match file_size {
                Some(s) => s,
                None => 0,
            };
        }
        ScanResult { files, directories_scanned: 0, total_size, duration_ms }
    }
}

impl Scanner for FileSystemScanner {
    fn name(&self) -> &str {
        self.name.as_str()
    }
}

} // verus!
