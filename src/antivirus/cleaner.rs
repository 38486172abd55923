//! Remediation: neutralizing dangerous lines of a file, behind a backup.
//!
//! A line is neutralized by prefixing it with an inert marker that keeps the
//! line's text, never by deleting it, so line numbers stay stable. A line
//! that already carries the marker is left as it is, so cleaning is
//! idempotent.
//!
//! The file operations of a clean are driven by `CleanSession`: it asks its
//! owner for one operation at a time (read, back up, write) and decides from
//! each outcome what comes next. A write is only ever asked for after the
//! backup, when one is wanted, has been reported written.
use vstd::prelude::*;
use crate::error::UmbrellaError;
use crate::paths::{
    decimal, decimal_string, extension_of, file_extension, file_name, file_name_of, join,
    join_path, lemma_extension_within, parent, parent_of, trim_trailing_slashes,
    replace_extension,
};
use crate::text::{
    chars_of, contains_chars, contains_seq, join_lines, lemma_lines_newline_free,
    lemma_lines_of_join, lines_of, lower_of, no_newline, all_newline_free, push_char,
    split_lines, starts_with_chars, starts_with_seq, to_lower,
};

verus! {

/// Options of a clean.
#[derive(Debug, Clone)]
pub struct CleanOptions {
    /// Whether a backup is made before the file is changed.
    pub create_backup: bool,
    /// Where backups go; by default a `_virus_backup` directory beside the
    /// file.
    pub backup_directory: Option<String>,
    /// Whether the file itself is to be removed after cleaning (advisory).
    pub remove_original: bool,
    /// Whether the file is rewritten in place, or the cleaned text goes to a
    /// sibling file with the extension `cleaned`.
    pub in_place: bool,
}

impl Default for CleanOptions {
    /// Backup in the default place, file rewritten in place.
    fn default() -> (r: Self)
        ensures
            r.create_backup,
            r.backup_directory is None,
            !r.remove_original,
            r.in_place,
    {
        CleanOptions {
            create_backup: true,
            backup_directory: None,
            remove_original: false,
            in_place: true,
        }
    }
}

/// Outcome of a clean.
#[derive(Debug, Clone, Copy, PartialEq, Eq, Structural)]
pub enum CleanStatus {
    /// The file was cleaned.
    Success,
    /// The file needed no cleaning; nothing was written.
    AlreadyClean,
    /// The file could not be cleaned.
    Failed,
    /// The file was isolated instead of cleaned.
    Quarantined,
    /// A backup was made but cleaning failed.
    BackupCreated,
}

impl CleanStatus {
    /// The status's display name.
    pub open spec fn label(self) -> Seq<char> {
        match self {
            CleanStatus::Success => "Success"@,
            CleanStatus::AlreadyClean => "Already Clean"@,
            CleanStatus::Failed => "Failed"@,
            CleanStatus::Quarantined => "Quarantined"@,
            CleanStatus::BackupCreated => "Backup Created"@,
        }
    }

    /// The status's display name.
    pub fn to_string(&self) -> (r: String)
        ensures
            r@ == self.label(),
    {
        match self {
            CleanStatus::Success => "Success".to_string(),
            CleanStatus::AlreadyClean => "Already Clean".to_string(),
            CleanStatus::Failed => "Failed".to_string(),
            CleanStatus::Quarantined => "Quarantined".to_string(),
            CleanStatus::BackupCreated => "Backup Created".to_string(),
        }
    }
}

/// The report of a clean.
#[derive(Debug, Clone)]
pub struct CleanResult {
    /// The file cleaned.
    pub file_path: String,
    /// The outcome.
    pub status: CleanStatus,
    /// A message on the outcome.
    pub message: String,
    /// The backup written, if one was.
    pub backup_path: Option<String>,
}

/// The view of an optional string.
pub open spec fn opt_view(o: Option<String>) -> Option<Seq<char>> {
    match o {
        Some(s) => Some(s@),
        None => None,
    }
}

impl CleanResult {
    /// A successful clean.
    pub fn success(file_path: &str, message: &str, backup_path: Option<String>) -> (r: Self)
        ensures
            r.file_path@ == file_path@,
            r.status == CleanStatus::Success,
            r.message@ == message@,
            r.backup_path == backup_path,
    {
        CleanResult {
            file_path: file_path.to_string(),
            status: CleanStatus::Success,
            message: message.to_string(),
            backup_path,
        }
    }

    /// A failed clean.
    pub fn failed(file_path: &str, message: &str) -> (r: Self)
        ensures
            r.file_path@ == file_path@,
            r.status == CleanStatus::Failed,
            r.message@ == message@,
            r.backup_path is None,
    {
        CleanResult {
            file_path: file_path.to_string(),
            status: CleanStatus::Failed,
            message: message.to_string(),
            backup_path: None,
        }
    }

    /// A clean that found nothing to do.
    pub fn already_clean(file_path: &str) -> (r: Self)
        ensures
            r.file_path@ == file_path@,
            r.status == CleanStatus::AlreadyClean,
            r.message@ == "File is already clean"@,
            r.backup_path is None,
    {
        CleanResult {
            file_path: file_path.to_string(),
            status: CleanStatus::AlreadyClean,
            message: "File is already clean".to_string(),
            backup_path: None,
        }
    }
}

/// The extensions, lowercase, of the files that can be cleaned.
pub open spec fn supported_extension(e: Seq<char>) -> bool {
    e == "py"@ || e == "mel"@ || e == "ma"@ || e == "mb"@
}

/// The file at `path` is of a type that can be cleaned.
pub open spec fn supported_path(path: Seq<char>) -> bool {
    match extension_of(path) {
        Some(e) => supported_extension(lower_of(e)),
        None => false,
    }
}

/// Whether the file at `file_path` is of a type that can be cleaned.
pub fn is_supported(file_path: &str) -> (r: bool)
    ensures
        r == supported_path(file_path@),
{
    match file_extension(file_path) {
        Some(ext) => {
            let low = to_lower(ext.as_str());
            let py = "py".to_string();
            let mel = "mel".to_string();
            let ma = "ma".to_string();
            let mb = "mb".to_string();
            low == py || low == mel || low == ma || low == mb
        },
        None => false,
    }
}

/// The marker that starts a neutralized line.
pub open spec fn neutral_marker() -> Seq<char> {
    "# REMOVED BY UMBRELLA: "@
}

/// The lowercased line calls for dynamic execution or a shell.
pub open spec fn is_dangerous(lowered: Seq<char>) -> bool {
    ||| contains_seq(lowered, "os.system"@)
    ||| contains_seq(lowered, "subprocess.call"@)
    ||| contains_seq(lowered, "eval("@)
    ||| contains_seq(lowered, "exec("@)
}

/// The line is dangerous and not yet neutralized.
pub open spec fn needs_neutralizing(line: Seq<char>) -> bool {
    !starts_with_seq(line, neutral_marker()) && is_dangerous(lower_of(line))
}

/// The line as cleaning leaves it.
pub open spec fn neutralized_line(line: Seq<char>) -> Seq<char> {
    if needs_neutralizing(line) {
        neutral_marker() + line
    } else {
        line
    }
}

/// The lines as cleaning leaves them.
pub open spec fn neutralized_lines(ls: Seq<Seq<char>>) -> Seq<Seq<char>> {
    ls.map_values(|l: Seq<char>| neutralized_line(l))
}

/// The text as cleaning leaves it: each line, neutralized where needed,
/// followed by a line feed.
pub open spec fn neutralized_text(content: Seq<char>) -> Seq<char> {
    join_lines(neutralized_lines(lines_of(content)))
}

/// Some line of the text needs neutralizing.
pub open spec fn needs_cleaning(content: Seq<char>) -> bool {
    exists|i: int|
        0 <= i < lines_of(content).len() && needs_neutralizing(#[trigger] lines_of(content)[i])
}

proof fn lemma_marker_newline_free()
    ensures
        no_newline(neutral_marker()),
        neutral_marker().len() > 0,
{
    reveal_strlit("# REMOVED BY UMBRELLA: ");
}

/// Cleaning changes no line count, and leaves a text that needs no more
/// cleaning and that a second cleaning gives back unchanged.
pub proof fn lemma_clean_idempotent(content: Seq<char>)
    ensures
        lines_of(neutralized_text(content)) == neutralized_lines(lines_of(content)),
        lines_of(neutralized_text(content)).len() == lines_of(content).len(),
        !needs_cleaning(neutralized_text(content)),
        neutralized_text(neutralized_text(content)) == neutralized_text(content),
{
    let ls = lines_of(content);
    let nl = neutralized_lines(ls);
    lemma_lines_newline_free(content);
    lemma_marker_newline_free();
    assert forall|i: int| 0 <= i < nl.len() implies no_newline(#[trigger] nl[i]) by {
        let l = ls[i];
        assert(no_newline(l));
        if needs_neutralizing(l) {
            let m = neutral_marker() + l;
            assert forall|k: int| 0 <= k < m.len() implies m[k] != '\n' by {
                if k < neutral_marker().len() {
                    assert(m[k] == neutral_marker()[k]);
                } else {
                    assert(m[k] == l[k - neutral_marker().len()]);
                }
            }
        }
    }
    assert(all_newline_free(nl));
    lemma_lines_of_join(nl);
    let t = neutralized_text(content);
    assert(lines_of(t) == nl);
    assert forall|i: int| 0 <= i < nl.len() implies !needs_neutralizing(#[trigger] nl[i]) by {
        let l = ls[i];
        if needs_neutralizing(l) {
            let m = neutral_marker() + l;
            assert(m.subrange(0, neutral_marker().len() as int) =~= neutral_marker());
            assert(starts_with_seq(m, neutral_marker()));
        }
    }
    assert(neutralized_lines(nl) =~= nl);
}

/// The directory that backups of the file at `path` go to.
pub open spec fn backup_directory_for(path: Seq<char>, o: CleanOptions) -> Seq<char> {
    match o.backup_directory {
        Some(d) => d@,
        None => join_path(parent_of(path), "_virus_backup"@),
    }
}

/// The backup of the file at `path` made at `timestamp`:
/// `<directory>/<timestamp>_<file name>`.
pub open spec fn backup_path_for(path: Seq<char>, o: CleanOptions, timestamp: u64) -> Seq<char> {
    join_path(
        backup_directory_for(path, o),
        decimal(timestamp as nat) + seq!['_'] + file_name_of(path),
    )
}

/// Where the cleaned text of the file at `path` goes: the file itself in
/// place, else the path with the extension `cleaned`.
pub open spec fn output_path_for(path: Seq<char>, o: CleanOptions) -> Seq<char> {
    if o.in_place {
        path
    } else {
        let t = trim_trailing_slashes(path);
        let e = extension_of(path)->0;
        t.take(t.len() - e.len()) + "cleaned"@
    }
}

/// A file operation that a clean asks its owner for.
#[derive(Debug)]
pub enum CleanAction {
    /// Read the whole file as text; answer `FileRead`, `ReadFailed`, or
    /// `FileMissing` when it does not exist.
    ReadFile(String),
    /// Create `directory` (an existing one is fine), then write `content`,
    /// the file's text as it was read, to `backup_path`, never over an
    /// existing file; answer `BackupWritten` or `BackupFailed`.
    CreateBackup { directory: String, backup_path: String, content: String },
    /// Write `content` to `path`, replacing it whole; answer `OutputWritten`
    /// or `WriteFailed`.
    WriteOutput { path: String, content: String },
    /// The clean is over, with this outcome.
    Finish(Result<CleanResult, UmbrellaError>),
}

/// What the owner of a clean reports back.
#[derive(Debug)]
pub enum CleanEvent {
    /// The file does not exist.
    FileMissing,
    /// The file's text.
    FileRead(String),
    /// The file could not be read as text.
    ReadFailed(String),
    /// The backup was written.
    BackupWritten,
    /// The backup could not be written.
    BackupFailed(String),
    /// The cleaned text was written.
    OutputWritten,
    /// The cleaned text could not be written.
    WriteFailed(String),
}

/// Where a clean stands.
#[derive(Debug, Clone, Copy, PartialEq, Eq, Structural)]
pub enum CleanStage {
    /// Waiting for the file's text.
    Reading,
    /// Waiting for the backup.
    BackingUp,
    /// Waiting for the cleaned text to be written.
    Writing,
    /// Over.
    Done,
}

/// One clean of one file.
pub struct CleanSession {
    file_path: String,
    options: CleanOptions,
    timestamp: u64,
    stage: CleanStage,
    cleaned: String,
    backup_path: Option<String>,
    backed_up: bool,
}

impl CleanSession {
    /// The file being cleaned.
    pub closed spec fn spec_path(&self) -> Seq<char> {
        self.file_path@
    }

    /// The clean's options.
    pub closed spec fn spec_options(&self) -> CleanOptions {
        self.options
    }

    /// The time, in seconds since the epoch, that names the backup.
    pub closed spec fn spec_timestamp(&self) -> u64 {
        self.timestamp
    }

    /// Where the clean stands.
    pub closed spec fn spec_stage(&self) -> CleanStage {
        self.stage
    }

    /// The cleaned text waiting to be written.
    pub closed spec fn spec_cleaned(&self) -> Seq<char> {
        self.cleaned@
    }

    /// The backup reported written, if any.
    pub closed spec fn spec_backup(&self) -> Option<Seq<char>> {
        opt_view(self.backup_path)
    }

    /// The backup has been reported written.
    pub closed spec fn spec_backed_up(&self) -> bool {
        self.backed_up
    }

    /// The session's invariant: a write is pending only once the backup, if
    /// one is wanted, is written, and a backup is recorded only then.
    pub closed spec fn wf(&self) -> bool {
        &&& (self.stage == CleanStage::Writing && self.options.create_backup) ==> self.backed_up
        &&& self.backed_up <==> self.backup_path is Some
        &&& self.backed_up ==> self.options.create_backup && self.backup_path->0@ == backup_path_for(
            self.file_path@,
            self.options,
            self.timestamp,
        )
        &&& (self.stage == CleanStage::Reading) ==> !self.backed_up
        &&& (self.stage == CleanStage::BackingUp) ==> !self.backed_up && self.options.create_backup
        &&& self.stage != CleanStage::Done ==> supported_path(self.file_path@)
    }

    /// Starts the clean of `file_path` at `timestamp` (seconds since the
    /// epoch): a file of a type that cannot be cleaned fails at once, without
    /// touching the file system; any other is read first.
    pub fn start(file_path: &str, options: CleanOptions, timestamp: u64) -> (r: (
        CleanSession,
        CleanAction,
    ))
        ensures
            r.0.wf(),
            r.0.spec_path() == file_path@,
            r.0.spec_options() == options,
            r.0.spec_timestamp() == timestamp,
            supported_path(file_path@) ==> r.0.spec_stage() == CleanStage::Reading && (
            r.1 matches CleanAction::ReadFile(p) && p@ == file_path@),
            !supported_path(file_path@) ==> r.0.spec_stage() == CleanStage::Done && (
            r.1 matches CleanAction::Finish(Ok(res)) && res.status == CleanStatus::Failed
                && res.file_path@ == file_path@ && res.message@
                == "File type not supported for cleaning"@ && res.backup_path is None),
    {
        let supported = is_supported(file_path);
        let session = CleanSession {
            file_path: file_path.to_string(),
            options,
            timestamp,
            stage: if supported {
                CleanStage::Reading
            } else {
                CleanStage::Done
            },
            cleaned: String::new(),
            backup_path: None,
            backed_up: false,
        };
        if supported {
            (session, CleanAction::ReadFile(file_path.to_string()))
        } else {
            let res = CleanResult::failed(file_path, "File type not supported for cleaning");
            (session, CleanAction::Finish(Ok(res)))
        }
    }

    /// Takes in the outcome of the operation last asked for, and says what
    /// comes next.
    pub fn step(&mut self, event: CleanEvent) -> (action: CleanAction)
        requires
            old(self).wf(),
        ensures
            final(self).wf(),
            final(self).spec_path() == old(self).spec_path(),
            final(self).spec_options() == old(self).spec_options(),
            final(self).spec_timestamp() == old(self).spec_timestamp(),
            // Reading the file.
            old(self).spec_stage() == CleanStage::Reading ==> match event {
                CleanEvent::FileMissing => final(self).spec_stage() == CleanStage::Done && (
                action matches CleanAction::Finish(Ok(res)) && res.status == CleanStatus::Failed
                    && res.file_path@ == old(self).spec_path() && res.message@
                    == "File does not exist"@ && res.backup_path is None),
                CleanEvent::ReadFailed(msg) => final(self).spec_stage() == CleanStage::Done && (
                action matches CleanAction::Finish(Err(UmbrellaError::ReadError(m))) && m@
                    == "Failed to read file: "@ + msg@),
                CleanEvent::FileRead(text) => {
                    &&& !needs_cleaning(text@) ==> final(self).spec_stage() == CleanStage::Done && (
                    action matches CleanAction::Finish(Ok(res)) && res.status
                        == CleanStatus::AlreadyClean && res.file_path@ == old(self).spec_path()
                        && res.backup_path is None)
                    &&& (needs_cleaning(text@) && old(self).spec_options().create_backup) ==> {
                        &&& final(self).spec_stage() == CleanStage::BackingUp
                        &&& final(self).spec_cleaned() == neutralized_text(text@)
                        &&& action matches CleanAction::CreateBackup {
                            directory,
                            backup_path,
                            content,
                        }
                        &&& content@ == text@
                        &&& directory@ == backup_directory_for(
                            old(self).spec_path(),
                            old(self).spec_options(),
                        )
                        &&& backup_path@ == backup_path_for(
                            old(self).spec_path(),
                            old(self).spec_options(),
                            old(self).spec_timestamp(),
                        )
                    }
                    &&& (needs_cleaning(text@) && !old(self).spec_options().create_backup) ==> {
                        &&& final(self).spec_stage() == CleanStage::Writing
                        &&& action matches CleanAction::WriteOutput { path, content }
                        &&& path@ == output_path_for(old(self).spec_path(), old(self).spec_options())
                        &&& content@ == neutralized_text(text@)
                    }
                },
                _ => final(self).spec_stage() == CleanStage::Done && action matches CleanAction::Finish(
                    Err(_),
                ),
            },
            // Backing up.
            old(self).spec_stage() == CleanStage::BackingUp ==> match event {
                CleanEvent::BackupWritten => {
                    &&& final(self).spec_stage() == CleanStage::Writing
                    &&& final(self).spec_backed_up()
                    &&& action matches CleanAction::WriteOutput { path, content }
                    &&& path@ == output_path_for(old(self).spec_path(), old(self).spec_options())
                    &&& content@ == old(self).spec_cleaned()
                },
                CleanEvent::BackupFailed(msg) => final(self).spec_stage() == CleanStage::Done && (
                action matches CleanAction::Finish(Err(UmbrellaError::WriteError(m))) && m@
                    == "Failed to create backup: "@ + msg@),
                _ => final(self).spec_stage() == CleanStage::Done && action matches CleanAction::Finish(
                    Err(_),
                ),
            },
            // Writing the cleaned text.
            old(self).spec_stage() == CleanStage::Writing ==> match event {
                CleanEvent::OutputWritten => final(self).spec_stage() == CleanStage::Done && (
                action matches CleanAction::Finish(Ok(res)) && res.status == CleanStatus::Success
                    && res.file_path@ == old(self).spec_path() && res.message@
                    == "File successfully cleaned"@ && opt_view(res.backup_path) == old(
                    self,
                ).spec_backup()),
                CleanEvent::WriteFailed(msg) => final(self).spec_stage() == CleanStage::Done && (
                action matches CleanAction::Finish(Err(UmbrellaError::WriteError(m))) && m@
                    == "Failed to write cleaned file: "@ + msg@),
                _ => final(self).spec_stage() == CleanStage::Done && action matches CleanAction::Finish(
                    Err(_),
                ),
            },
            old(self).spec_stage() == CleanStage::Done ==> final(self).spec_stage()
                == CleanStage::Done && action matches CleanAction::Finish(Err(_)),
    {
        let stage = self.stage;
        match stage {
            CleanStage::Reading => {
                match event {
                    CleanEvent::FileMissing => {
                        self.stage = CleanStage::Done;
                        CleanAction::Finish(
                            Ok(CleanResult::failed(self.file_path.as_str(), "File does not exist")),
                        )
                    },
                    CleanEvent::ReadFailed(msg) => {
                        self.stage = CleanStage::Done;
                        let mut m = "Failed to read file: ".to_string();
                        m.append(msg.as_str());
                        CleanAction::Finish(Err(UmbrellaError::ReadError(m)))
                    },
                    CleanEvent::FileRead(text) => {
                        let (cleaned, modified) = clean_content(text.as_str());
                        if !modified {
                            self.stage = CleanStage::Done;
                            return CleanAction::Finish(
                                Ok(CleanResult::already_clean(self.file_path.as_str())),
                            );
                        }
                        proof {
                            lemma_clean_idempotent(text@);
                        }
                        if self.options.create_backup {
                            let directory = backup_directory(self.file_path.as_str(), &self.options);
                            let backup_path = backup_file_path(
                                self.file_path.as_str(),
                                &self.options,
                                self.timestamp,
                            );
                            self.cleaned = cleaned;
                            self.stage = CleanStage::BackingUp;
                            CleanAction::CreateBackup { directory, backup_path, content: text }
                        } else {
                            let path = output_path(self.file_path.as_str(), &self.options);
                            let content = cleaned.clone();
                            self.cleaned = cleaned;
                            self.stage = CleanStage::Writing;
                            CleanAction::WriteOutput { path, content }
                        }
                    },
                    _ => {
                        self.stage = CleanStage::Done;
                        CleanAction::Finish(Err(unexpected_event()))
                    },
                }
            },
            CleanStage::BackingUp => {
                match event {
                    CleanEvent::BackupWritten => {
                        let bp = backup_file_path(
                            self.file_path.as_str(),
                            &self.options,
                            self.timestamp,
                        );
                        self.backup_path = Some(bp);
                        self.backed_up = true;
                        self.stage = CleanStage::Writing;
                        let path = output_path(self.file_path.as_str(), &self.options);
                        let content = self.cleaned.clone();
                        CleanAction::WriteOutput { path, content }
                    },
                    CleanEvent::BackupFailed(msg) => {
                        self.stage = CleanStage::Done;
                        let mut m = "Failed to create backup: ".to_string();
                        m.append(msg.as_str());
                        CleanAction::Finish(Err(UmbrellaError::WriteError(m)))
                    },
                    _ => {
                        self.stage = CleanStage::Done;
                        CleanAction::Finish(Err(unexpected_event()))
                    },
                }
            },
            CleanStage::Writing => {
                match event {
                    CleanEvent::OutputWritten => {
                        self.stage = CleanStage::Done;
                        let backup = match &self.backup_path {
                            Some(b) => Some(b.clone()),
                            None => None,
                        };
                        CleanAction::Finish(
                            Ok(
                                CleanResult::success(
                                    self.file_path.as_str(),
                                    "File successfully cleaned",
                                    backup,
                                ),
                            ),
                        )
                    },
                    CleanEvent::WriteFailed(msg) => {
                        self.stage = CleanStage::Done;
                        let mut m = "Failed to write cleaned file: ".to_string();
                        m.append(msg.as_str());
                        CleanAction::Finish(Err(UmbrellaError::WriteError(m)))
                    },
                    _ => {
                        self.stage = CleanStage::Done;
                        CleanAction::Finish(Err(unexpected_event()))
                    },
                }
            },
            CleanStage::Done => CleanAction::Finish(Err(unexpected_event())),
        }
    }
}

/// Backup before write: while a clean that wants a backup waits for its
/// write, the backup has been reported written, and it is recorded under its
/// name, `<directory>/<timestamp>_<file name>`; the success that follows the
/// write reports that same backup. (`step` asks for the backup with the
/// file's text exactly as it was read.)
pub proof fn lemma_backup_before_write(s: CleanSession)
    requires
        s.wf(),
        s.spec_stage() == CleanStage::Writing,
        s.spec_options().create_backup,
    ensures
        s.spec_backed_up(),
        s.spec_backup() == Some(
            backup_path_for(s.spec_path(), s.spec_options(), s.spec_timestamp()),
        ),
{
}

fn unexpected_event() -> (e: UmbrellaError)
    ensures
        e is Antivirus,
{
    UmbrellaError::Antivirus("Unexpected event for the stage of the clean".to_string())
}

/// The directory that backups of the file at `file_path` go to.
fn backup_directory(file_path: &str, options: &CleanOptions) -> (r: String)
    ensures
        r@ == backup_directory_for(file_path@, *options),
{
    match &options.backup_directory {
        Some(d) => d.clone(),
        None => {
            let p = parent(file_path);
            join(p.as_str(), "_virus_backup")
        },
    }
}

/// The backup of the file at `file_path` made at `timestamp`.
fn backup_file_path(file_path: &str, options: &CleanOptions, timestamp: u64) -> (r: String)
    ensures
        r@ == backup_path_for(file_path@, *options, timestamp),
{
    let dir = backup_directory(file_path, options);
    let mut name = decimal_string(timestamp);
    push_char(&mut name, '_');
    let f = file_name(file_path);
    name.append(f.as_str());
    join(dir.as_str(), name.as_str())
}

/// Where the cleaned text of the file at `file_path` goes.
fn output_path(file_path: &str, options: &CleanOptions) -> (r: String)
    requires
        supported_path(file_path@),
    ensures
        r@ == output_path_for(file_path@, *options),
{
    if options.in_place {
        return file_path.to_string();
    }
    match file_extension(file_path) {
        Some(ext) => {
            let n = chars_of(ext.as_str()).len();
            proof {
                lemma_extension_within(file_path@);
            }
            replace_extension(file_path, n, "cleaned")
        },
        None => file_path.to_string(),
    }
}

/// Cleans `content`: the cleaned text, and whether any line was neutralized.
pub fn clean_content(content: &str) -> (r: (String, bool))
    ensures
        r.0@ == neutralized_text(content@),
        r.1 == needs_cleaning(content@),
{
    let ghost ls = lines_of(content@);
    let lines = split_lines(content);
    let marker = "# REMOVED BY UMBRELLA: ";
    let marker_chars = chars_of(marker);
    let os_system = chars_of("os.system");
    let subprocess_call = chars_of("subprocess.call");
    let eval_call = chars_of("eval(");
    let exec_call = chars_of("exec(");
    let mut out = String::new();
    let mut modified = false;
    let mut i: usize = 0;
    while i < lines.len()
        invariant
            i <= ls.len(),
            lines@.len() == ls.len(),
            forall|k: int| 0 <= k < lines@.len() ==> #[trigger] lines@[k]@ == ls[k],
            marker@ == neutral_marker(),
            marker_chars@ == neutral_marker(),
            os_system@ == "os.system"@,
            subprocess_call@ == "subprocess.call"@,
            eval_call@ == "eval("@,
            exec_call@ == "exec("@,
            out@ == join_lines(neutralized_lines(ls.take(i as int))),
            modified == exists|k: int| 0 <= k < i && needs_neutralizing(#[trigger] ls[k]),
        decreases ls.len() - i,
    {
        let line = &lines[i];
        let line_chars = chars_of(line.as_str());
        let low = chars_of(to_lower(line.as_str()).as_str());
        let marked = starts_with_chars(&line_chars, &marker_chars);
        let dangerous = contains_chars(&low, &os_system) || contains_chars(&low, &subprocess_call)
            || contains_chars(&low, &eval_call) || contains_chars(&low, &exec_call);
        let needs = !marked && dangerous;
        proof {
            assert(needs == needs_neutralizing(ls[i as int]));
        }
        let ghost before = out@;
        if needs {
            out.append(marker);
            modified = true;
        }
        out.append(line.as_str());
        push_char(&mut out, '\n');
        proof {
            let t0 = ls.take(i as int);
            let t1 = ls.take(i as int + 1);
            assert(neutralized_lines(t1).drop_last() =~= neutralized_lines(t0));
            assert(neutralized_lines(t1).last() == neutralized_line(ls[i as int]));
            assert(out@ =~= before + neutralized_line(ls[i as int]) + seq!['\n']);
        }
        i += 1;
    }
    proof {
        assert(ls.take(ls.len() as int) =~= ls);
    }
    (out, modified)
}

/// Cleaner that backs files up before it rewrites them.
pub struct BackupCleaner {
    name: String,
}

/// What a cleaner offers.
pub trait Cleaner {
    /// The cleaner's name.
    fn name(&self) -> &str;

    /// Whether the cleaner can handle the file at `file_path`.
    fn can_clean(&self, file_path: &str) -> (r: bool)
        ensures
            r == supported_path(file_path@),
    ;
}

impl BackupCleaner {
    /// The cleaner's name.
    pub closed spec fn spec_name(&self) -> Seq<char> {
        self.name@
    }

    /// A cleaner named "BackupCleaner".
    pub fn new() -> (r: Self)
        ensures
            r.spec_name() == "BackupCleaner"@,
    {
        BackupCleaner { name: "BackupCleaner".to_string() }
    }

    /// Cleans `content`: the cleaned text, and whether any line was
    /// neutralized.
    pub fn clean_file_content(&self, content: &str) -> (r: (String, bool))
        ensures
            r.0@ == neutralized_text(content@),
            r.1 == needs_cleaning(content@),
    {
        clean_content(content)
    }

    /// Starts a clean of `file_path` with `options`, the backup named after
    /// `timestamp`.
    pub fn clean(&self, file_path: &str, options: CleanOptions, timestamp: u64) -> (r: (
        CleanSession,
        CleanAction,
    ))
        ensures
            r.0.wf(),
            r.0.spec_path() == file_path@,
            r.0.spec_options() == options,
            r.0.spec_timestamp() == timestamp,
            supported_path(file_path@) ==> r.0.spec_stage() == CleanStage::Reading,
            !supported_path(file_path@) ==> r.0.spec_stage() == CleanStage::Done,
    {
        CleanSession::start(file_path, options, timestamp)
    }
}

impl Cleaner for BackupCleaner {
    fn name(&self) -> &str {
        self.name.as_str()
    }

    fn can_clean(&self, file_path: &str) -> (r: bool) {
        is_supported(file_path)
    }
}

} // verus!
