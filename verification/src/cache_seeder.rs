//! Seeding instance caches from downloadable archives.
//!
//! The decisions of seeding one cache entry stand here as a state machine: a
//! `SeedSession` takes the outcome of each piece of outside work as a `SeedEvent` and
//! answers with the next `SeedAction` to perform. The side that performs the actions
//! (file system, network, archive extraction) feeds the session until it answers `Finish`.
use vstd::prelude::*;
use crate::checksum::{
    checksum_accepts, checksum_matches, lower_hex, sha256_digest, sha256_finalize_reset,
    sha256_hasher_input, sha256_new, sha256_update, to_lower_hex, Sha256Hasher,
};
use crate::timestamp::{marker_contents, marker_contents_spec};

verus! {

/// The name of the file that lists the caches of an instance.
pub const SEED_CACHE_CONFIG_NAME: &'static str = "seed-cache.json";

/// The name, inside a cache's target directory, of the archive while it downloads.
pub const TEMP_DOWNLOAD_NAME: &'static str = ".tmp_download";

/// One cache: an archive at `url`, extracted into `target_path` (relative to the instance),
/// seeded once `marker_file` exists there.
#[derive(Debug, Clone)]
pub struct SeedCacheEntry {
    pub name: String,
    pub url: String,
    pub target_path: String,
    pub marker_file: String,
    pub sha256: Option<String>,
}

/// The caches an instance asks for.
#[derive(Debug, Clone)]
pub struct SeedCacheConfig {
    pub caches: Vec<SeedCacheEntry>,
}

impl Default for SeedCacheConfig {
    fn default() -> (config: Self)
        ensures
            config.caches@.len() == 0,
    {
        SeedCacheConfig { caches: Vec::new() }
    }
}

/// The marker file name used when an entry names none.
pub fn default_marker_file() -> (marker: String)
    ensures
        marker@ == "CURRENT"@,
{
    "CURRENT".to_owned()
}

/// Why seeding a cache failed.
#[derive(Debug, Clone)]
pub enum SeedError {
    /// A local operation (creating a directory or file, writing, reporting progress) failed.
    Operation { reason: String },
    /// The archive could not be requested.
    Fetch { url: String, reason: String },
    /// The server answered with a status outside 200..=299.
    Status { url: String, status: u16 },
    /// The download broke off.
    Stream { reason: String },
    /// The archive's SHA-256 is not the expected one.
    ChecksumMismatch { name: String, expected: String, calculated: String },
    /// The extraction task did not complete.
    ExtractionPanicked { reason: String },
    /// The archive could not be extracted.
    Extraction { reason: String },
}

/// How an extraction ended.
#[derive(Debug, Clone)]
pub enum ExtractionOutcome {
    Extracted,
    Panicked { reason: String },
    Failed { reason: String },
}

/// Where a seeding stands.
#[derive(Debug, Clone, Copy, PartialEq, Eq, Structural)]
pub enum SeedPhase {
    CheckingMarker,
    CreatingDirectory,
    StartingProgress,
    Fetching,
    CreatingTempFile,
    Streaming,
    DiscardingMismatch,
    Extracting,
    RemovingTemp,
    WritingMarker,
    Finished,
}

/// The outcome of the last action.
#[derive(Debug, Clone)]
pub enum SeedEvent {
    MarkerChecked { exists: bool },
    DirectoryCreated,
    ProgressStarted,
    ResponseReceived { status: u16 },
    FetchFailed { reason: String },
    TempFileCreated,
    /// A chunk of the archive was received and written to the temporary file.
    ChunkWritten { chunk: Vec<u8> },
    StreamFailed { reason: String },
    /// The download is complete and the temporary file flushed.
    StreamEnded,
    TempFileRemoved,
    ExtractionFinished { outcome: ExtractionOutcome },
    MarkerWritten,
    OperationFailed { reason: String },
}

/// The next piece of outside work.
#[derive(Debug)]
pub enum SeedAction {
    /// Test whether the marker file exists.
    CheckMarker,
    /// Create the target directory and its parents.
    CreateTargetDirectory,
    /// Start a progress report for the download.
    StartProgress,
    /// Request the archive.
    Fetch { url: String },
    /// Create the temporary download file.
    CreateTempFile,
    /// Receive the next chunk, write it to the temporary file and report progress; at the
    /// end of the stream, flush the file.
    ReadNextChunk,
    /// Remove the temporary download file; a failure to remove it is ignored.
    RemoveTempFile,
    /// Extract the downloaded archive into the target directory.
    Extract,
    /// Write the marker file with these contents.
    WriteMarker { contents: String },
    /// Seeding is over, with this result.
    Finish { result: Result<(), SeedError> },
}

/// The status code is a success (200..=299), as `reqwest::StatusCode::is_success` tests.
pub open spec fn is_success_status(status: u16) -> bool {
    200 <= status <= 299
}

/// The events that a session in `phase` can take.
pub open spec fn expects(phase: SeedPhase, event: SeedEvent) -> bool {
    match phase {
        SeedPhase::CheckingMarker => event is MarkerChecked,
        SeedPhase::CreatingDirectory => event is DirectoryCreated || event is OperationFailed,
        SeedPhase::StartingProgress => event is ProgressStarted || event is OperationFailed,
        SeedPhase::Fetching => event is ResponseReceived || event is FetchFailed,
        SeedPhase::CreatingTempFile => event is TempFileCreated || event is OperationFailed,
        SeedPhase::Streaming => {
            ||| event is ChunkWritten
            ||| event is StreamFailed
            ||| event is StreamEnded
            ||| event is OperationFailed
        },
        SeedPhase::DiscardingMismatch => event is TempFileRemoved,
        SeedPhase::Extracting => event is ExtractionFinished,
        SeedPhase::RemovingTemp => event is TempFileRemoved,
        SeedPhase::WritingMarker => event is MarkerWritten || event is OperationFailed,
        SeedPhase::Finished => false,
    }
}

/// The session of seeding one cache entry.
pub struct SeedSession {
    name: String,
    url: String,
    expected_sha256: Option<String>,
    phase: SeedPhase,
    downloaded: u64,
    hasher: Sha256Hasher,
    calculated: Option<String>,
    received: Ghost<Seq<u8>>,
    extracted: Ghost<bool>,
}

/// The characters of an optional string.
pub open spec fn opt_chars(s: Option<String>) -> Option<Seq<char>> {
    match s {
        Some(t) => Some(t@),
        None => None,
    }
}

impl SeedSession {
    /// The name of the cache.
    pub closed spec fn name(self) -> String {
        self.name
    }

    /// The URL of the archive.
    pub closed spec fn url(self) -> String {
        self.url
    }

    /// The expected SHA-256, in hex, if the entry gives one.
    pub closed spec fn expected(self) -> Option<String> {
        self.expected_sha256
    }

    /// Where the seeding stands.
    pub closed spec fn phase(self) -> SeedPhase {
        self.phase
    }

    /// The bytes of the archive received so far.
    pub closed spec fn received(self) -> Seq<u8> {
        self.received@
    }

    /// An extraction of the archive has finished successfully in this session.
    pub closed spec fn extracted(self) -> bool {
        self.extracted@
    }

    /// The session's internal consistency.
    pub closed spec fn wf(self) -> bool {
        let before_verification = match self.phase {
            SeedPhase::CheckingMarker | SeedPhase::CreatingDirectory | SeedPhase::StartingProgress
            | SeedPhase::Fetching | SeedPhase::CreatingTempFile | SeedPhase::Streaming => true,
            _ => false,
        };
        let verified = match self.phase {
            SeedPhase::Extracting | SeedPhase::RemovingTemp | SeedPhase::WritingMarker => true,
            _ => false,
        };
        &&& self.downloaded == self.received@.len()
        &&& before_verification ==> sha256_hasher_input(self.hasher) == self.received@
        &&& before_verification ==> !self.extracted@
        &&& !(self.phase is Streaming) && before_verification ==> self.received@.len() == 0
        &&& verified ==> checksum_accepts(opt_chars(self.expected_sha256), sha256_digest(self.received@))
        &&& (self.phase is RemovingTemp || self.phase is WritingMarker) ==> self.extracted@
        &&& self.phase is Extracting ==> !self.extracted@
        &&& self.phase is DiscardingMismatch ==> {
            &&& self.expected_sha256 is Some
            &&& self.calculated matches Some(c) && c@ == lower_hex(sha256_digest(self.received@))
            &&& !checksum_accepts(opt_chars(self.expected_sha256), sha256_digest(self.received@))
            &&& !self.extracted@
        }
    }

    /// The session may take `event`: it is one its phase expects, and a chunk does not
    /// push the byte count past `u64::MAX`.
    pub open spec fn can_take(self, event: SeedEvent) -> bool {
        &&& expects(self.phase(), event)
        &&& event matches SeedEvent::ChunkWritten { chunk } ==> self.received().len() + chunk@.len()
            <= u64::MAX
    }

    /// Starts seeding `entry`: the first action is to check for its marker file.
    pub fn start(entry: &SeedCacheEntry) -> (started: (SeedSession, SeedAction))
        ensures
            started.0.wf(),
            started.0.phase() == SeedPhase::CheckingMarker,
            started.0.name() == entry.name,
            started.0.url() == entry.url,
            started.0.expected() == entry.sha256,
            started.0.received() == Seq::<u8>::empty(),
            !started.0.extracted(),
            started.1 is CheckMarker,
    {
        let expected_sha256 = match &entry.sha256 {
            Some(s) => Some(s.clone()),
            None => None,
        };
        let session = SeedSession {
            name: entry.name.clone(),
            url: entry.url.clone(),
            expected_sha256,
            phase: SeedPhase::CheckingMarker,
            downloaded: 0,
            hasher: sha256_new(),
            calculated: None,
            received: Ghost(Seq::empty()),
            extracted: Ghost(false),
        };
        (session, SeedAction::CheckMarker)
    }

    /// Where the seeding stands.
    pub fn current_phase(&self) -> (phase: SeedPhase)
        ensures
            phase == self.phase(),
    {
        self.phase
    }

    /// The seeding is over.
    pub fn is_finished(&self) -> (finished: bool)
        ensures
            finished == (self.phase() is Finished),
    {
        match self.phase {
            SeedPhase::Finished => true,
            _ => false,
        }
    }

    /// The number of bytes of the archive received so far.
    pub fn downloaded(&self) -> (count: u64)
        requires
            self.wf(),
        ensures
            count == self.received().len(),
    {
        self.downloaded
    }

    /// Takes the outcome of the last action and returns the next one. `timestamp` is the
    /// current time as RFC 3339 text; it is read only when the next action is to write the
    /// marker file, which records it.
    pub fn step(&mut self, event: SeedEvent, timestamp: &str) -> (action: SeedAction)
        requires
            old(self).wf(),
            old(self).can_take(event),
        ensures
            final(self).wf(),
            seed_step(*old(self), event, timestamp@, *final(self), action),
    {
        let ghost old_self = *self;
        match event {
            SeedEvent::MarkerChecked { exists } => {
                if exists {
                    self.phase = SeedPhase::Finished;
                    SeedAction::Finish { result: Ok(()) }
                } else {
                    self.phase = SeedPhase::CreatingDirectory;
                    SeedAction::CreateTargetDirectory
                }
            },
            SeedEvent::DirectoryCreated => {
                self.phase = SeedPhase::StartingProgress;
                SeedAction::StartProgress
            },
            SeedEvent::ProgressStarted => {
                self.phase = SeedPhase::Fetching;
                SeedAction::Fetch { url: self.url.clone() }
            },
            SeedEvent::ResponseReceived { status } => {
                if 200 <= status && status <= 299 {
                    self.phase = SeedPhase::CreatingTempFile;
                    SeedAction::CreateTempFile
                } else {
                    self.phase = SeedPhase::Finished;
                    SeedAction::Finish {
                        result: Err(SeedError::Status { url: self.url.clone(), status }),
                    }
                }
            },
            SeedEvent::FetchFailed { reason } => {
                self.phase = SeedPhase::Finished;
                SeedAction::Finish { result: Err(SeedError::Fetch { url: self.url.clone(), reason }) }
            },
            SeedEvent::TempFileCreated => {
                self.phase = SeedPhase::Streaming;
                SeedAction::ReadNextChunk
            },
            SeedEvent::ChunkWritten { chunk } => {
                sha256_update(&mut self.hasher, chunk.as_slice());
                self.downloaded = self.downloaded + chunk.len() as u64;
                self.received = Ghost(self.received@ + chunk@);
                SeedAction::ReadNextChunk
            },
            SeedEvent::StreamFailed { reason } => {
                self.phase = SeedPhase::Finished;
                SeedAction::Finish { result: Err(SeedError::Stream { reason }) }
            },
            SeedEvent::StreamEnded => {
                let digest = sha256_finalize_reset(&mut self.hasher);
                let mismatch = match &self.expected_sha256 {
                    Some(expected) => {
                        let calculated = to_lower_hex(digest.as_slice());
                        if checksum_matches(calculated.as_str(), expected.as_str()) {
                            None
                        } else {
                            Some(calculated)
                        }
                    },
                    None => None,
                };
                match mismatch {
                    Some(calculated) => {
                        self.calculated = Some(calculated);
                        self.phase = SeedPhase::DiscardingMismatch;
                        SeedAction::RemoveTempFile
                    },
                    None => {
                        self.phase = SeedPhase::Extracting;
                        SeedAction::Extract
                    },
                }
            },
            SeedEvent::TempFileRemoved => {
                match self.phase {
                    SeedPhase::DiscardingMismatch => {
                        let calculated = match &self.calculated {
                            Some(c) => c.clone(),
                            None => String::new(),
                        };
                        let expected = match &self.expected_sha256 {
                            Some(e) => e.clone(),
                            None => String::new(),
                        };
                        self.phase = SeedPhase::Finished;
                        SeedAction::Finish {
                            result: Err(
                                SeedError::ChecksumMismatch {
                                    name: self.name.clone(),
                                    expected,
                                    calculated,
                                },
                            ),
                        }
                    },
                    _ => {
                        self.phase = SeedPhase::WritingMarker;
                        SeedAction::WriteMarker { contents: marker_contents(timestamp) }
                    },
                }
            },
            SeedEvent::ExtractionFinished { outcome } => {
                match outcome {
                    ExtractionOutcome::Extracted => {
                        self.extracted = Ghost(true);
                        self.phase = SeedPhase::RemovingTemp;
                        SeedAction::RemoveTempFile
                    },
                    ExtractionOutcome::Panicked { reason } => {
                        self.phase = SeedPhase::Finished;
                        SeedAction::Finish { result: Err(SeedError::ExtractionPanicked { reason }) }
                    },
                    ExtractionOutcome::Failed { reason } => {
                        self.phase = SeedPhase::Finished;
                        SeedAction::Finish { result: Err(SeedError::Extraction { reason }) }
                    },
                }
            },
            SeedEvent::MarkerWritten => {
                self.phase = SeedPhase::Finished;
                SeedAction::Finish { result: Ok(()) }
            },
            SeedEvent::OperationFailed { reason } => {
                self.phase = SeedPhase::Finished;
                SeedAction::Finish { result: Err(SeedError::Operation { reason }) }
            },
        }
    }
}

/// The session `next` finishes with `result`.
pub open spec fn finishes(next: SeedSession, action: SeedAction, result: Result<(), SeedError>) -> bool {
    next.phase() == SeedPhase::Finished && action == (SeedAction::Finish { result })
}

/// The session `next` is in `phase` and the next action is `action`.
pub open spec fn moves_to(next: SeedSession, phase: SeedPhase, action: SeedAction, expected: SeedAction) -> bool {
    next.phase() == phase && action == expected
}

/// One step of seeding: from `current`, the event `event` leads to `next` and `action`,
/// `timestamp` being the time a marker file written now would record.
pub open spec fn seed_step(
    current: SeedSession,
    event: SeedEvent,
    timestamp: Seq<char>,
    next: SeedSession,
    action: SeedAction,
) -> bool {
    let digest = sha256_digest(current.received());
    &&& next.name() == current.name()
    &&& next.url() == current.url()
    &&& next.expected() == current.expected()
    &&& next.received() == match event {
        SeedEvent::ChunkWritten { chunk } => current.received() + chunk@,
        _ => current.received(),
    }
    &&& next.extracted() == (current.extracted() || event matches SeedEvent::ExtractionFinished {
        outcome: ExtractionOutcome::Extracted,
    })
    &&& match event {
        SeedEvent::MarkerChecked { exists } => if exists {
            finishes(next, action, Ok(()))
        } else {
            moves_to(next, SeedPhase::CreatingDirectory, action, SeedAction::CreateTargetDirectory)
        },
        SeedEvent::DirectoryCreated => moves_to(
            next,
            SeedPhase::StartingProgress,
            action,
            SeedAction::StartProgress,
        ),
        SeedEvent::ProgressStarted => moves_to(
            next,
            SeedPhase::Fetching,
            action,
            SeedAction::Fetch { url: current.url() },
        ),
        SeedEvent::ResponseReceived { status } => if is_success_status(status) {
            moves_to(next, SeedPhase::CreatingTempFile, action, SeedAction::CreateTempFile)
        } else {
            finishes(next, action, Err(SeedError::Status { url: current.url(), status }))
        },
        SeedEvent::FetchFailed { reason } => finishes(
            next,
            action,
            Err(SeedError::Fetch { url: current.url(), reason }),
        ),
        SeedEvent::TempFileCreated => moves_to(
            next,
            SeedPhase::Streaming,
            action,
            SeedAction::ReadNextChunk,
        ),
        SeedEvent::ChunkWritten { chunk } => moves_to(
            next,
            SeedPhase::Streaming,
            action,
            SeedAction::ReadNextChunk,
        ),
        SeedEvent::StreamFailed { reason } => finishes(
            next,
            action,
            Err(SeedError::Stream { reason }),
        ),
        SeedEvent::StreamEnded => if checksum_accepts(opt_chars(current.expected()), digest) {
            moves_to(next, SeedPhase::Extracting, action, SeedAction::Extract)
        } else {
            moves_to(next, SeedPhase::DiscardingMismatch, action, SeedAction::RemoveTempFile)
        },
        SeedEvent::TempFileRemoved => if current.phase() is DiscardingMismatch {
            &&& next.phase() == SeedPhase::Finished
            &&& action matches SeedAction::Finish {
                result: Err(SeedError::ChecksumMismatch { name, expected, calculated }),
            }
            &&& name == current.name()
            &&& Some(expected) == current.expected()
            &&& calculated@ == lower_hex(digest)
        } else {
            &&& next.phase() == SeedPhase::WritingMarker
            &&& action matches SeedAction::WriteMarker { contents }
            &&& contents@ == marker_contents_spec(timestamp)
        },
        SeedEvent::ExtractionFinished { outcome } => match outcome {
            ExtractionOutcome::Extracted => moves_to(
                next,
                SeedPhase::RemovingTemp,
                action,
                SeedAction::RemoveTempFile,
            ),
            ExtractionOutcome::Panicked { reason } => finishes(
                next,
                action,
                Err(SeedError::ExtractionPanicked { reason }),
            ),
            ExtractionOutcome::Failed { reason } => finishes(
                next,
                action,
                Err(SeedError::Extraction { reason }),
            ),
        },
        SeedEvent::MarkerWritten => finishes(next, action, Ok(())),
        SeedEvent::OperationFailed { reason } => finishes(
            next,
            action,
            Err(SeedError::Operation { reason }),
        ),
    }
}

/// What to do with one entry of a cache archive.
#[derive(Debug, Clone, Copy, PartialEq, Eq, Structural)]
pub enum ArchiveEntryPlan {
    /// The entry's name would leave the target directory (or is not a path): skip it.
    Skip,
    /// Create the directory the entry names, with its parents.
    CreateDirectory,
    /// Create the parent directories of the entry, then write its contents to a new file.
    WriteFile,
}

/// Decides how an archive entry is extracted: entries without a name that stays inside the
/// target directory are skipped; directories are created; files are written.
pub fn plan_archive_entry(has_enclosed_name: bool, is_dir: bool) -> (plan: ArchiveEntryPlan)
    ensures
        !has_enclosed_name ==> plan == ArchiveEntryPlan::Skip,
        has_enclosed_name && is_dir ==> plan == ArchiveEntryPlan::CreateDirectory,
        has_enclosed_name && !is_dir ==> plan == ArchiveEntryPlan::WriteFile,
{
    if !has_enclosed_name {
        ArchiveEntryPlan::Skip
    } else if is_dir {
        ArchiveEntryPlan::CreateDirectory
    } else {
        ArchiveEntryPlan::WriteFile
    }
}

/// A cache whose marker file already exists is seeded: the session finishes at once,
/// successfully, having downloaded nothing.
pub proof fn law_existing_marker_skips_download(
    current: SeedSession,
    timestamp: Seq<char>,
    next: SeedSession,
    action: SeedAction,
)
    requires
        current.wf(),
        current.can_take(SeedEvent::MarkerChecked { exists: true }),
        seed_step(current, SeedEvent::MarkerChecked { exists: true }, timestamp, next, action),
    ensures
        action == (SeedAction::Finish { result: Ok(()) }),
        next.phase() is Finished,
        next.received().len() == 0,
{
}

/// The archive is extracted only once its SHA-256 has passed the check against the entry's
/// expected digest.
pub proof fn law_extract_only_after_checksum(
    current: SeedSession,
    event: SeedEvent,
    timestamp: Seq<char>,
    next: SeedSession,
    action: SeedAction,
)
    requires
        current.wf(),
        current.can_take(event),
        seed_step(current, event, timestamp, next, action),
        action is Extract,
    ensures
        checksum_accepts(opt_chars(next.expected()), sha256_digest(next.received())),
{
}

/// The marker file is written last: only after an extraction has finished successfully in
/// the session, and only for a download whose checksum passed.
pub proof fn law_marker_written_last(
    current: SeedSession,
    event: SeedEvent,
    timestamp: Seq<char>,
    next: SeedSession,
    action: SeedAction,
)
    requires
        current.wf(),
        current.can_take(event),
        seed_step(current, event, timestamp, next, action),
        action is WriteMarker,
    ensures
        next.extracted(),
        checksum_accepts(opt_chars(next.expected()), sha256_digest(next.received())),
{
}

/// A session that finishes successfully either found the marker file or wrote it after a
/// successful extraction of a download whose checksum passed.
pub proof fn law_success_is_marker_or_verified_extraction(
    current: SeedSession,
    event: SeedEvent,
    timestamp: Seq<char>,
    next: SeedSession,
    action: SeedAction,
)
    requires
        current.wf(),
        current.can_take(event),
        seed_step(current, event, timestamp, next, action),
        action == (SeedAction::Finish { result: Ok(()) }),
    ensures
        event == (SeedEvent::MarkerChecked { exists: true }) || (event is MarkerWritten
            && next.extracted() && checksum_accepts(
            opt_chars(next.expected()),
            sha256_digest(next.received()),
        )),
{
}

/// A download that fails the checksum is never extracted: the temporary file is removed and
/// the session then finishes with a checksum error naming the expected and the computed
/// digest.
pub proof fn law_mismatch_is_discarded(
    current: SeedSession,
    timestamp: Seq<char>,
    next: SeedSession,
    action: SeedAction,
)
    requires
        current.wf(),
        current.can_take(SeedEvent::TempFileRemoved),
        current.phase() is DiscardingMismatch,
        seed_step(current, SeedEvent::TempFileRemoved, timestamp, next, action),
    ensures
        !next.extracted(),
        !checksum_accepts(opt_chars(current.expected()), sha256_digest(current.received())),
        action matches SeedAction::Finish {
            result: Err(SeedError::ChecksumMismatch { name, expected, calculated }),
        } && calculated@ == lower_hex(sha256_digest(current.received())),
{
}

/// `sessions[k]` takes `events[k]` and becomes `sessions[k + 1]`, answering `actions[k]`,
/// for every step of a seeding run.
pub open spec fn is_run(
    sessions: Seq<SeedSession>,
    events: Seq<SeedEvent>,
    timestamps: Seq<Seq<char>>,
    actions: Seq<SeedAction>,
) -> bool {
    &&& sessions.len() == events.len() + 1
    &&& timestamps.len() == events.len()
    &&& actions.len() == events.len()
    &&& forall|k: int|
        0 <= k < events.len() ==> {
            &&& (#[trigger] sessions[k]).wf()
            &&& sessions[k].can_take(events[k])
            &&& seed_step(sessions[k], events[k], timestamps[k], sessions[k + 1], actions[k])
        }
}

proof fn lemma_run_extracted(
    sessions: Seq<SeedSession>,
    events: Seq<SeedEvent>,
    timestamps: Seq<Seq<char>>,
    actions: Seq<SeedAction>,
    n: int,
)
    requires
        is_run(sessions, events, timestamps, actions),
        !sessions[0].extracted(),
        0 <= n <= events.len(),
        sessions[n].extracted(),
    ensures
        exists|m: int|
            0 <= m < n && #[trigger] events[m] matches SeedEvent::ExtractionFinished {
                outcome: ExtractionOutcome::Extracted,
            },
    decreases n,
{
    if n > 0 {
        let k = n - 1;
        assert(seed_step(sessions[k], events[k], timestamps[k], sessions[k + 1], actions[k]));
        if !(events[k] matches SeedEvent::ExtractionFinished { outcome: ExtractionOutcome::Extracted }) {
            lemma_run_extracted(sessions, events, timestamps, actions, k);
        }
    }
}

/// Over a whole seeding run from a fresh session, the marker file is written only after an
/// extraction of the archive finished successfully earlier in the run, and only for a
/// download whose checksum passed.
pub proof fn law_run_writes_marker_after_extraction(
    sessions: Seq<SeedSession>,
    events: Seq<SeedEvent>,
    timestamps: Seq<Seq<char>>,
    actions: Seq<SeedAction>,
    k: int,
)
    requires
        is_run(sessions, events, timestamps, actions),
        !sessions[0].extracted(),
        0 <= k < events.len(),
        actions[k] is WriteMarker,
    ensures
        exists|m: int|
            0 <= m < k && #[trigger] events[m] matches SeedEvent::ExtractionFinished {
                outcome: ExtractionOutcome::Extracted,
            },
        checksum_accepts(opt_chars(sessions[k].expected()), sha256_digest(sessions[k].received())),
{
    assert(sessions[k].wf() && sessions[k].can_take(events[k]));
    assert(seed_step(sessions[k], events[k], timestamps[k], sessions[k + 1], actions[k]));
    law_marker_written_last(sessions[k], events[k], timestamps[k], sessions[k + 1], actions[k]);
    lemma_run_extracted(sessions, events, timestamps, actions, k + 1);
    let m = choose|m: int|
        0 <= m < k + 1 && #[trigger] events[m] matches SeedEvent::ExtractionFinished {
            outcome: ExtractionOutcome::Extracted,
        };
    assert(events[k] is TempFileRemoved);
}

} // verus!
