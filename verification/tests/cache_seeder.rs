use theseus::cache_seeder::{
    plan_archive_entry, ArchiveEntryPlan,
    default_marker_file, ExtractionOutcome, SeedAction, SeedCacheConfig, SeedCacheEntry, SeedError,
    SeedEvent, SeedPhase, SeedSession, SEED_CACHE_CONFIG_NAME, TEMP_DOWNLOAD_NAME,
};
use theseus::checksum::{checksum_matches, to_lower_hex};
use theseus::timestamp::marker_contents;

const ABC_SHA256: &str = "ba7816bf8f01cfea414140de5dae2223b00361a396177a9cb410ff61f20015ad";
const NOW: &str = "2024-01-02T03:04:05+00:00";

trait StepNow {
    fn step_now(&mut self, event: SeedEvent) -> SeedAction;
}

impl StepNow for SeedSession {
    fn step_now(&mut self, event: SeedEvent) -> SeedAction {
        self.step(event, NOW)
    }
}

const EMPTY_SHA256: &str = "e3b0c44298fc1c149afbf4c8996fb92427ae41e4649b934ca495991b7852b855";

fn entry(sha256: Option<&str>) -> SeedCacheEntry {
    SeedCacheEntry {
        name: "shaders".to_string(),
        url: "https://example.com/cache.zip".to_string(),
        target_path: "cache/shaders".to_string(),
        marker_file: default_marker_file(),
        sha256: sha256.map(|s| s.to_string()),
    }
}

/// Drives a session up to the end of the download of `chunks`, returning the action that
/// follows the end of the stream.
fn download(session: &mut SeedSession, chunks: &[&[u8]]) -> SeedAction {
    assert!(matches!(session.step_now(SeedEvent::MarkerChecked { exists: false }), SeedAction::CreateTargetDirectory));
    assert!(matches!(session.step_now(SeedEvent::DirectoryCreated), SeedAction::StartProgress));
    match session.step_now(SeedEvent::ProgressStarted) {
        SeedAction::Fetch { url } => assert_eq!(url, "https://example.com/cache.zip"),
        other => panic!("unexpected {:?}", other),
    }
    assert!(matches!(session.step_now(SeedEvent::ResponseReceived { status: 200 }), SeedAction::CreateTempFile));
    assert!(matches!(session.step_now(SeedEvent::TempFileCreated), SeedAction::ReadNextChunk));
    for c in chunks {
        assert!(matches!(session.step_now(SeedEvent::ChunkWritten { chunk: c.to_vec() }), SeedAction::ReadNextChunk));
    }
    session.step_now(SeedEvent::StreamEnded)
}

#[test]
fn default_marker_is_current() {
    assert_eq!(default_marker_file(), "CURRENT");
    assert_eq!(SEED_CACHE_CONFIG_NAME, "seed-cache.json");
    assert_eq!(TEMP_DOWNLOAD_NAME, ".tmp_download");
    assert!(SeedCacheConfig::default().caches.is_empty());
}

#[test]
fn lower_hex_of_bytes() {
    assert_eq!(to_lower_hex(&[]), "");
    assert_eq!(to_lower_hex(&[0x00, 0x0f, 0xa0, 0xff]), "000fa0ff");
}

#[test]
fn checksum_ignores_case_and_surrounding_space() {
    assert!(checksum_matches(ABC_SHA256, ABC_SHA256));
    assert!(checksum_matches(ABC_SHA256, &format!("  {}\n", ABC_SHA256.to_uppercase())));
    assert!(checksum_matches(ABC_SHA256, &format!("\u{3000}{}\u{a0}", ABC_SHA256)));
    assert!(!checksum_matches(ABC_SHA256, &ABC_SHA256[1..]));
    assert!(!checksum_matches(ABC_SHA256, &format!("{}0", ABC_SHA256)));
    assert!(!checksum_matches(ABC_SHA256, EMPTY_SHA256));
    assert!(!checksum_matches(ABC_SHA256, &format!("b a{}", &ABC_SHA256[2..])));
    assert!(checksum_matches("", "   "));
}

#[test]
fn marker_contents_record_the_time() {
    assert_eq!(marker_contents("2024-01-02T03:04:05+00:00"), "SEEDED_AT=2024-01-02T03:04:05+00:00\n");
}

#[test]
fn existing_marker_skips_everything() {
    let (mut session, first) = SeedSession::start(&entry(Some(ABC_SHA256)));
    assert!(matches!(first, SeedAction::CheckMarker));
    assert_eq!(session.current_phase(), SeedPhase::CheckingMarker);
    let action = session.step_now(SeedEvent::MarkerChecked { exists: true });
    assert!(matches!(action, SeedAction::Finish { result: Ok(()) }));
    assert!(session.is_finished());
    assert_eq!(session.downloaded(), 0);
}

#[test]
fn verified_download_is_extracted_then_marked() {
    let (mut session, _) = SeedSession::start(&entry(Some(&format!(" {} ", ABC_SHA256.to_uppercase()))));
    let action = download(&mut session, &[b"a", b"", b"bc"]);
    assert_eq!(session.downloaded(), 3);
    assert!(matches!(action, SeedAction::Extract));
    let action = session.step_now(SeedEvent::ExtractionFinished { outcome: ExtractionOutcome::Extracted });
    assert!(matches!(action, SeedAction::RemoveTempFile));
    let action = session.step_now(SeedEvent::TempFileRemoved);
    match action {
        SeedAction::WriteMarker { contents } => {
            assert_eq!(contents, "SEEDED_AT=2024-01-02T03:04:05+00:00\n");
        }
        other => panic!("unexpected {:?}", other),
    }
    assert_eq!(session.current_phase(), SeedPhase::WritingMarker);
    assert!(matches!(session.step_now(SeedEvent::MarkerWritten), SeedAction::Finish { result: Ok(()) }));
    assert!(session.is_finished());
}

#[test]
fn marker_written_with_given_time() {
    let (mut session, _) = SeedSession::start(&entry(None));
    assert!(matches!(download(&mut session, &[b"zip bytes"]), SeedAction::Extract));
    session.step_now(SeedEvent::ExtractionFinished { outcome: ExtractionOutcome::Extracted });
    match session.step(SeedEvent::TempFileRemoved, "2025-05-06T07:08:09.5+00:00") {
        SeedAction::WriteMarker { contents } => {
            assert_eq!(contents, "SEEDED_AT=2025-05-06T07:08:09.5+00:00\n")
        }
        other => panic!("unexpected {:?}", other),
    }
}

#[test]
fn download_without_expected_checksum_is_extracted() {
    let (mut session, _) = SeedSession::start(&entry(None));
    assert!(matches!(download(&mut session, &[]), SeedAction::Extract));
}

#[test]
fn checksum_mismatch_discards_download() {
    let (mut session, _) = SeedSession::start(&entry(Some(EMPTY_SHA256)));
    let action = download(&mut session, &[b"ab", b"c"]);
    assert!(matches!(action, SeedAction::RemoveTempFile));
    assert_eq!(session.current_phase(), SeedPhase::DiscardingMismatch);
    match session.step_now(SeedEvent::TempFileRemoved) {
        SeedAction::Finish { result: Err(SeedError::ChecksumMismatch { name, expected, calculated }) } => {
            assert_eq!(name, "shaders");
            assert_eq!(expected, EMPTY_SHA256);
            assert_eq!(calculated, ABC_SHA256);
        }
        other => panic!("unexpected {:?}", other),
    }
}

#[test]
fn empty_download_digest() {
    let (mut session, _) = SeedSession::start(&entry(Some("0000")));
    assert!(matches!(download(&mut session, &[]), SeedAction::RemoveTempFile));
    match session.step_now(SeedEvent::TempFileRemoved) {
        SeedAction::Finish { result: Err(SeedError::ChecksumMismatch { calculated, expected, .. }) } => {
            assert_eq!(calculated, EMPTY_SHA256);
            assert_eq!(expected, "0000");
        }
        other => panic!("unexpected {:?}", other),
    }
}

#[test]
fn bad_status_fails() {
    let (mut session, _) = SeedSession::start(&entry(None));
    session.step_now(SeedEvent::MarkerChecked { exists: false });
    session.step_now(SeedEvent::DirectoryCreated);
    session.step_now(SeedEvent::ProgressStarted);
    match session.step_now(SeedEvent::ResponseReceived { status: 404 }) {
        SeedAction::Finish { result: Err(SeedError::Status { url, status }) } => {
            assert_eq!(url, "https://example.com/cache.zip");
            assert_eq!(status, 404);
        }
        other => panic!("unexpected {:?}", other),
    }
}

#[test]
fn status_range_edges() {
    for (status, ok) in [(199u16, false), (200, true), (204, true), (299, true), (300, false), (500, false)] {
        let (mut session, _) = SeedSession::start(&entry(None));
        session.step_now(SeedEvent::MarkerChecked { exists: false });
        session.step_now(SeedEvent::DirectoryCreated);
        session.step_now(SeedEvent::ProgressStarted);
        let action = session.step_now(SeedEvent::ResponseReceived { status });
        assert_eq!(matches!(action, SeedAction::CreateTempFile), ok);
    }
}

#[test]
fn fetch_failure_fails() {
    let (mut session, _) = SeedSession::start(&entry(None));
    session.step_now(SeedEvent::MarkerChecked { exists: false });
    session.step_now(SeedEvent::DirectoryCreated);
    session.step_now(SeedEvent::ProgressStarted);
    match session.step_now(SeedEvent::FetchFailed { reason: "dns".to_string() }) {
        SeedAction::Finish { result: Err(SeedError::Fetch { url, reason }) } => {
            assert_eq!(url, "https://example.com/cache.zip");
            assert_eq!(reason, "dns");
        }
        other => panic!("unexpected {:?}", other),
    }
}

#[test]
fn stream_failure_fails() {
    let (mut session, _) = SeedSession::start(&entry(None));
    session.step_now(SeedEvent::MarkerChecked { exists: false });
    session.step_now(SeedEvent::DirectoryCreated);
    session.step_now(SeedEvent::ProgressStarted);
    session.step_now(SeedEvent::ResponseReceived { status: 200 });
    session.step_now(SeedEvent::TempFileCreated);
    session.step_now(SeedEvent::ChunkWritten { chunk: vec![1, 2, 3] });
    match session.step_now(SeedEvent::StreamFailed { reason: "reset".to_string() }) {
        SeedAction::Finish { result: Err(SeedError::Stream { reason }) } => assert_eq!(reason, "reset"),
        other => panic!("unexpected {:?}", other),
    }
}

#[test]
fn local_operation_failure_fails() {
    let (mut session, _) = SeedSession::start(&entry(None));
    session.step_now(SeedEvent::MarkerChecked { exists: false });
    match session.step_now(SeedEvent::OperationFailed { reason: "permission denied".to_string() }) {
        SeedAction::Finish { result: Err(SeedError::Operation { reason }) } => {
            assert_eq!(reason, "permission denied")
        }
        other => panic!("unexpected {:?}", other),
    }
}

#[test]
fn extraction_failures_fail_without_marker() {
    let (mut session, _) = SeedSession::start(&entry(None));
    download(&mut session, &[b"x"]);
    match session.step_now(SeedEvent::ExtractionFinished {
        outcome: ExtractionOutcome::Failed { reason: "bad zip".to_string() },
    }) {
        SeedAction::Finish { result: Err(SeedError::Extraction { reason }) } => assert_eq!(reason, "bad zip"),
        other => panic!("unexpected {:?}", other),
    }
    let (mut session, _) = SeedSession::start(&entry(None));
    download(&mut session, &[b"x"]);
    match session.step_now(SeedEvent::ExtractionFinished {
        outcome: ExtractionOutcome::Panicked { reason: "join".to_string() },
    }) {
        SeedAction::Finish { result: Err(SeedError::ExtractionPanicked { reason }) } => {
            assert_eq!(reason, "join")
        }
        other => panic!("unexpected {:?}", other),
    }
}

#[test]
fn marker_write_failure_fails() {
    let (mut session, _) = SeedSession::start(&entry(None));
    download(&mut session, &[b"x"]);
    session.step_now(SeedEvent::ExtractionFinished { outcome: ExtractionOutcome::Extracted });
    session.step_now(SeedEvent::TempFileRemoved);
    match session.step_now(SeedEvent::OperationFailed { reason: "disk full".to_string() }) {
        SeedAction::Finish { result: Err(SeedError::Operation { reason }) } => assert_eq!(reason, "disk full"),
        other => panic!("unexpected {:?}", other),
    }
}

#[test]
fn archive_entries_outside_target_are_skipped() {
    assert_eq!(plan_archive_entry(false, false), ArchiveEntryPlan::Skip);
    assert_eq!(plan_archive_entry(false, true), ArchiveEntryPlan::Skip);
    assert_eq!(plan_archive_entry(true, true), ArchiveEntryPlan::CreateDirectory);
    assert_eq!(plan_archive_entry(true, false), ArchiveEntryPlan::WriteFile);
}
