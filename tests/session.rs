use designer_helper::error::HelperError;
use designer_helper::port_text::encode_port;
use designer_helper::record::decode_record;
use designer_helper::session::{advance, Event, Phase};

fn failed(error: HelperError) -> Phase {
    Phase::Failed { error }
}

#[test]
fn missing_record_goes_straight_to_launch() {
    let p = advance(Phase::LoadRecord, &Event::RecordRead { contents: None });
    assert_eq!(p, Phase::Locate);
}

#[test]
fn empty_record_goes_straight_to_launch() {
    let p = advance(Phase::LoadRecord, &Event::RecordRead { contents: Some(Vec::new()) });
    assert_eq!(p, Phase::Locate);
    let p = advance(Phase::LoadRecord, &Event::RecordRead { contents: Some(b" \n".to_vec()) });
    assert_eq!(p, Phase::Locate);
}

#[test]
fn zero_port_goes_straight_to_launch() {
    let p = advance(Phase::LoadRecord, &Event::RecordRead { contents: Some(b"0".to_vec()) });
    assert_eq!(p, Phase::Locate);
}

#[test]
fn corrupt_record_fails_the_invocation() {
    let p = advance(Phase::LoadRecord, &Event::RecordRead { contents: Some(b"x1".to_vec()) });
    assert_eq!(p, failed(HelperError::PersistReadCorrupt));
}

#[test]
fn fresh_start_launches_and_records_the_announced_port() {
    let mut p = Phase::CheckWorkItem;
    p = advance(p, &Event::WorkItemChecked { exists: true });
    assert_eq!(p, Phase::LoadRecord);
    p = advance(p, &Event::RecordRead { contents: None });
    assert_eq!(p, Phase::Locate);
    p = advance(p, &Event::Located { found: true });
    assert_eq!(p, Phase::Spawn);
    p = advance(p, &Event::Spawned { ok: true });
    assert_eq!(p, Phase::ReadAnnouncement);
    p = advance(p, &Event::ChunkRead { chunk: Some(b"9000\n".to_vec()) });
    assert_eq!(p, Phase::StorePort { port: 9000 });
    let stored = match p {
        Phase::StorePort { port } => encode_port(port),
        _ => unreachable!(),
    };
    assert_eq!(stored, b"9000".to_vec());
    p = advance(p, &Event::Stored { ok: true });
    assert_eq!(p, Phase::Launched);
    assert!(p.is_done());
    assert_eq!(decode_record(&stored), Ok(Some(9000)));
}

#[test]
fn live_server_receives_the_work_item_without_a_launch() {
    let mut p = Phase::CheckWorkItem;
    p = advance(p, &Event::WorkItemChecked { exists: true });
    p = advance(p, &Event::RecordRead { contents: Some(b"9000".to_vec()) });
    assert_eq!(p, Phase::Probe { port: 9000 });
    p = advance(p, &Event::Probed { delivered: true });
    assert_eq!(p, Phase::Delivered);
    assert!(p.is_done());
    assert_eq!(advance(p, &Event::Located { found: true }), Phase::Delivered);
}

#[test]
fn stale_port_leads_to_a_launch() {
    let mut p = Phase::CheckWorkItem;
    p = advance(p, &Event::WorkItemChecked { exists: true });
    p = advance(p, &Event::RecordRead { contents: Some(b"9000".to_vec()) });
    assert_eq!(p, Phase::Probe { port: 9000 });
    p = advance(p, &Event::Probed { delivered: false });
    assert_eq!(p, Phase::Locate);
    assert!(!p.is_done());
}

#[test]
fn missing_work_item_fails_before_the_record_is_read() {
    let p = advance(Phase::CheckWorkItem, &Event::WorkItemChecked { exists: false });
    assert_eq!(p, failed(HelperError::InvalidInput));
    assert!(p.is_done());
}

#[test]
fn blank_chunks_keep_the_launcher_reading() {
    let p = advance(Phase::ReadAnnouncement, &Event::ChunkRead { chunk: Some(b"\n".to_vec()) });
    assert_eq!(p, Phase::ReadAnnouncement);
}

#[test]
fn launch_failures() {
    assert_eq!(
        advance(Phase::Locate, &Event::Located { found: false }),
        failed(HelperError::ExecutableNotFound)
    );
    assert_eq!(
        advance(Phase::Spawn, &Event::Spawned { ok: false }),
        failed(HelperError::SpawnFailed)
    );
    assert_eq!(
        advance(Phase::ReadAnnouncement, &Event::ChunkRead { chunk: None }),
        failed(HelperError::AnnouncementUnreadable)
    );
    assert_eq!(
        advance(Phase::ReadAnnouncement, &Event::ChunkRead { chunk: Some(Vec::new()) }),
        failed(HelperError::AnnouncementUnreadable)
    );
    assert_eq!(
        advance(Phase::ReadAnnouncement, &Event::ChunkRead { chunk: Some(b"ready\n".to_vec()) }),
        failed(HelperError::MalformedPort)
    );
    assert_eq!(
        advance(Phase::StorePort { port: 9000 }, &Event::Stored { ok: false }),
        failed(HelperError::PersistWriteFailed)
    );
}

#[test]
fn an_event_that_does_not_answer_the_phase_changes_nothing() {
    assert_eq!(advance(Phase::LoadRecord, &Event::Probed { delivered: true }), Phase::LoadRecord);
    assert_eq!(
        advance(Phase::Probe { port: 1 }, &Event::Stored { ok: true }),
        Phase::Probe { port: 1 }
    );
    let done = failed(HelperError::SpawnFailed);
    assert_eq!(advance(done, &Event::Spawned { ok: true }), done);
}

#[test]
fn record_with_plus_sign_is_probed() {
    let p = advance(Phase::LoadRecord, &Event::RecordRead { contents: Some(b"+9000".to_vec()) });
    assert_eq!(p, Phase::Probe { port: 9000 });
    assert_eq!(advance(p, &Event::Probed { delivered: true }), Phase::Delivered);
}

#[test]
fn record_of_unicode_whitespace_goes_straight_to_launch() {
    let contents = Some("\u{a0}\u{3000}\n".as_bytes().to_vec());
    assert_eq!(advance(Phase::LoadRecord, &Event::RecordRead { contents }), Phase::Locate);
}

#[test]
fn silent_server_fails_at_the_deadline() {
    let p = advance(Phase::ReadAnnouncement, &Event::DeadlinePassed);
    assert_eq!(p, failed(HelperError::AnnouncementTimeout));
    assert!(p.is_done());
    assert_eq!(advance(Phase::Spawn, &Event::DeadlinePassed), Phase::Spawn);
}
