use sumrzr::download::{DownloadAction, DownloadEvent, DownloadJob, DownloadStage, HttpReply};
use sumrzr::model_download::find_model;

fn job() -> DownloadJob {
    DownloadJob::new(find_model("gemma-3n-e2b").unwrap(), "/m/google_gemma-3n-E2B-it-Q4_K_M.gguf".to_string())
}

fn ok_reply(len: Option<u64>) -> DownloadEvent {
    DownloadEvent::Responded(Ok(HttpReply { status: 200, status_text: "200 OK".to_string(), content_length: len }))
}

fn finish_err(a: DownloadAction) -> String {
    match a {
        DownloadAction::Finish(Err(m)) => m,
        other => panic!("{:?}", other),
    }
}

#[test]
fn existing_file_is_returned_at_once() {
    let mut j = job();
    assert!(matches!(j.advance(DownloadEvent::DirCreated(Ok(()))), DownloadAction::CheckDestExists));
    match j.advance(DownloadEvent::DestChecked(true)) {
        DownloadAction::Finish(Ok(p)) => assert_eq!(p, "/m/google_gemma-3n-E2B-it-Q4_K_M.gguf"),
        other => panic!("{:?}", other),
    }
    assert_eq!(j.stage, DownloadStage::Done);
}

#[test]
fn full_download_reports_each_percentage_once() {
    let mut j = job();
    j.advance(DownloadEvent::DirCreated(Ok(())));
    match j.advance(DownloadEvent::DestChecked(false)) {
        DownloadAction::SendRequest { url } => assert_eq!(
            url,
            "https://huggingface.co/bartowski/google_gemma-3n-E2B-it-GGUF/resolve/main/google_gemma-3n-E2B-it-Q4_K_M.gguf"
        ),
        other => panic!("{:?}", other),
    }
    assert!(matches!(j.advance(ok_reply(Some(1000))), DownloadAction::CreatePartialFile));
    assert_eq!(j.total, 1000);
    assert!(matches!(j.advance(DownloadEvent::FileCreated(Ok(()))), DownloadAction::NextChunk));
    let mut reports = Vec::new();
    for (len, pct) in [(5u64, 0), (5, 1), (1, 1), (989, 100)] {
        assert!(matches!(j.advance(DownloadEvent::ChunkReceived(Some(Ok(len)))), DownloadAction::WriteChunk));
        match j.advance(DownloadEvent::ChunkWritten(Ok(()))) {
            DownloadAction::ComputePercent { downloaded, total } => {
                assert_eq!(downloaded, j.downloaded);
                assert_eq!(total, 1000);
            }
            other => panic!("{:?}", other),
        }
        match j.advance(DownloadEvent::PercentComputed(pct)) {
            DownloadAction::EmitProgress(r) => {
                assert_eq!(r.model_id, "gemma-3n-e2b");
                reports.push((r.percent, r.downloaded_bytes, r.total_bytes));
                assert!(matches!(j.advance(DownloadEvent::ProgressEmitted), DownloadAction::NextChunk));
            }
            DownloadAction::NextChunk => {}
            other => panic!("{:?}", other),
        }
    }
    assert_eq!(reports, vec![(0, 5, 1000), (1, 10, 1000), (100, 1000, 1000)]);
    assert!(matches!(j.advance(DownloadEvent::ChunkReceived(None)), DownloadAction::SyncFile));
    assert!(matches!(j.advance(DownloadEvent::Synced(Ok(()))), DownloadAction::RenamePartial));
    match j.advance(DownloadEvent::Renamed(true)) {
        DownloadAction::EmitComplete { model_id } => assert_eq!(model_id, "gemma-3n-e2b"),
        other => panic!("{:?}", other),
    }
    match j.advance(DownloadEvent::CompleteEmitted) {
        DownloadAction::Finish(Ok(p)) => assert_eq!(p, "/m/google_gemma-3n-E2B-it-Q4_K_M.gguf"),
        other => panic!("{:?}", other),
    }
}

#[test]
fn missing_content_length_falls_back_to_catalogue_size() {
    let mut j = job();
    j.advance(DownloadEvent::DirCreated(Ok(())));
    j.advance(DownloadEvent::DestChecked(false));
    j.advance(ok_reply(None));
    assert_eq!(j.total, 1_850_000_000);
}

#[test]
fn failed_rename_falls_back_to_copy() {
    let mut j = job();
    for e in [
        DownloadEvent::DirCreated(Ok(())),
        DownloadEvent::DestChecked(false),
        ok_reply(Some(0)),
        DownloadEvent::FileCreated(Ok(())),
        DownloadEvent::ChunkReceived(None),
        DownloadEvent::Synced(Ok(())),
    ] {
        j.advance(e);
    }
    assert!(matches!(j.advance(DownloadEvent::Renamed(false)), DownloadAction::CopyPartial));
    assert!(matches!(j.advance(DownloadEvent::Copied(Ok(()))), DownloadAction::RemovePartial));
    assert!(matches!(j.advance(DownloadEvent::PartialRemoved), DownloadAction::EmitComplete { .. }));
    assert!(matches!(j.advance(DownloadEvent::CompleteEmitted), DownloadAction::Finish(Ok(_))));
}

#[test]
fn each_failure_has_its_message() {
    let mut j = job();
    assert_eq!(finish_err(j.advance(DownloadEvent::DirCreated(Err("ro".into())))), "Kunde inte skapa katalog: ro");

    let mut j = job();
    j.advance(DownloadEvent::DirCreated(Ok(())));
    j.advance(DownloadEvent::DestChecked(false));
    assert_eq!(finish_err(j.advance(DownloadEvent::Responded(Err("dns".into())))), "Nedladdningsfel: dns");

    let mut j = job();
    j.advance(DownloadEvent::DirCreated(Ok(())));
    j.advance(DownloadEvent::DestChecked(false));
    let reply = HttpReply { status: 404, status_text: "404 Not Found".into(), content_length: Some(15) };
    assert_eq!(
        finish_err(j.advance(DownloadEvent::Responded(Ok(reply)))),
        "Nedladdningsfel: HTTP 404 Not Found"
    );

    let mut j = job();
    j.advance(DownloadEvent::DirCreated(Ok(())));
    j.advance(DownloadEvent::DestChecked(false));
    j.advance(ok_reply(Some(9)));
    assert_eq!(finish_err(j.advance(DownloadEvent::FileCreated(Err("full".into())))), "Kunde inte skapa fil: full");

    let mut j = job();
    for e in [DownloadEvent::DirCreated(Ok(())), DownloadEvent::DestChecked(false), ok_reply(Some(9)), DownloadEvent::FileCreated(Ok(()))] {
        j.advance(e);
    }
    assert_eq!(
        finish_err(j.advance(DownloadEvent::ChunkReceived(Some(Err("reset".into()))))),
        "Nedladdningsfel: reset"
    );

    let mut j = job();
    for e in [DownloadEvent::DirCreated(Ok(())), DownloadEvent::DestChecked(false), ok_reply(Some(9)), DownloadEvent::FileCreated(Ok(())), DownloadEvent::ChunkReceived(Some(Ok(3)))] {
        j.advance(e);
    }
    assert_eq!(finish_err(j.advance(DownloadEvent::ChunkWritten(Err("disk".into())))), "Skrivfel: disk");

    let mut j = job();
    for e in [DownloadEvent::DirCreated(Ok(())), DownloadEvent::DestChecked(false), ok_reply(Some(9)), DownloadEvent::FileCreated(Ok(())), DownloadEvent::ChunkReceived(None)] {
        j.advance(e);
    }
    assert_eq!(finish_err(j.advance(DownloadEvent::Synced(Err("io".into())))), "Sync-fel: io");

    let mut j = job();
    for e in [DownloadEvent::DirCreated(Ok(())), DownloadEvent::DestChecked(false), ok_reply(Some(9)), DownloadEvent::FileCreated(Ok(())), DownloadEvent::ChunkReceived(None), DownloadEvent::Synced(Ok(())), DownloadEvent::Renamed(false)] {
        j.advance(e);
    }
    assert_eq!(
        finish_err(j.advance(DownloadEvent::Copied(Err("busy".into())))),
        "Kunde inte kopiera temp-filen: busy"
    );
    assert!(!j.accepts(&DownloadEvent::CompleteEmitted));
}

#[test]
fn counter_overflow_is_not_accepted() {
    let mut j = job();
    for e in [DownloadEvent::DirCreated(Ok(())), DownloadEvent::DestChecked(false), ok_reply(Some(9)), DownloadEvent::FileCreated(Ok(()))] {
        j.advance(e);
    }
    j.downloaded = u64::MAX - 1;
    j.advance(DownloadEvent::ChunkReceived(Some(Ok(2))));
    assert!(!j.accepts(&DownloadEvent::ChunkWritten(Ok(()))));
    assert!(j.accepts(&DownloadEvent::ChunkWritten(Err("x".into()))));
}

/// Runs a download, answering from `answer`, and returns the names of its
/// actions in order.
fn run(mut answer: impl FnMut(&DownloadAction) -> DownloadEvent) -> Vec<String> {
    let mut j = job();
    let mut action = DownloadAction::CreateModelsDir;
    let mut log = Vec::new();
    loop {
        let name = format!("{:?}", action);
        log.push(name.split(|c: char| !c.is_alphanumeric()).next().unwrap().to_string());
        if let DownloadAction::Finish(r) = &action {
            log.push(if r.is_ok() { "Ok".into() } else { "Err".into() });
            return log;
        }
        let ev = answer(&action);
        assert!(j.accepts(&ev));
        action = j.advance(ev);
    }
}

fn answer_ok(a: &DownloadAction, chunks: &mut Vec<u64>) -> DownloadEvent {
    match a {
        DownloadAction::CreateModelsDir => DownloadEvent::DirCreated(Ok(())),
        DownloadAction::CheckDestExists => DownloadEvent::DestChecked(false),
        DownloadAction::SendRequest { .. } => ok_reply(Some(100)),
        DownloadAction::CreatePartialFile => DownloadEvent::FileCreated(Ok(())),
        DownloadAction::NextChunk => DownloadEvent::ChunkReceived(chunks.pop().map(Ok)),
        DownloadAction::WriteChunk => DownloadEvent::ChunkWritten(Ok(())),
        DownloadAction::ComputePercent { downloaded, total } => {
            DownloadEvent::PercentComputed((downloaded * 100 / total) as i32)
        }
        DownloadAction::EmitProgress(_) => DownloadEvent::ProgressEmitted,
        DownloadAction::SyncFile => DownloadEvent::Synced(Ok(())),
        DownloadAction::RenamePartial => DownloadEvent::Renamed(true),
        DownloadAction::CopyPartial => DownloadEvent::Copied(Ok(())),
        DownloadAction::RemovePartial => DownloadEvent::PartialRemoved,
        DownloadAction::EmitComplete { .. } => DownloadEvent::CompleteEmitted,
        DownloadAction::Finish(_) => unreachable!(),
    }
}

#[test]
fn completion_is_announced_once_after_progress_and_only_on_success() {
    let mut chunks = vec![50, 30, 20];
    let log = run(|a| answer_ok(a, &mut chunks));
    let completes: Vec<usize> = (0..log.len()).filter(|&i| log[i] == "EmitComplete").collect();
    assert_eq!(completes.len(), 1);
    let last_progress = (0..log.len()).filter(|&i| log[i] == "EmitProgress").max().unwrap();
    assert!(last_progress < completes[0]);
    assert_eq!(&log[log.len() - 2..], &["Finish".to_string(), "Ok".to_string()]);

    let mut chunks = vec![50, 50];
    let log = run(|a| match a {
        DownloadAction::CopyPartial => DownloadEvent::Copied(Err("locked".into())),
        DownloadAction::RenamePartial => DownloadEvent::Renamed(false),
        other => answer_ok(other, &mut chunks),
    });
    assert!(!log.contains(&"EmitComplete".to_string()));
    assert_eq!(log.last().unwrap(), "Err");

    let log = run(|a| match a {
        DownloadAction::CheckDestExists => DownloadEvent::DestChecked(true),
        other => answer_ok(other, &mut Vec::new()),
    });
    assert!(!log.contains(&"SendRequest".to_string()) && !log.contains(&"EmitComplete".to_string()));
    assert_eq!(log.last().unwrap(), "Ok");
}
