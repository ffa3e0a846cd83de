use libobs_wrapper::bootstrap::progress::{
    bootstrap_start, bootstrap_step, BootstrapAction, BootstrapEvent, BootstrapPhase,
};

fn run(events: Vec<BootstrapEvent>) -> (BootstrapPhase, Vec<BootstrapAction>) {
    let mut phase = bootstrap_start();
    let mut actions = Vec::new();
    for e in events {
        let (p, a) = bootstrap_step(phase, e);
        phase = p;
        actions.push(a);
    }
    (phase, actions)
}

#[test]
fn full_bootstrap_requires_restart() {
    let (phase, actions) = run(vec![
        BootstrapEvent::DownloadOpened(Ok(())),
        BootstrapEvent::DownloadProgress,
        BootstrapEvent::DownloadDone("/tmp/obs.7z".to_string()),
        BootstrapEvent::StreamEnded,
        BootstrapEvent::ExtractionOpened(Ok(())),
        BootstrapEvent::ExtractionProgress,
        BootstrapEvent::StreamEnded,
        BootstrapEvent::UpdaterStarted(Ok(())),
    ]);
    assert!(matches!(phase, BootstrapPhase::Finished));
    assert!(matches!(actions[0], BootstrapAction::ReadNext));
    assert!(matches!(actions[1], BootstrapAction::ReportDownloading));
    assert!(matches!(actions[2], BootstrapAction::ReadNext));
    match &actions[3] {
        BootstrapAction::StartExtraction(p) => assert_eq!(p, "/tmp/obs.7z"),
        other => panic!("unexpected action {:?}", other),
    }
    assert!(matches!(actions[4], BootstrapAction::ReadNext));
    assert!(matches!(actions[5], BootstrapAction::ReportExtracting));
    assert!(matches!(actions[6], BootstrapAction::StartUpdater));
    assert!(matches!(actions[7], BootstrapAction::ReportRestartRequired));
}

#[test]
fn download_without_archive_is_an_error() {
    let (phase, actions) = run(vec![
        BootstrapEvent::DownloadOpened(Ok(())),
        BootstrapEvent::DownloadProgress,
        BootstrapEvent::StreamEnded,
    ]);
    assert!(matches!(phase, BootstrapPhase::Finished));
    match &actions[2] {
        BootstrapAction::ReportError(e) => assert_eq!(e, "OBS Archive could not be downloaded."),
        other => panic!("unexpected action {:?}", other),
    }
}

#[test]
fn last_archive_is_extracted() {
    let (_, actions) = run(vec![
        BootstrapEvent::DownloadOpened(Ok(())),
        BootstrapEvent::DownloadDone("first".to_string()),
        BootstrapEvent::DownloadDone("second".to_string()),
        BootstrapEvent::StreamEnded,
    ]);
    match &actions[3] {
        BootstrapAction::StartExtraction(p) => assert_eq!(p, "second"),
        other => panic!("unexpected action {:?}", other),
    }
}

#[test]
fn failures_end_the_bootstrap() {
    let (phase, actions) = run(vec![BootstrapEvent::DownloadOpened(Err("no network".to_string()))]);
    assert!(matches!(phase, BootstrapPhase::Finished));
    assert!(matches!(&actions[0], BootstrapAction::ReportError(e) if e == "no network"));

    let (phase, actions) = run(vec![
        BootstrapEvent::DownloadOpened(Ok(())),
        BootstrapEvent::DownloadError("broken".to_string()),
        BootstrapEvent::DownloadProgress,
    ]);
    assert!(matches!(phase, BootstrapPhase::Finished));
    assert!(matches!(&actions[1], BootstrapAction::ReportError(e) if e == "broken"));
    assert!(matches!(actions[2], BootstrapAction::Ignore));

    let (phase, actions) = run(vec![
        BootstrapEvent::DownloadOpened(Ok(())),
        BootstrapEvent::DownloadDone("a".to_string()),
        BootstrapEvent::StreamEnded,
        BootstrapEvent::ExtractionOpened(Ok(())),
        BootstrapEvent::ExtractionError("bad archive".to_string()),
    ]);
    assert!(matches!(phase, BootstrapPhase::Finished));
    assert!(matches!(&actions[4], BootstrapAction::ReportError(e) if e == "bad archive"));

    let (phase, actions) = run(vec![
        BootstrapEvent::DownloadOpened(Ok(())),
        BootstrapEvent::DownloadDone("a".to_string()),
        BootstrapEvent::StreamEnded,
        BootstrapEvent::ExtractionOpened(Ok(())),
        BootstrapEvent::StreamEnded,
        BootstrapEvent::UpdaterStarted(Err("spawn failed".to_string())),
    ]);
    assert!(matches!(phase, BootstrapPhase::Finished));
    assert!(matches!(&actions[5], BootstrapAction::ReportError(e) if e == "spawn failed"));
}

#[test]
fn events_out_of_phase_are_ignored() {
    let (phase, actions) = run(vec![BootstrapEvent::ExtractionProgress]);
    assert!(matches!(phase, BootstrapPhase::OpeningDownload));
    assert!(matches!(actions[0], BootstrapAction::Ignore));
}
