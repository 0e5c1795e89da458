use protonup_core::apps::{resolve, Application};
use protonup_core::errors::{FailReason, Stage};
use protonup_core::extract::classify_extracted;
use protonup_core::installer::{committed_version, Action, Event, InstallState, RootShape};
use protonup_core::release::Release;
use protonup_core::store::DirEntry;

fn lutris_release() -> Release {
    Release {
        tag_name: "GE-Proton9-1".to_string(),
        asset_url: "https://example.invalid/GE-Proton9-1.tar.gz".to_string(),
        published_at: 1_700_000_000,
    }
}

fn dir(name: &str) -> DirEntry {
    DirEntry {
        name: name.to_string(),
        is_directory: true,
    }
}

#[test]
fn fresh_install_walks_all_stages_and_commits() {
    let (state, action) = InstallState::start(false);
    assert_eq!(action, Action::Resolve);

    let target = resolve(Application::Lutris, "/home/user", true).unwrap();
    assert_eq!(
        target.install_dir,
        "/home/user/.local/share/lutris/runners/wine"
    );

    let (state, action) = state.step(Event::Resolved {
        target,
        release: lutris_release(),
    });
    assert_eq!(action, Action::ScanInstallDir);

    // No existing installs: the scan comes back empty.
    let (state, action) = state.step(Event::Existing { entries: vec![] });
    assert_eq!(action, Action::FetchArchive);

    let (state, action) = state.step(Event::Downloaded);
    assert_eq!(action, Action::ExtractArchive);

    let staged = vec![dir("GE-Proton9-1")];
    let root = classify_extracted(&staged);
    assert!(matches!(root, RootShape::SingleDir(ref n) if n == "GE-Proton9-1"));
    let (state, action) = state.step(Event::Extracted { root });
    assert_eq!(
        action,
        Action::CommitMove {
            replace_existing: false
        }
    );

    let (state, action) = state.step(Event::Committed);
    assert_eq!(action, Action::Finish);
    match state {
        InstallState::Done { ctx, skipped } => {
            assert!(!skipped);
            let v = committed_version(&ctx);
            assert_eq!(v.version_id, "GE-Proton9-1");
            assert_eq!(
                v.install_path,
                "/home/user/.local/share/lutris/runners/wine/GE-Proton9-1"
            );
        }
        _ => panic!("expected a finished install"),
    }
}

#[test]
fn second_run_skips_without_fetching() {
    let (state, _) = InstallState::start(false);
    let target = resolve(Application::Lutris, "/home/user", true).unwrap();
    let (state, _) = state.step(Event::Resolved {
        target,
        release: lutris_release(),
    });
    // The first run committed GE-Proton9-1, so the scan now reports it.
    let (state, action) = state.step(Event::Existing {
        entries: vec![dir("GE-Proton9-1")],
    });
    assert_eq!(action, Action::Finish);
    match state {
        InstallState::Done { skipped, .. } => assert!(skipped),
        _ => panic!("expected already-installed to finish as a success"),
    }
}

#[test]
fn cancelled_download_never_commits() {
    let (state, _) = InstallState::start(false);
    let target = resolve(Application::Steam, "/home/user", true).unwrap();
    let (state, _) = state.step(Event::Resolved {
        target,
        release: lutris_release(),
    });
    let (state, action) = state.step(Event::Existing { entries: vec![] });
    assert_eq!(action, Action::FetchArchive);
    let (state, action) = state.step(Event::DownloadCancelled);
    assert_eq!(action, Action::Finish);
    match &state {
        InstallState::Failed { failure } => {
            assert_eq!(failure.stage, Stage::Downloading);
            assert!(matches!(failure.reason, FailReason::Cancelled));
        }
        _ => panic!("expected the attempt to fail in the downloading stage"),
    }
    // Whatever is reported afterwards, the attempt stays failed and never
    // asks for a commit.
    let (state, action) = state.step(Event::Committed);
    assert_eq!(action, Action::Finish);
    assert!(matches!(state, InstallState::Failed { .. }));
}

#[test]
fn failed_download_reports_reason() {
    let (state, _) = InstallState::start(false);
    let target = resolve(Application::Lutris, "/home/user", true).unwrap();
    let (state, _) = state.step(Event::Resolved {
        target,
        release: lutris_release(),
    });
    let (state, _) = state.step(Event::Existing { entries: vec![] });
    let (state, _) = state.step(Event::DownloadFailed {
        reason: "connection reset".to_string(),
    });
    match state {
        InstallState::Failed { failure } => {
            assert_eq!(failure.stage, Stage::Downloading);
            match failure.reason {
                FailReason::Download(r) => assert_eq!(r, "connection reset"),
                _ => panic!("expected a download failure reason"),
            }
        }
        _ => panic!("expected a failed attempt"),
    }
}

#[test]
fn force_redownloads_and_replaces() {
    let (state, _) = InstallState::start(true);
    let target = resolve(Application::Lutris, "/home/user", true).unwrap();
    let (state, _) = state.step(Event::Resolved {
        target,
        release: lutris_release(),
    });
    // Already installed, but force is set: download anyway.
    let (state, action) = state.step(Event::Existing {
        entries: vec![dir("GE-Proton9-1")],
    });
    assert_eq!(action, Action::FetchArchive);
    let (state, _) = state.step(Event::Downloaded);
    let staged = vec![dir("GE-Proton9-1")];
    let root = classify_extracted(&staged);
    let (_, action) = state.step(Event::Extracted { root });
    assert_eq!(
        action,
        Action::CommitMove {
            replace_existing: true
        }
    );
}

#[test]
fn resolve_failure_fails_the_attempt() {
    let (state, _) = InstallState::start(false);
    assert!(resolve(Application::Steam, "/home/user", false).is_err());
    let (state, action) = state.step(Event::ResolveFailed {
        reason: FailReason::Configuration,
    });
    assert_eq!(action, Action::Finish);
    match state {
        InstallState::Failed { failure } => {
            assert_eq!(failure.stage, Stage::Resolving);
            assert!(matches!(failure.reason, FailReason::Configuration));
        }
        _ => panic!("expected a failed attempt"),
    }
}

#[test]
fn corrupt_archive_fails_in_extracting() {
    let (state, _) = InstallState::start(false);
    let target = resolve(Application::Lutris, "/home/user", true).unwrap();
    let (state, _) = state.step(Event::Resolved {
        target,
        release: lutris_release(),
    });
    let (state, _) = state.step(Event::Existing { entries: vec![] });
    let (state, _) = state.step(Event::Downloaded);
    let (state, _) = state.step(Event::ExtractFailed {
        reason: "truncated container".to_string(),
    });
    match state {
        InstallState::Failed { failure } => {
            assert_eq!(failure.stage, Stage::Extracting);
            assert!(matches!(failure.reason, FailReason::Extract(_)));
        }
        _ => panic!("expected a failed attempt"),
    }
}

#[test]
fn flat_archives_are_accepted_with_true_root() {
    let staged = vec![dir("files"), dir("more-files")];
    assert!(matches!(classify_extracted(&staged), RootShape::Flat));
    let not_a_dir = vec![DirEntry {
        name: "tool.bin".to_string(),
        is_directory: false,
    }];
    assert!(matches!(classify_extracted(&not_a_dir), RootShape::Flat));
    let single = vec![dir("GE-Proton9-1")];
    assert!(matches!(
        classify_extracted(&single),
        RootShape::SingleDir(ref n) if n == "GE-Proton9-1"
    ));
}

#[test]
fn unexpected_events_reissue_the_pending_action() {
    let (state, _) = InstallState::start(false);
    let (state, action) = state.step(Event::Downloaded);
    assert_eq!(action, Action::Resolve);
    assert!(matches!(state, InstallState::Resolving { .. }));
}
