use protonup_core::download::{judge_transfer, partial_path, ProgressTracker, TransferVerdict};

#[test]
fn transfers_stream_beside_the_destination() {
    let dest = "/tmp/GE-Proton9-1.tar.gz".to_string();
    let tmp = partial_path(&dest);
    assert_eq!(tmp, "/tmp/GE-Proton9-1.tar.gz.part");
    assert_ne!(tmp, dest);
}

#[test]
fn only_complete_transfers_commit() {
    assert_eq!(
        judge_transfer(Some(1000), 1000, false),
        TransferVerdict::Commit
    );
    assert_eq!(judge_transfer(None, 12345, false), TransferVerdict::Commit);
    assert_eq!(
        judge_transfer(Some(1000), 999, false),
        TransferVerdict::SizeMismatch
    );
    assert_eq!(
        judge_transfer(Some(1000), 1000, true),
        TransferVerdict::Aborted
    );
    assert_eq!(judge_transfer(None, 0, true), TransferVerdict::Aborted);
}

#[test]
fn progress_never_goes_backwards() {
    let mut p = ProgressTracker::new(Some(1000));
    assert_eq!(p.report(100), 100);
    assert_eq!(p.report(400), 400);
    // A late, smaller report is absorbed rather than shown.
    assert_eq!(p.report(250), 400);
    assert_eq!(p.report(1000), 1000);
    assert_eq!(p.total, Some(1000));
}
