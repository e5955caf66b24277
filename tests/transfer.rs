use mod_installer::install::{percent, step, InstallAction, InstallError, InstallEvent, InstallPhase};
use mod_installer::transfer::{check_status, DownloadStatus, Transfer, TransferError};

#[test]
fn progress_counts_and_payload() {
    let mut t = Transfer::start(Some(5));
    let a = t.on_chunk(&[1, 2]).unwrap();
    assert!(matches!(a.status, DownloadStatus::Downloading));
    assert_eq!((a.downloaded_size, a.total_size), (2, 5));
    let b = t.on_chunk(&[3, 4, 5]).unwrap();
    assert_eq!((b.downloaded_size, b.total_size), (5, 5));
    let f = t.finish().unwrap();
    match f.status {
        DownloadStatus::Finished(p) => {
            assert_eq!(p, vec![1, 2, 3, 4, 5]);
            assert_eq!(p.len() as u64, b.downloaded_size);
        }
        _ => panic!("expected the payload"),
    }
}

#[test]
fn unknown_total_is_zero() {
    let mut t = Transfer::start(None);
    let a = t.on_chunk(&[9; 10]).unwrap();
    assert_eq!((a.downloaded_size, a.total_size), (10, 0));
    let f = t.finish().unwrap();
    assert_eq!(f.downloaded_size, 10);
    assert_eq!(f.total_size, 0);
}

#[test]
fn chunk_past_declared_size_is_refused() {
    let mut t = Transfer::start(Some(3));
    assert_eq!(t.on_chunk(&[1, 2]).unwrap().downloaded_size, 2);
    assert_eq!(t.on_chunk(&[3, 4]).unwrap_err(), TransferError::LongerThanDeclared);
    assert_eq!(t.on_chunk(&[3]).unwrap().downloaded_size, 3);
}

#[test]
fn short_body_is_refused() {
    let mut t = Transfer::start(Some(5));
    t.on_chunk(&[1, 2]).unwrap();
    assert_eq!(t.finish().unwrap_err(), TransferError::ShorterThanDeclared);
}

#[test]
fn empty_body() {
    let t = Transfer::start(Some(0));
    let f = t.finish().unwrap();
    assert!(matches!(f.status, DownloadStatus::Finished(ref p) if p.is_empty()));
}

#[test]
fn status_codes() {
    assert!(check_status(200).is_ok());
    assert!(check_status(204).is_ok());
    assert_eq!(check_status(404), Err(TransferError::HttpStatus { code: 404 }));
    assert_eq!(check_status(301), Err(TransferError::HttpStatus { code: 301 }));
}

#[test]
fn percentages() {
    assert_eq!(percent(50, 200), Some(25));
    assert_eq!(percent(1, 3), Some(33));
    assert_eq!(percent(0, 0), None);
    assert_eq!(percent(7, 0), None);
    assert_eq!(percent(300, 200), Some(100));
    assert_eq!(percent(u64::MAX - 1, u64::MAX), Some(99));
}

#[test]
fn install_run_succeeds() {
    let (p, a) = step(InstallPhase::Idle, InstallEvent::Start);
    assert_eq!((p, a), (InstallPhase::Downloading, InstallAction::StartDownload));
    let (p, a) = step(p, InstallEvent::Progress { downloaded: 1, total: 4 });
    assert_eq!(a, InstallAction::ShowProgress { percent: Some(25) });
    let (p, a) = step(p, InstallEvent::Finished);
    assert_eq!((p, a), (InstallPhase::Extracting, InstallAction::Extract));
    let (p, a) = step(p, InstallEvent::Extracted);
    assert_eq!((p, a), (InstallPhase::Done, InstallAction::ReportDone));
}

#[test]
fn install_run_fails_on_transfer_error() {
    let e = TransferError::Network;
    let (p, a) = step(InstallPhase::Downloading, InstallEvent::TransferFailed(e));
    assert_eq!(p, InstallPhase::Failed(InstallError::Transfer(e)));
    assert_eq!(a, InstallAction::ReportFailure(InstallError::Transfer(e)));
    let (p2, a2) = step(p, InstallEvent::Finished);
    assert_eq!((p2, a2), (p, InstallAction::Ignore));
}

#[test]
fn finish_before_start_is_ignored() {
    assert_eq!(step(InstallPhase::Idle, InstallEvent::Finished), (InstallPhase::Idle, InstallAction::Ignore));
}
