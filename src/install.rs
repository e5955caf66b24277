use vstd::prelude::*;

use crate::extract::ExtractionError;
use crate::transfer::TransferError;

verus! {

/// Why an install run failed.
#[derive(Debug, Clone, Copy, PartialEq, Eq, Structural)]
pub enum InstallError {
    Transfer(TransferError),
    Extraction(ExtractionError),
}

/// Where an install run stands.
#[derive(Debug, Clone, Copy, PartialEq, Eq, Structural)]
pub enum InstallPhase {
    Idle,
    Downloading,
    Extracting,
    Done,
    Failed(InstallError),
}

/// What the surroundings of an install run report to it.
#[derive(Debug, Clone, Copy, PartialEq, Eq, Structural)]
pub enum InstallEvent {
    /// The user asked for an install.
    Start,
    /// A progress event of the transfer arrived.
    Progress { downloaded: u64, total: u64 },
    /// The transfer handed over the whole payload.
    Finished,
    /// The transfer was abandoned.
    TransferFailed(TransferError),
    /// Every entry of the archive was written.
    Extracted,
    /// Unpacking stopped at a failure.
    ExtractionFailed(ExtractionError),
}

/// What an install run asks of its surroundings next.
#[derive(Debug, Clone, Copy, PartialEq, Eq, Structural)]
pub enum InstallAction {
    /// Start the transfer of the archive.
    StartDownload,
    /// Show progress; `None` when the total size is unknown.
    ShowProgress { percent: Option<u32> },
    /// Unpack the payload under the install root.
    Extract,
    /// Tell that the install succeeded.
    ReportDone,
    /// Tell that the install failed, and why.
    ReportFailure(InstallError),
    /// Nothing: the event does not apply in this phase.
    Ignore,
}

/// The share of a known total that has arrived, in whole percent, at most 100.
pub open spec fn percent_of(downloaded: u64, total: u64) -> Option<u32> {
    if total == 0 {
        None
    } else if downloaded >= total {
        Some(100)
    } else {
        Some(((downloaded as int * 100) / total as int) as u32)
    }
}

/// The progress to show, never dividing by an unknown (zero) total.
pub fn percent(downloaded: u64, total: u64) -> (r: Option<u32>)
    ensures
        r == percent_of(downloaded, total),
        r matches Some(p) ==> p <= 100,
{
    if total == 0 {
        None
    } else if downloaded >= total {
        Some(100)
    } else {
        let d = downloaded as u128;
        let t = total as u128;
        let ghost di: int = d as int;
        let ghost ti: int = t as int;
        assert(di * 100 / ti < 100) by (nonlinear_arith)
            requires
                di < ti,
                0 < ti,
        ;
        assert(di * 100 <= u128::MAX) by (nonlinear_arith)
            requires
                0 <= di < 0x1_0000_0000_0000_0000,
        ;
        Some((d * 100 / t) as u32)
    }
}

/// The next phase and the action that `event` gives in `phase`.
pub open spec fn transition(phase: InstallPhase, event: InstallEvent) -> (InstallPhase, InstallAction) {
    match (phase, event) {
        (InstallPhase::Idle, InstallEvent::Start) => (InstallPhase::Downloading, InstallAction::StartDownload),
        (InstallPhase::Downloading, InstallEvent::Progress { downloaded, total }) => (
            InstallPhase::Downloading,
            InstallAction::ShowProgress { percent: percent_of(downloaded, total) },
        ),
        (InstallPhase::Downloading, InstallEvent::Finished) => (InstallPhase::Extracting, InstallAction::Extract),
        (InstallPhase::Downloading, InstallEvent::TransferFailed(e)) => (
            InstallPhase::Failed(InstallError::Transfer(e)),
            InstallAction::ReportFailure(InstallError::Transfer(e)),
        ),
        (InstallPhase::Extracting, InstallEvent::Extracted) => (InstallPhase::Done, InstallAction::ReportDone),
        (InstallPhase::Extracting, InstallEvent::ExtractionFailed(e)) => (
            InstallPhase::Failed(InstallError::Extraction(e)),
            InstallAction::ReportFailure(InstallError::Extraction(e)),
        ),
        _ => (phase, InstallAction::Ignore),
    }
}

/// Takes one event of an install run.
pub fn step(phase: InstallPhase, event: InstallEvent) -> (r: (InstallPhase, InstallAction))
    ensures
        r == transition(phase, event),
{
    match (phase, event) {
        (InstallPhase::Idle, InstallEvent::Start) => (InstallPhase::Downloading, InstallAction::StartDownload),
        (InstallPhase::Downloading, InstallEvent::Progress { downloaded, total }) => (
            InstallPhase::Downloading,
            InstallAction::ShowProgress { percent: percent(downloaded, total) },
        ),
        (InstallPhase::Downloading, InstallEvent::Finished) => (InstallPhase::Extracting, InstallAction::Extract),
        (InstallPhase::Downloading, InstallEvent::TransferFailed(e)) => (
            InstallPhase::Failed(InstallError::Transfer(e)),
            InstallAction::ReportFailure(InstallError::Transfer(e)),
        ),
        (InstallPhase::Extracting, InstallEvent::Extracted) => (InstallPhase::Done, InstallAction::ReportDone),
        (InstallPhase::Extracting, InstallEvent::ExtractionFailed(e)) => (
            InstallPhase::Failed(InstallError::Extraction(e)),
            InstallAction::ReportFailure(InstallError::Extraction(e)),
        ),
        _ => (phase, InstallAction::Ignore),
    }
}

/// Only a finished transfer leads to unpacking, and a run reaches `Done` only
/// through a successful extraction.
pub proof fn law_extract_only_after_finish(phase: InstallPhase, event: InstallEvent)
    ensures
        transition(phase, event).1 == InstallAction::Extract ==> phase == InstallPhase::Downloading
            && event == InstallEvent::Finished,
        transition(phase, event).0 == InstallPhase::Done && phase != InstallPhase::Done ==> phase
            == InstallPhase::Extracting && event == InstallEvent::Extracted,
{
}

} // verus!
