use vstd::prelude::*;
use crate::ItemId;
use crate::error::CommandError;
use crate::progress::{ProgressSample, reached_full};

verus! {

/// The check before any repair. `installed` is what the content service
/// reported of the item: `None` when no handle was live. A repair goes ahead
/// only for an installed item; nothing is touched before this check passes.
pub fn repair_precheck(installed: Option<bool>) -> (r: Result<(), CommandError>)
    ensures
        r == match installed {
            None => Err(CommandError::ServiceUnavailable),
            Some(false) => Err(CommandError::NotInstalled),
            Some(true) => Ok(()),
        },
{
    match installed {
        None => Err(CommandError::ServiceUnavailable),
        Some(false) => Err(CommandError::NotInstalled),
        Some(true) => Ok(()),
    }
}

/// The outcome of a request to download an item again with file verification:
/// `accepted` is the service's immediate answer.
pub fn download_request_result(accepted: bool) -> (r: Result<(), CommandError>)
    ensures
        r == if accepted {
            Ok(())
        } else {
            Err(CommandError::DownloadRequestRejected)
        },
{
    if accepted {
        Ok(())
    } else {
        Err(CommandError::DownloadRequestRejected)
    }
}

/// The outcome of a plain repair of one item: `installed` as for
/// `repair_precheck`, and `accepted` the service's answer to the download
/// request, which is made only once the precheck passed.
pub fn steam_fix_mod(installed: Option<bool>, accepted: bool) -> (r: Result<(), CommandError>)
    ensures
        r == match installed {
            None => Err(CommandError::ServiceUnavailable),
            Some(false) => Err(CommandError::NotInstalled),
            Some(true) => if accepted {
                Ok(())
            } else {
                Err(CommandError::DownloadRequestRejected)
            },
        },
{
    match repair_precheck(installed) {
        Err(e) => Err(e),
        Ok(()) => download_request_result(accepted),
    }
}

/// What one poll of a forced repair decides.
#[derive(Clone, Copy, Debug, PartialEq, Eq, Structural)]
pub enum RepairPoll {
    /// No service handle this time; poll again later.
    Retry,
    /// The service could not report progress for the item: the repair cannot
    /// go on.
    Interrupted,
    /// Report this progress; `done` says the download has reached 100 percent
    /// and polling stops.
    Report { sample: ProgressSample, done: bool },
}

/// One poll of a forced repair of `id`. `reply` is what the service answered
/// for the item's byte counts: `None` when no handle was live, `Some(None)`
/// when it could not report them.
pub fn repair_poll_step(id: ItemId, reply: Option<Option<(u64, u64)>>) -> (r: RepairPoll)
    ensures
        r == match reply {
            None => RepairPoll::Retry,
            Some(None) => RepairPoll::Interrupted,
            Some(Some((d, t))) => RepairPoll::Report {
                sample: ProgressSample { item_id: id, bytes_downloaded: d, bytes_total: t, terminal: false },
                done: reached_full(d, t),
            },
        },
{
    match reply {
        None => RepairPoll::Retry,
        Some(None) => RepairPoll::Interrupted,
        Some(Some((d, t))) => {
            let sample = ProgressSample::downloading(id, d, t);
            RepairPoll::Report { sample, done: sample.is_complete() }
        },
    }
}

} // verus!
