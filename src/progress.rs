use vstd::prelude::*;
use crate::ItemId;

verus! {

/// A percentage in hundredths of a percent: 10000 stands for 100%.
pub const FULL_BASIS_POINTS: u128 = 10000;

/// The state of an item as the content service reports it at one poll.
#[derive(Clone, Copy, Debug, PartialEq, Eq, Structural)]
pub enum ItemClassification {
    /// The item is installed locally.
    Installed,
    /// The item is being downloaded; byte counts so far and in all.
    Downloading { downloaded: u64, total: u64 },
    /// The item is neither installed nor being downloaded.
    NotStarted,
}

/// How the service's two answers classify an item: installed wins over a
/// download in progress.
pub open spec fn classification_of(installed: bool, download: Option<(u64, u64)>) -> ItemClassification {
    if installed {
        ItemClassification::Installed
    } else {
        match download {
            Some((d, t)) => ItemClassification::Downloading { downloaded: d, total: t },
            None => ItemClassification::NotStarted,
        }
    }
}

/// Classifies an item from whether the service reports it installed and from
/// the byte counts it reports for a download, if any.
pub fn classify(installed: bool, download: Option<(u64, u64)>) -> (r: ItemClassification)
    ensures
        r == classification_of(installed, download),
{
    if installed {
        ItemClassification::Installed
    } else {
        match download {
            Some((d, t)) => ItemClassification::Downloading { downloaded: d, total: t },
            None => ItemClassification::NotStarted,
        }
    }
}

/// One progress report for an item. A terminal report says the item is
/// installed: its byte counts are zero and its percentage is 100.
#[derive(Clone, Copy, Debug, PartialEq, Eq, Structural)]
pub struct ProgressSample {
    pub item_id: ItemId,
    pub bytes_downloaded: u64,
    pub bytes_total: u64,
    pub terminal: bool,
}

/// The percentage of a sample in hundredths of a percent, rounded down:
/// downloaded / total * 100, or 100 for a terminal sample. None where the
/// total is zero and the ratio is undefined.
pub open spec fn basis_points_of(s: ProgressSample) -> Option<int> {
    if s.terminal {
        Some(FULL_BASIS_POINTS as int)
    } else if s.bytes_total == 0 {
        None
    } else {
        Some((s.bytes_downloaded as int * FULL_BASIS_POINTS as int) / s.bytes_total as int)
    }
}

/// The download has reached 100 percent: every byte is there, or, with a total
/// of zero, some byte is.
pub open spec fn reached_full(downloaded: u64, total: u64) -> bool {
    downloaded > 0 && downloaded >= total
}

impl ProgressSample {
    /// The terminal report for an installed item.
    pub fn installed(item_id: ItemId) -> (r: ProgressSample)
        ensures
            r == (ProgressSample { item_id, bytes_downloaded: 0, bytes_total: 0, terminal: true }),
    {
        ProgressSample { item_id, bytes_downloaded: 0, bytes_total: 0, terminal: true }
    }

    /// A report of a download in progress.
    pub fn downloading(item_id: ItemId, bytes_downloaded: u64, bytes_total: u64) -> (r:
        ProgressSample)
        ensures
            r == (ProgressSample { item_id, bytes_downloaded, bytes_total, terminal: false }),
    {
        ProgressSample { item_id, bytes_downloaded, bytes_total, terminal: false }
    }

    /// The percentage in hundredths of a percent; see `basis_points_of`.
    pub fn percent_basis_points(&self) -> (r: Option<u128>)
        ensures
            match basis_points_of(*self) {
                Some(p) => r == Some(p as u128),
                None => r is None,
            },
    {
        if self.terminal {
            Some(FULL_BASIS_POINTS)
        } else if self.bytes_total == 0 {
            None
        } else {
            let d = self.bytes_downloaded as u128;
            assert(d * FULL_BASIS_POINTS <= u64::MAX as u128 * 10000) by (nonlinear_arith)
                requires
                    d <= u64::MAX,
            ;
            Some((d * FULL_BASIS_POINTS) / (self.bytes_total as u128))
        }
    }

    /// Whether the sample shows a download at 100 percent or more.
    pub fn is_complete(&self) -> (r: bool)
        ensures
            r == (self.terminal || reached_full(self.bytes_downloaded, self.bytes_total)),
    {
        self.terminal || (self.bytes_downloaded > 0 && self.bytes_downloaded >= self.bytes_total)
    }
}

/// For a download with a non-zero total, reaching 100 percent is the same as
/// a percentage of at least 100.
pub proof fn lemma_full_iff_hundred_percent(s: ProgressSample)
    requires
        !s.terminal,
        s.bytes_total > 0,
    ensures
        basis_points_of(s) matches Some(p) && (reached_full(s.bytes_downloaded, s.bytes_total)
            <==> p >= FULL_BASIS_POINTS as int),
{
    let d = s.bytes_downloaded as int;
    let t = s.bytes_total as int;
    if d >= t {
        assert(d * 10000 >= t * 10000) by (nonlinear_arith)
            requires
                d >= t,
        ;
        assert((d * 10000) / t >= 10000) by (nonlinear_arith)
            requires
                d * 10000 >= t * 10000,
                t > 0,
        ;
    } else {
        assert((d * 10000) / t < 10000) by (nonlinear_arith)
            requires
                d < t,
                d >= 0,
                t > 0,
        ;
    }
}

} // verus!
