use vstd::prelude::*;
use crate::ItemId;
use crate::progress::{ItemClassification, ProgressSample};
use crate::queue::{DownloadQueue, head_of};

verus! {

/// What the dispatcher asks its runner to do after one tick.
#[derive(Clone, Copy, Debug, PartialEq, Eq, Structural)]
pub enum DispatchAction {
    /// Nothing to do this tick: no service handle, or nothing queued.
    Idle,
    /// Send this progress report to the user interface.
    Emit(ProgressSample),
    /// Ask the service to subscribe to (and so download) this item.
    Subscribe(ItemId),
}

/// The queue after one dispatcher tick. `service` is `None` when no handle is
/// live, else the classification of the head. Only an installed head leaves
/// the queue; any other stays at the front.
pub open spec fn dispatched(q: Seq<ItemId>, service: Option<ItemClassification>) -> Seq<ItemId> {
    match (head_of(q), service) {
        (Some(_), Some(ItemClassification::Installed)) => q.drop_first(),
        _ => q,
    }
}

/// The action of one dispatcher tick on the same inputs as `dispatched`.
pub open spec fn dispatch_action(q: Seq<ItemId>, service: Option<ItemClassification>) -> DispatchAction {
    match (head_of(q), service) {
        (Some(id), Some(ItemClassification::Installed)) => DispatchAction::Emit(
            ProgressSample { item_id: id, bytes_downloaded: 0, bytes_total: 0, terminal: true },
        ),
        (Some(id), Some(ItemClassification::Downloading { downloaded, total })) =>
            DispatchAction::Emit(
            ProgressSample { item_id: id, bytes_downloaded: downloaded, bytes_total: total, terminal: false },
        ),
        (Some(id), Some(ItemClassification::NotStarted)) => DispatchAction::Subscribe(id),
        _ => DispatchAction::Idle,
    }
}

/// One tick of the download dispatcher. The head of the queue is taken out; if
/// the service reports it installed, a terminal report is emitted and it stays
/// out; otherwise it is put back at the front, and a progress report is emitted
/// for a running download or a subscription is requested for one not started.
/// Without a service handle, or with an empty queue, nothing changes.
///
/// `service` must classify the current head of the queue.
pub fn dispatch_step(q: &mut DownloadQueue, service: Option<ItemClassification>) -> (r:
    DispatchAction)
    requires
        old(q).wf(),
    ensures
        final(q).wf(),
        final(q)@ == dispatched(old(q)@, service),
        r == dispatch_action(old(q)@, service),
{
    let c = match service {
        None => return DispatchAction::Idle,
        Some(c) => c,
    };
    let id = match q.pop_front() {
        None => return DispatchAction::Idle,
        Some(id) => id,
    };
    match c {
        ItemClassification::Installed => DispatchAction::Emit(ProgressSample::installed(id)),
        ItemClassification::Downloading { downloaded, total } => {
            q.push_front_unique(id);
            DispatchAction::Emit(ProgressSample::downloading(id, downloaded, total))
        },
        ItemClassification::NotStarted => {
            q.push_front_unique(id);
            DispatchAction::Subscribe(id)
        },
    }
}

/// Only a tick that finds the head installed changes the active id; any other
/// tick keeps it.
pub proof fn lemma_dispatch_keeps_active(q: Seq<ItemId>, service: Option<ItemClassification>)
    requires
        service != Some(ItemClassification::Installed),
    ensures
        dispatched(q, service) == q,
        head_of(dispatched(q, service)) == head_of(q),
{
}

/// A tick that finds the head installed drops it, and only it.
pub proof fn lemma_dispatch_completes_head(q: Seq<ItemId>)
    requires
        q.len() > 0,
    ensures
        dispatched(q, Some(ItemClassification::Installed)) == q.drop_first(),
        dispatch_action(q, Some(ItemClassification::Installed)) == DispatchAction::Emit(
            ProgressSample { item_id: q[0], bytes_downloaded: 0, bytes_total: 0, terminal: true },
        ),
{
}

} // verus!
