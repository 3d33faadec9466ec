use vstd::prelude::*;
use std::collections::VecDeque;
use crate::error::CommandError;
use crate::ItemId;

verus! {

/// What enqueuing `id` does to a queue, given what the content service said:
/// `None` when no service handle was live, `Some(installed)` otherwise.
pub open spec fn enqueued(q: Seq<ItemId>, id: ItemId, installed: Option<bool>) -> Seq<ItemId> {
    if q.contains(id) || installed is None {
        q
    } else {
        q.push(id)
    }
}

/// The answer of `mdq_mod_add` for the same inputs as `enqueued`.
pub open spec fn enqueue_result(q: Seq<ItemId>, id: ItemId, installed: Option<bool>) -> Result<
    (),
    CommandError,
> {
    if q.contains(id) {
        Ok(())
    } else {
        match installed {
            None => Err(CommandError::ServiceUnavailable),
            Some(true) => Err(CommandError::AlreadyInstalled),
            Some(false) => Ok(()),
        }
    }
}

/// The id at the head of a queue, if any.
pub open spec fn head_of(q: Seq<ItemId>) -> Option<ItemId> {
    if q.len() == 0 {
        None
    } else {
        Some(q[0])
    }
}

/// `id` stands in `q` at exactly one position.
pub open spec fn occurs_once(q: Seq<ItemId>, id: ItemId) -> bool {
    exists|i: int|
        0 <= i < q.len() && q[i] == id && (forall|j: int| 0 <= j < q.len() && q[j] == id ==> j == i)
}

/// A first-in first-out queue of item ids that never holds the same id twice.
pub struct DownloadQueue {
    items: VecDeque<ItemId>,
}

impl View for DownloadQueue {
    type V = Seq<ItemId>;

    closed spec fn view(&self) -> Seq<ItemId> {
        self.items@
    }
}

impl DownloadQueue {
    /// The queue holds no id twice.
    pub open spec fn wf(&self) -> bool {
        self@.no_duplicates()
    }

    /// An empty queue.
    pub fn new() -> (r: DownloadQueue)
        ensures
            r.wf(),
            r@ == Seq::<ItemId>::empty(),
    {
        DownloadQueue { items: VecDeque::new() }
    }

    /// The number of queued ids.
    pub fn len(&self) -> (r: usize)
        ensures
            r == self@.len(),
    {
        self.items.len()
    }

    /// The queued ids, head first.
    pub fn to_vec(&self) -> (r: Vec<ItemId>)
        ensures
            r@ == self@,
    {
        let mut out: Vec<ItemId> = Vec::new();
        let n = self.items.len();
        let mut i: usize = 0;
        while i < n
            invariant
                n == self@.len(),
                i <= n,
                out@ == self@.take(i as int),
            decreases n - i,
        {
            out.push(self.items[i]);
            i = i + 1;
            assert(out@ =~= self@.take(i as int));
        }
        assert(self@.take(n as int) =~= self@);
        out
    }

    /// Whether `id` is queued.
    pub fn contains(&self, id: ItemId) -> (r: bool)
        ensures
            r == self@.contains(id),
    {
        let n = self.items.len();
        let mut i: usize = 0;
        while i < n
            invariant
                n == self@.len(),
                i <= n,
                forall|j: int| 0 <= j < i ==> self@[j] != id,
            decreases n - i,
        {
            if self.items[i] == id {
                return true;
            }
            i = i + 1;
        }
        false
    }

    /// The position of `id` in the queue, if it is queued.
    fn position(&self, id: ItemId) -> (r: Option<usize>)
        ensures
            match r {
                Some(i) => i < self@.len() && self@[i as int] == id,
                None => !self@.contains(id),
            },
    {
        let n = self.items.len();
        let mut i: usize = 0;
        while i < n
            invariant
                n == self@.len(),
                i <= n,
                forall|j: int| 0 <= j < i ==> self@[j] != id,
            decreases n - i,
        {
            if self.items[i] == id {
                return Some(i);
            }
            i = i + 1;
        }
        None
    }

    /// The id at the head of the queue, without taking it out.
    pub fn front(&self) -> (r: Option<ItemId>)
        ensures
            r == head_of(self@),
    {
        if self.items.len() == 0 {
            None
        } else {
            Some(self.items[0])
        }
    }

    /// Takes out every id.
    pub fn clear(&mut self)
        ensures
            final(self).wf(),
            final(self)@ == Seq::<ItemId>::empty(),
    {
        self.items.clear();
    }

    /// Appends `id` at the tail unless it is queued already.
    /// Returns whether it was appended.
    pub fn push_back_unique(&mut self, id: ItemId) -> (r: bool)
        requires
            old(self).wf(),
        ensures
            final(self).wf(),
            r == !old(self)@.contains(id),
            final(self)@ == if r {
                old(self)@.push(id)
            } else {
                old(self)@
            },
    {
        if self.contains(id) {
            false
        } else {
            self.items.push_back(id);
            assert(self@ == old(self)@.push(id));
            assert forall|i: int, j: int|
                0 <= i < self@.len() && 0 <= j < self@.len() && i != j implies self@[i]
                != self@[j] by {
                if i == old(self)@.len() as int {
                    assert(old(self)@.contains(self@[j]));
                } else if j == old(self)@.len() as int {
                    assert(old(self)@.contains(self@[i]));
                }
            }
            true
        }
    }

    /// Removes `id` wherever it stands; the other ids keep their order.
    /// Returns whether it was queued.
    pub fn remove(&mut self, id: ItemId) -> (r: bool)
        requires
            old(self).wf(),
        ensures
            final(self).wf(),
            r == old(self)@.contains(id),
            !final(self)@.contains(id),
            r ==> exists|i: int|
                0 <= i < old(self)@.len() && old(self)@[i] == id && final(self)@ == old(
                    self,
                )@.remove(i),
            !r ==> final(self)@ == old(self)@,
    {
        match self.position(id) {
            None => false,
            Some(i) => {
                let ghost before = self@;
                self.items.remove(i);
                assert(self@ == before.remove(i as int));
                assert forall|a: int, b: int|
                    0 <= a < self@.len() && 0 <= b < self@.len() && a != b implies self@[a]
                    != self@[b] by {
                    let a0 = if a < i { a } else { a + 1 };
                    let b0 = if b < i { b } else { b + 1 };
                    assert(self@[a] == before[a0] && self@[b] == before[b0]);
                }
                assert forall|k: int| 0 <= k < self@.len() implies self@[k] != id by {
                    let k0 = if k < i { k } else { k + 1 };
                    assert(self@[k] == before[k0]);
                }
                true
            },
        }
    }

    /// Puts `id`, which is not queued, at the head of the queue.
    pub fn push_front_unique(&mut self, id: ItemId)
        requires
            old(self).wf(),
            !old(self)@.contains(id),
        ensures
            final(self).wf(),
            final(self)@ == seq![id] + old(self)@,
    {
        self.items.push_front(id);
        assert forall|i: int, j: int|
            0 <= i < self@.len() && 0 <= j < self@.len() && i != j implies self@[i]
            != self@[j] by {
            if i == 0 {
                assert(old(self)@[j - 1] == self@[j]);
                assert(old(self)@.contains(self@[j]));
            } else if j == 0 {
                assert(old(self)@[i - 1] == self@[i]);
                assert(old(self)@.contains(self@[i]));
            } else {
                assert(old(self)@[i - 1] == self@[i] && old(self)@[j - 1] == self@[j]);
            }
        }
    }

    /// Takes out the id at the head of the queue, if any.
    pub fn pop_front(&mut self) -> (r: Option<ItemId>)
        requires
            old(self).wf(),
        ensures
            final(self).wf(),
            r == head_of(old(self)@),
            final(self)@ == if old(self)@.len() == 0 {
                old(self)@
            } else {
                old(self)@.drop_first()
            },
    {
        let r = self.items.pop_front();
        assert(old(self)@.len() > 0 ==> self@ =~= old(self)@.drop_first());
        r
    }
}

/// Enqueuing the same id twice, the first time with the service live, leaves it
/// in the queue exactly once, and the queue still holds no id twice.
pub proof fn lemma_enqueue_twice_once(
    q: Seq<ItemId>,
    id: ItemId,
    first: bool,
    second: Option<bool>,
)
    requires
        q.no_duplicates(),
    ensures
        occurs_once(enqueued(enqueued(q, id, Some(first)), id, second), id),
        enqueued(enqueued(q, id, Some(first)), id, second).no_duplicates(),
{
    let q1 = enqueued(q, id, Some(first));
    if q.contains(id) {
        let i = choose|i: int| 0 <= i < q.len() && q[i] == id;
        assert(q1 == q);
        assert(forall|j: int| 0 <= j < q.len() && q[j] == id ==> j == i);
    } else {
        assert(q1 == q.push(id));
        assert(q1[q.len() as int] == id);
        assert(q1.contains(id));
        assert forall|j: int| 0 <= j < q1.len() && q1[j] == id implies j == q.len() by {
            if j < q.len() {
                assert(q.contains(q1[j]));
            }
        }
        assert forall|a: int, b: int|
            0 <= a < q1.len() && 0 <= b < q1.len() && a != b implies q1[a] != q1[b] by {
            if a == q.len() as int {
                assert(q.contains(q1[b]));
            } else if b == q.len() as int {
                assert(q.contains(q1[a]));
            }
        }
    }
}

/// On an empty queue there is no active download.
pub proof fn lemma_empty_has_no_active()
    ensures
        head_of(Seq::<ItemId>::empty()) is None,
{
}

/// Once an id is enqueued into an empty queue with the service live, it is the
/// active id.
pub proof fn lemma_first_enqueued_is_active(id: ItemId, installed: bool)
    ensures
        head_of(enqueued(Seq::<ItemId>::empty(), id, Some(installed))) == Some(id),
{
    assert(!Seq::<ItemId>::empty().contains(id));
}

/// Enqueuing any id never changes the active id of a non-empty queue.
pub proof fn lemma_enqueue_keeps_active(q: Seq<ItemId>, id: ItemId, installed: Option<bool>)
    requires
        q.len() > 0,
    ensures
        head_of(enqueued(q, id, installed)) == head_of(q),
{
}

/// Removing an id other than the active one, at the position where it stands,
/// keeps the active id.
pub proof fn lemma_remove_other_keeps_active(q: Seq<ItemId>, id: ItemId, i: int)
    requires
        0 <= i < q.len(),
        q[i] == id,
        head_of(q) != Some(id),
    ensures
        head_of(q.remove(i)) == head_of(q),
{
}

/// Empties the download queue. Never fails.
pub fn mdq_clear(q: &mut DownloadQueue)
    ensures
        final(q).wf(),
        final(q)@ == Seq::<ItemId>::empty(),
{
    q.clear();
}

/// Adds `id` at the tail of the queue. `installed` is what the content service
/// reported of the item: `None` when no service handle was live.
///
/// An id that is queued already is left alone and the call succeeds. Otherwise,
/// without a service the call fails with `ServiceUnavailable` and queues nothing;
/// an installed item is queued and reported as `AlreadyInstalled`; any other is
/// queued.
pub fn mdq_mod_add(q: &mut DownloadQueue, id: ItemId, installed: Option<bool>) -> (r: Result<
    (),
    CommandError,
>)
    requires
        old(q).wf(),
    ensures
        final(q).wf(),
        final(q)@ == enqueued(old(q)@, id, installed),
        r == enqueue_result(old(q)@, id, installed),
{
    if q.contains(id) {
        return Ok(());
    }
    match installed {
        None => Err(CommandError::ServiceUnavailable),
        Some(is_installed) => {
            q.push_back_unique(id);
            if is_installed {
                Err(CommandError::AlreadyInstalled)
            } else {
                Ok(())
            }
        },
    }
}

/// Removes `id` from the queue, leaving the others in their order; fails with
/// `NotFound` when it is not queued.
pub fn mdq_mod_remove(q: &mut DownloadQueue, id: ItemId) -> (r: Result<(), CommandError>)
    requires
        old(q).wf(),
    ensures
        final(q).wf(),
        !final(q)@.contains(id),
        r is Ok <==> old(q)@.contains(id),
        r is Ok ==> exists|i: int|
            0 <= i < old(q)@.len() && old(q)@[i] == id && final(q)@ == old(q)@.remove(i),
        r is Err ==> r == Err::<(), CommandError>(CommandError::NotFound) && final(q)@ == old(
            q,
        )@,
{
    if q.remove(id) {
        Ok(())
    } else {
        Err(CommandError::NotFound)
    }
}

/// The id at the head of the queue; fails with `NoActiveDownload` when the
/// queue is empty.
pub fn mdq_active_download_id(q: &DownloadQueue) -> (r: Result<ItemId, CommandError>)
    ensures
        r == match head_of(q@) {
            Some(id) => Ok(id),
            None => Err(CommandError::NoActiveDownload),
        },
{
    match q.front() {
        Some(id) => Ok(id),
        None => Err(CommandError::NoActiveDownload),
    }
}

/// The byte counts (downloaded, total) of the head of the queue. `front` is the
/// head the caller read; `reply` is what the content service answered for it:
/// `None` when no handle was live, `Some(None)` when it could not report progress.
pub fn mdq_active_download_progress(
    front: Option<ItemId>,
    reply: Option<Option<(u64, u64)>>,
) -> (r: Result<(u64, u64), CommandError>)
    ensures
        r == match (front, reply) {
            (None, _) => Err(CommandError::NoActiveDownload),
            (Some(_), None) => Err(CommandError::ServiceUnavailable),
            (Some(_), Some(None)) => Err(CommandError::ProgressUnavailable),
            (Some(_), Some(Some(counts))) => Ok(counts),
        },
{
    match front {
        None => Err(CommandError::NoActiveDownload),
        Some(_) => match reply {
            None => Err(CommandError::ServiceUnavailable),
            Some(None) => Err(CommandError::ProgressUnavailable),
            Some(Some(counts)) => Ok(counts),
        },
    }
}

} // verus!
