use vstd::prelude::*;
use crate::ItemId;
use crate::error::CommandError;

verus! {

/// The ids among the first `n` of `ids` whose install flag equals `keep`, in
/// their order.
pub open spec fn selected_upto(ids: Seq<ItemId>, installed: Seq<bool>, keep: bool, n: nat) -> Seq<
    ItemId,
>
    decreases n,
{
    if n == 0 {
        Seq::empty()
    } else {
        let rest = selected_upto(ids, installed, keep, (n - 1) as nat);
        if installed[n - 1] == keep {
            rest.push(ids[n - 1])
        } else {
            rest
        }
    }
}

/// The ids that are not installed locally, in the order given.
pub open spec fn missing_of(ids: Seq<ItemId>, installed: Seq<bool>) -> Seq<ItemId> {
    selected_upto(ids, installed, false, ids.len())
}

/// The ids that are installed locally, in the order given.
pub open spec fn installed_of(ids: Seq<ItemId>, installed: Seq<bool>) -> Seq<ItemId> {
    selected_upto(ids, installed, true, ids.len())
}

fn select_by_install(ids: &Vec<ItemId>, installed: &Vec<bool>, keep: bool) -> (r: Vec<ItemId>)
    requires
        ids.len() == installed.len(),
    ensures
        r@ == selected_upto(ids@, installed@, keep, ids.len() as nat),
{
    let mut out: Vec<ItemId> = Vec::new();
    let mut i: usize = 0;
    while i < ids.len()
        invariant
            ids.len() == installed.len(),
            i <= ids.len(),
            out@ == selected_upto(ids@, installed@, keep, i as nat),
        decreases ids.len() - i,
    {
        if installed[i] == keep {
            out.push(ids[i]);
        }
        i = i + 1;
    }
    out
}

/// The required ids that are not installed locally, in their order.
/// `installed` holds, for each required id at the same position, whether the
/// content service reports it installed; it is `None` when no handle was live.
pub fn steam_get_missing_mods_for_server(
    required_mods: &Vec<ItemId>,
    installed: Option<&Vec<bool>>,
) -> (r: Result<Vec<ItemId>, CommandError>)
    requires
        installed matches Some(v) ==> v.len() == required_mods.len(),
    ensures
        match installed {
            None => r == Err::<Vec<ItemId>, CommandError>(CommandError::ServiceUnavailable),
            Some(v) => r matches Ok(m) && m@ == missing_of(required_mods@, v@),
        },
{
    match installed {
        None => Err(CommandError::ServiceUnavailable),
        Some(v) => Ok(select_by_install(required_mods, v, false)),
    }
}

/// The subscribed ids that are installed locally, in their order; `installed`
/// holds the service's answer for the id at the same position.
pub fn installed_items(subscribed: &Vec<ItemId>, installed: &Vec<bool>) -> (r: Vec<ItemId>)
    requires
        subscribed.len() == installed.len(),
    ensures
        r@ == installed_of(subscribed@, installed@),
{
    select_by_install(subscribed, installed, true)
}

/// Every id that is missing is one of the given ids and is reported not
/// installed; every given id reported not installed is missing. Likewise for
/// the installed ones.
pub proof fn lemma_selection_exact(ids: Seq<ItemId>, installed: Seq<bool>, keep: bool, n: nat)
    requires
        n <= ids.len(),
        ids.len() == installed.len(),
    ensures
        forall|k: int|
            0 <= k < n && installed[k] == keep ==> selected_upto(ids, installed, keep, n).contains(
                ids[k],
            ),
        forall|x: ItemId|
            selected_upto(ids, installed, keep, n).contains(x) ==> exists|k: int|
                0 <= k < n && installed[k] == keep && ids[k] == x,
        selected_upto(ids, installed, keep, n).len() <= n,
    decreases n,
{
    if n > 0 {
        let m = (n - 1) as nat;
        lemma_selection_exact(ids, installed, keep, m);
        let rest = selected_upto(ids, installed, keep, m);
        let all = selected_upto(ids, installed, keep, n);
        assert forall|k: int| 0 <= k < n && installed[k] == keep implies all.contains(ids[k]) by {
            if k < m {
                let j = choose|j: int| 0 <= j < rest.len() && rest[j] == ids[k];
                if installed[m as int] == keep {
                    assert(all[j] == ids[k]);
                }
            } else {
                assert(all[rest.len() as int] == ids[k]);
            }
        }
        assert forall|x: ItemId| all.contains(x) implies exists|k: int|
            0 <= k < n && installed[k] == keep && ids[k] == x by {
            let j = choose|j: int| 0 <= j < all.len() && all[j] == x;
            if j < rest.len() {
                assert(rest[j] == x);
                assert(rest.contains(x));
            } else {
                assert(ids[m as int] == x);
            }
        }
    }
}

} // verus!
