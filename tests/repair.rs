use mod_queue::error::CommandError;
use mod_queue::inventory::{installed_items, steam_get_missing_mods_for_server};
use mod_queue::progress::ProgressSample;
use mod_queue::repair::{
    download_request_result, repair_poll_step, repair_precheck, steam_fix_mod, RepairPoll,
};

#[test]
fn forced_repair_of_uninstalled_item_is_refused() {
    assert_eq!(repair_precheck(Some(false)), Err(CommandError::NotInstalled));
}

#[test]
fn repair_precheck_cases() {
    assert_eq!(repair_precheck(None), Err(CommandError::ServiceUnavailable));
    assert_eq!(repair_precheck(Some(true)), Ok(()));
}

#[test]
fn download_request_answers() {
    assert_eq!(download_request_result(true), Ok(()));
    assert_eq!(download_request_result(false), Err(CommandError::DownloadRequestRejected));
}

#[test]
fn plain_repair_outcomes() {
    assert_eq!(steam_fix_mod(None, true), Err(CommandError::ServiceUnavailable));
    assert_eq!(steam_fix_mod(Some(false), true), Err(CommandError::NotInstalled));
    assert_eq!(steam_fix_mod(Some(true), false), Err(CommandError::DownloadRequestRejected));
    assert_eq!(steam_fix_mod(Some(true), true), Ok(()));
}

#[test]
fn repair_poll_outcomes() {
    assert_eq!(repair_poll_step(3, None), RepairPoll::Retry);
    assert_eq!(repair_poll_step(3, Some(None)), RepairPoll::Interrupted);
    assert_eq!(
        repair_poll_step(3, Some(Some((40, 80)))),
        RepairPoll::Report { sample: ProgressSample::downloading(3, 40, 80), done: false }
    );
    assert_eq!(
        repair_poll_step(3, Some(Some((80, 80)))),
        RepairPoll::Report { sample: ProgressSample::downloading(3, 80, 80), done: true }
    );
}

#[test]
fn missing_items_in_order() {
    let required = vec![5u64, 6, 7, 8];
    let installed = vec![true, false, true, false];
    assert_eq!(steam_get_missing_mods_for_server(&required, Some(&installed)), Ok(vec![6, 8]));
    assert_eq!(
        steam_get_missing_mods_for_server(&required, None),
        Err(CommandError::ServiceUnavailable)
    );
    assert_eq!(steam_get_missing_mods_for_server(&vec![], Some(&vec![])), Ok(vec![]));
}

#[test]
fn installed_items_in_order() {
    let subscribed = vec![5u64, 6, 7, 8];
    let installed = vec![true, false, true, false];
    assert_eq!(installed_items(&subscribed, &installed), vec![5, 7]);
}
