use mod_queue::dispatcher::{dispatch_step, DispatchAction};
use mod_queue::error::CommandError;
use mod_queue::progress::{classify, ItemClassification, ProgressSample};
use mod_queue::queue::{mdq_active_download_id, mdq_mod_add, DownloadQueue};

#[test]
fn not_started_item_is_subscribed_then_reports_half() {
    let mut q = DownloadQueue::new();
    assert_eq!(mdq_mod_add(&mut q, 42, Some(false)), Ok(()));

    let first = dispatch_step(&mut q, Some(classify(false, None)));
    assert_eq!(first, DispatchAction::Subscribe(42));
    assert_eq!(q.to_vec(), vec![42]);
    assert_eq!(mdq_active_download_id(&q), Ok(42));

    let second = dispatch_step(&mut q, Some(classify(false, Some((500, 1000)))));
    let sample = match second {
        DispatchAction::Emit(s) => s,
        other => panic!("expected a progress report, got {:?}", other),
    };
    assert_eq!(sample, ProgressSample::downloading(42, 500, 1000));
    assert_eq!(sample.percent_basis_points(), Some(5000));
    let percentage = sample.bytes_downloaded as f64 / sample.bytes_total as f64 * 100.0;
    assert_eq!(percentage, 50.0);
    assert_eq!(q.to_vec(), vec![42]);
}

#[test]
fn installed_item_is_reported_and_dropped() {
    let mut q = DownloadQueue::new();
    assert_eq!(mdq_mod_add(&mut q, 7, Some(true)), Err(CommandError::AlreadyInstalled));
    assert!(q.contains(7));
    let a = dispatch_step(&mut q, Some(classify(true, None)));
    let sample = match a {
        DispatchAction::Emit(s) => s,
        other => panic!("expected a terminal report, got {:?}", other),
    };
    assert_eq!(sample.item_id, 7);
    assert_eq!(sample.bytes_downloaded, 0);
    assert_eq!(sample.bytes_total, 0);
    assert!(sample.terminal);
    assert_eq!(sample.percent_basis_points(), Some(10000));
    assert_eq!(q.len(), 0);
}

#[test]
fn no_service_leaves_queue_alone() {
    let mut q = DownloadQueue::new();
    mdq_mod_add(&mut q, 1, Some(false)).unwrap();
    mdq_mod_add(&mut q, 2, Some(false)).unwrap();
    assert_eq!(dispatch_step(&mut q, None), DispatchAction::Idle);
    assert_eq!(q.to_vec(), vec![1, 2]);
}

#[test]
fn empty_queue_is_idle() {
    let mut q = DownloadQueue::new();
    assert_eq!(dispatch_step(&mut q, Some(ItemClassification::NotStarted)), DispatchAction::Idle);
    assert_eq!(q.len(), 0);
}

#[test]
fn head_keeps_priority_over_later_items() {
    let mut q = DownloadQueue::new();
    mdq_mod_add(&mut q, 1, Some(false)).unwrap();
    mdq_mod_add(&mut q, 2, Some(false)).unwrap();
    let c = ItemClassification::Downloading { downloaded: 10, total: 100 };
    dispatch_step(&mut q, Some(c));
    mdq_mod_add(&mut q, 3, Some(false)).unwrap();
    dispatch_step(&mut q, Some(c));
    assert_eq!(q.to_vec(), vec![1, 2, 3]);
    dispatch_step(&mut q, Some(ItemClassification::Installed));
    assert_eq!(q.to_vec(), vec![2, 3]);
}

#[test]
fn classify_prefers_installed() {
    assert_eq!(classify(true, Some((1, 2))), ItemClassification::Installed);
    assert_eq!(
        classify(false, Some((1, 2))),
        ItemClassification::Downloading { downloaded: 1, total: 2 }
    );
    assert_eq!(classify(false, None), ItemClassification::NotStarted);
}

#[test]
fn percentage_formula() {
    assert_eq!(ProgressSample::downloading(1, 1, 3).percent_basis_points(), Some(3333));
    assert_eq!(ProgressSample::downloading(1, 0, 0).percent_basis_points(), None);
    assert_eq!(
        ProgressSample::downloading(1, u64::MAX, 1).percent_basis_points(),
        Some(u64::MAX as u128 * 10000)
    );
    assert_eq!(ProgressSample::installed(5).percent_basis_points(), Some(10000));
}

#[test]
fn completion_of_samples() {
    assert!(ProgressSample::downloading(1, 100, 100).is_complete());
    assert!(!ProgressSample::downloading(1, 99, 100).is_complete());
    assert!(!ProgressSample::downloading(1, 0, 0).is_complete());
    assert!(ProgressSample::downloading(1, 5, 0).is_complete());
    assert!(ProgressSample::installed(1).is_complete());
}
