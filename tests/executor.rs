use rom_deploy::executor::{
    completion_of, make_handle_id, window_speed, CopyOutcome, DeployError, DeploymentExecutor, JobAction,
};
use rom_deploy::model::{
    CommandError, DeploymentItem, DeploymentItemKind, DeploymentPlan, DeploymentRecord,
    DeploymentStatus,
};

fn item(n: u32, bytes: u64) -> DeploymentItem {
    DeploymentItem {
        kind: DeploymentItemKind::Rom,
        source_path: format!("/lib/{}.rom", n),
        dest_path: format!("/sd/roms/{}.rom", n),
        bytes,
        platform_id: None,
        game_id: Some(n as i64),
    }
}

fn plan(dest: &str, sizes: &[u64]) -> DeploymentPlan {
    let items: Vec<DeploymentItem> =
        sizes.iter().enumerate().map(|(k, b)| item(k as u32, *b)).collect();
    DeploymentPlan {
        plan_id: "plan".to_string(),
        device_profile_id: 7,
        destination_path: dest.to_string(),
        resolved_paths: None,
        total_files: items.len() as u64,
        total_bytes: sizes.iter().sum(),
        items,
        warnings: vec!["w".to_string()],
    }
}

fn next_copy(ex: &mut DeploymentExecutor, h: &str) -> usize {
    match ex.next_action(h, "t1").unwrap() {
        JobAction::CopyItem { index, .. } => index,
        other => panic!("expected a copy, got {:?}", other),
    }
}

fn finish(ex: &mut DeploymentExecutor, h: &str) -> DeploymentRecord {
    match ex.next_action(h, "t-end").unwrap() {
        JobAction::Finished { record } => record,
        other => panic!("expected the end, got {:?}", other),
    }
}

#[test]
fn one_unreadable_item_still_completes() {
    let mut ex = DeploymentExecutor::new();
    let h = ex.start(plan("/sd", &[10, 20, 30, 40]), 3, false, "t0".to_string()).unwrap();
    let h = h.handle_id.as_str();
    assert_eq!(next_copy(&mut ex, h), 0);
    ex.record_outcome(h, CopyOutcome::Copied, 10).unwrap();
    assert_eq!(next_copy(&mut ex, h), 1);
    let p = ex
        .record_outcome(h, CopyOutcome::ItemFailed { message: "unreadable".to_string() }, 10)
        .unwrap();
    assert_eq!(p.bytes_transferred, 10);
    assert_eq!(p.message, Some("unreadable".to_string()));
    assert_eq!(next_copy(&mut ex, h), 2);
    ex.record_outcome(h, CopyOutcome::Copied, 10).unwrap();
    assert_eq!(next_copy(&mut ex, h), 3);
    let p = ex.record_outcome(h, CopyOutcome::Copied, 10).unwrap();
    assert_eq!((p.current, p.total), (4, 4));
    let rec = finish(&mut ex, h);
    assert_eq!(rec.status, DeploymentStatus::Completed);
    assert_eq!(rec.total_files, 3);
    assert_eq!(rec.total_bytes, 80);
    assert_eq!(rec.errors, vec!["failed to copy /lib/1.rom: unreadable".to_string()]);
    assert_eq!(rec.warnings, vec!["w".to_string()]);
    assert_eq!(rec.finished_at, Some("t-end".to_string()));
    assert_eq!(rec.device_id, 3);
    assert_eq!(rec.device_profile_id, 7);
    assert!(ex.jobs.is_empty());
    let done = completion_of(&rec);
    assert!(done.success);
    assert_eq!(done.errors, rec.errors);
    assert_eq!(done.warnings, vec!["w".to_string()]);
}

#[test]
fn second_job_on_same_destination_conflicts() {
    let mut ex = DeploymentExecutor::new();
    let first = ex.start(plan("/sd", &[1]), 1, false, "t0".to_string()).unwrap();
    let second = ex.start(plan("/sd", &[2]), 1, false, "t0".to_string());
    assert_eq!(second.unwrap_err(), DeployError::Conflict);
    assert_eq!(ex.jobs.len(), 1);
    let other = ex.start(plan("/usb", &[2]), 1, false, "t0".to_string()).unwrap();
    assert_ne!(first.handle_id, other.handle_id);
    assert_eq!(ex.jobs.len(), 2);
}

#[test]
fn pause_and_resume_keep_progress() {
    let mut ex = DeploymentExecutor::new();
    let h = ex.start(plan("/sd", &[5, 7, 11]), 1, false, "t0".to_string()).unwrap();
    let h = h.handle_id.as_str();
    next_copy(&mut ex, h);
    ex.pause(h).unwrap();
    // The item in flight still finishes while paused.
    ex.record_outcome(h, CopyOutcome::Copied, 1).unwrap();
    assert!(matches!(ex.next_action(h, "t"), Ok(JobAction::Wait)));
    assert_eq!(ex.pause(h), Err(DeployError::NotRunning));
    ex.resume(h).unwrap();
    assert_eq!(ex.resume(h), Err(DeployError::NotPaused));
    assert_eq!(next_copy(&mut ex, h), 1);
    ex.record_outcome(h, CopyOutcome::Copied, 1).unwrap();
    ex.pause(h).unwrap();
    ex.resume(h).unwrap();
    assert_eq!(next_copy(&mut ex, h), 2);
    let p = ex.record_outcome(h, CopyOutcome::Copied, 1).unwrap();
    assert_eq!(p.bytes_transferred, 23);
    let rec = finish(&mut ex, h);
    assert_eq!(rec.total_bytes, 23);
    assert_eq!(rec.total_files, 3);
}

#[test]
fn cancel_finalizes_and_handle_stops_working() {
    let mut ex = DeploymentExecutor::new();
    let h = ex.start(plan("/sd", &[5, 7]), 1, false, "t0".to_string()).unwrap();
    let h = h.handle_id.as_str();
    next_copy(&mut ex, h);
    ex.record_outcome(h, CopyOutcome::Copied, 1).unwrap();
    ex.cancel(h).unwrap();
    assert_eq!(ex.cancel(h), Err(DeployError::NotRunning));
    let rec = finish(&mut ex, h);
    assert_eq!(rec.status, DeploymentStatus::Cancelled);
    assert_eq!(rec.total_bytes, 5);
    assert_eq!(ex.pause(h), Err(DeployError::NotRunning));
    assert_eq!(ex.resume(h), Err(DeployError::NotRunning));
    assert_eq!(ex.cancel(h), Err(DeployError::NotRunning));
    assert!(matches!(ex.next_action(h, "t"), Err(DeployError::NotRunning)));
    assert_eq!(ex.pause("deployment-99"), Err(DeployError::UnknownHandle));
    // The destination is free again.
    assert!(ex.start(plan("/sd", &[1]), 1, false, "t0".to_string()).is_ok());
}

#[test]
fn destination_failure_fails_the_job() {
    let mut ex = DeploymentExecutor::new();
    let h = ex.start(plan("/sd", &[5, 7, 9]), 1, false, "t0".to_string()).unwrap();
    let h = h.handle_id.as_str();
    next_copy(&mut ex, h);
    ex.record_outcome(h, CopyOutcome::Copied, 1).unwrap();
    next_copy(&mut ex, h);
    let p = ex
        .record_outcome(
            h,
            CopyOutcome::DestinationFailed { message: "no space left".to_string() },
            1,
        )
        .unwrap();
    assert_eq!(p.current, 1);
    assert_eq!(
        ex.record_outcome(h, CopyOutcome::Copied, 1).unwrap_err(),
        DeployError::NotRunning
    );
    let rec = finish(&mut ex, h);
    assert_eq!(rec.status, DeploymentStatus::Failed);
    assert_eq!(
        rec.errors,
        vec![
            "no space left".to_string(),
            "skipped: /lib/1.rom".to_string(),
            "skipped: /lib/2.rom".to_string(),
        ]
    );
    assert_eq!(rec.total_files, 1);
    let done = completion_of(&rec);
    assert!(!done.success);
    assert_eq!(done.errors.len(), 3);
    assert_eq!(done.handle_id, rec.id);
}

#[test]
fn bad_plans_and_stray_outcomes_are_refused() {
    let mut ex = DeploymentExecutor::new();
    let mut p = plan("/sd", &[5, 7]);
    p.total_bytes = 3;
    assert_eq!(ex.start(p, 1, false, "t0".to_string()).unwrap_err(), DeployError::InvalidPlan);
    let mut p = plan("/sd", &[5, 7]);
    p.total_files = 3;
    assert_eq!(ex.start(p, 1, false, "t0".to_string()).unwrap_err(), DeployError::InvalidPlan);
    assert!(ex.jobs.is_empty());
    let h = ex.start(plan("/sd", &[]), 1, false, "t0".to_string()).unwrap();
    assert_eq!(
        ex.record_outcome(&h.handle_id, CopyOutcome::Copied, 1).unwrap_err(),
        DeployError::NothingInFlight
    );
    assert_eq!(finish(&mut ex, &h.handle_id).status, DeploymentStatus::Completed);
    assert_eq!(
        ex.record_outcome("nope", CopyOutcome::Copied, 1).unwrap_err(),
        DeployError::UnknownHandle
    );
}

#[test]
fn handles_count_up() {
    assert_eq!(make_handle_id(0), "deployment-0");
    assert_eq!(make_handle_id(42), "deployment-42");
    assert_eq!(make_handle_id(1907), "deployment-1907");
    let mut ex = DeploymentExecutor::new();
    let a = ex.start(plan("/a", &[1]), 1, false, "t".to_string()).unwrap();
    let b = ex.start(plan("/b", &[1]), 1, false, "t".to_string()).unwrap();
    assert_eq!(a.handle_id, "deployment-0");
    assert_eq!(b.handle_id, "deployment-1");
}

#[test]
fn speed_is_bytes_per_second() {
    assert_eq!(window_speed(&vec![(5_000, 500)]), 10_000);
    assert_eq!(window_speed(&vec![(300, 0)]), 300_000);
    assert_eq!(window_speed(&vec![(u64::MAX, 1)]), u64::MAX);
    assert_eq!(window_speed(&vec![(1_000, 100), (0, 100), (3_000, 200)]), 10_000);
    assert_eq!(window_speed(&vec![]), 0);
    let mut ex = DeploymentExecutor::new();
    let h = ex.start(plan("/sd", &[2_000, 3]), 1, false, "t0".to_string()).unwrap();
    next_copy(&mut ex, &h.handle_id);
    let p = ex.record_outcome(&h.handle_id, CopyOutcome::Copied, 250).unwrap();
    assert_eq!(p.speed_bps, 8_000);
    assert_eq!(p.current_file, "/sd/roms/0.rom");
    assert_eq!(p.message, None);
}

#[test]
fn errors_map_to_command_errors() {
    assert!(matches!(
        DeployError::InvalidPlan.to_command_error(),
        CommandError::InvalidInput { .. }
    ));
    assert!(matches!(
        DeployError::Conflict.to_command_error(),
        CommandError::DeploymentFailed { .. }
    ));
}

#[test]
fn skipped_items_move_on_without_bytes_or_errors() {
    let mut ex = DeploymentExecutor::new();
    let h = ex.start(plan("/sd", &[5, 7]), 1, false, "t0".to_string()).unwrap();
    let h = h.handle_id.as_str();
    match ex.next_action(h, "t").unwrap() {
        JobAction::CopyItem { overwrite, .. } => assert!(!overwrite),
        other => panic!("expected a copy, got {:?}", other),
    }
    let p = ex.record_outcome(h, CopyOutcome::Skipped, 1).unwrap();
    assert_eq!((p.current, p.bytes_transferred, p.speed_bps), (1, 0, 0));
    assert_eq!(p.message, None);
    next_copy(&mut ex, h);
    ex.record_outcome(h, CopyOutcome::Copied, 1).unwrap();
    let rec = finish(&mut ex, h);
    assert_eq!(rec.status, DeploymentStatus::Completed);
    assert_eq!((rec.total_files, rec.total_bytes), (1, 7));
    assert!(rec.errors.is_empty());
    let h = ex.start(plan("/sd", &[5]), 1, true, "t0".to_string()).unwrap();
    match ex.next_action(&h.handle_id, "t").unwrap() {
        JobAction::CopyItem { overwrite, .. } => assert!(overwrite),
        other => panic!("expected a copy, got {:?}", other),
    }
}

#[test]
fn speed_covers_the_last_few_items() {
    let mut ex = DeploymentExecutor::new();
    let h = ex.start(plan("/sd", &[100, 100, 100, 100, 900, 7]), 1, false, "t0".to_string()).unwrap();
    let h = h.handle_id.as_str();
    let mut last = 0;
    for _ in 0..5 {
        next_copy(&mut ex, h);
        last = ex.record_outcome(h, CopyOutcome::Copied, 100).unwrap().speed_bps;
    }
    // The first item has left the window: (100 + 100 + 100 + 900) bytes in 400 ms.
    assert_eq!(last, 3_000);
    next_copy(&mut ex, h);
    let p = ex
        .record_outcome(h, CopyOutcome::ItemFailed { message: "bad".to_string() }, 600)
        .unwrap();
    // (100 + 100 + 900 + 0) bytes in 900 ms.
    assert_eq!(p.speed_bps, 1_222);
}

#[test]
fn cancelled_job_stays_cancelled_after_destination_failure() {
    let mut ex = DeploymentExecutor::new();
    let h = ex.start(plan("/sd", &[5, 7]), 1, false, "t0".to_string()).unwrap();
    let h = h.handle_id.as_str();
    next_copy(&mut ex, h);
    ex.cancel(h).unwrap();
    ex.record_outcome(h, CopyOutcome::DestinationFailed { message: "unmounted".to_string() }, 1)
        .unwrap();
    let rec = finish(&mut ex, h);
    assert_eq!(rec.status, DeploymentStatus::Cancelled);
    assert_eq!(
        rec.errors,
        vec![
            "unmounted".to_string(),
            "skipped: /lib/0.rom".to_string(),
            "skipped: /lib/1.rom".to_string(),
        ]
    );
}

#[test]
fn finished_handles_are_never_reissued() {
    let mut ex = DeploymentExecutor::new();
    let a = ex.start(plan("/sd", &[]), 1, false, "t0".to_string()).unwrap();
    finish(&mut ex, &a.handle_id);
    ex.pause(&a.handle_id).unwrap_err();
    let b = ex.start(plan("/sd", &[]), 1, false, "t0".to_string()).unwrap();
    assert_ne!(a.handle_id, b.handle_id);
    assert_eq!(ex.finished, vec![a.handle_id.clone()]);
}

#[test]
fn one_item_in_flight_at_a_time() {
    let mut ex = DeploymentExecutor::new();
    let h = ex.start(plan("/sd", &[5, 7]), 1, false, "t0".to_string()).unwrap();
    let h = h.handle_id.as_str();
    assert_eq!(next_copy(&mut ex, h), 0);
    assert!(matches!(ex.next_action(h, "t"), Ok(JobAction::Wait)));
    ex.cancel(h).unwrap();
    // The cancelled job waits for its running copy before it is finalized.
    assert!(matches!(ex.next_action(h, "t"), Ok(JobAction::Wait)));
    ex.record_outcome(h, CopyOutcome::Copied, 1).unwrap();
    assert_eq!(
        ex.record_outcome(h, CopyOutcome::Copied, 1).unwrap_err(),
        DeployError::NothingInFlight
    );
    let rec = finish(&mut ex, h);
    assert_eq!(rec.status, DeploymentStatus::Cancelled);
    assert_eq!((rec.total_files, rec.total_bytes), (1, 5));
}
