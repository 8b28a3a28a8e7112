use webguard::dispatch::DispatchState;
use webguard::model::MonitorType;
use webguard::tasks::build_task_list;
use webguard::tasks::MonitorRow;
use webguard::tasks::MonitorTask;

fn row(id: u128, kind: MonitorType, name: Option<&str>) -> MonitorRow {
    MonitorRow {
        domain_id: id,
        monitor_type: kind,
        domain_name: name.map(String::from),
    }
}

#[test]
fn test_build_task_list_filters_and_orders() {
    let rows = vec![
        row(1, MonitorType::Uptime, Some("a.example")),
        row(2, MonitorType::SslCert, Some("b.example")),
        row(3, MonitorType::DomainDns, Some("c.example")),
        row(4, MonitorType::Uptime, None),
        row(5, MonitorType::SecurityHeaders, Some("e.example")),
        row(6, MonitorType::SslCert, Some("f.example")),
    ];
    let tasks = build_task_list(&rows);
    assert_eq!(tasks.len(), 3);
    match &tasks[0] {
        MonitorTask::UptimeCheck { domain_id, domain_name } => {
            assert_eq!(*domain_id, 1);
            assert_eq!(domain_name, "a.example");
        }
        other => panic!("unexpected task: {:?}", other),
    }
    match &tasks[1] {
        MonitorTask::SslCheck { domain_id, domain_name } => {
            assert_eq!(*domain_id, 2);
            assert_eq!(domain_name, "b.example");
        }
        other => panic!("unexpected task: {:?}", other),
    }
    assert_eq!(tasks[2].target(), 6);
}

#[test]
fn test_duplicate_target_is_skipped_without_side_effects() {
    // A target already in flight: the new attempt performs nothing and
    // leaves the state untouched.
    let mut state = DispatchState::new(2);
    assert!(state.try_begin(7));
    assert_eq!(state.running_count(), 1);
    assert!(state.is_in_flight(7));

    assert!(!state.try_begin(7));
    assert_eq!(state.running_count(), 1);
    assert!(state.is_in_flight(7));

    state.finish(7);
    assert_eq!(state.running_count(), 0);
    assert!(!state.is_in_flight(7));
}

#[test]
fn test_ceiling_bounds_concurrency() {
    // Five tasks under a ceiling of two: never more than two run at once,
    // and all five complete.
    let mut state = DispatchState::new(2);
    let mut pending: Vec<u128> = vec![1, 2, 3, 4, 5];
    let mut running: Vec<u128> = Vec::new();
    let mut completed: Vec<u128> = Vec::new();
    let mut max_running = 0;

    while !pending.is_empty() || !running.is_empty() {
        // Launch while a concurrency unit is free, as the dispatcher does.
        while !pending.is_empty() && state.running_count() < 2 {
            let target = pending.remove(0);
            assert!(state.try_begin(target));
            running.push(target);
        }
        max_running = max_running.max(state.running_count());
        assert!(state.running_count() <= 2);
        // One running probe completes.
        let done = running.remove(0);
        state.finish(done);
        completed.push(done);
    }

    assert_eq!(max_running, 2);
    assert_eq!(completed, vec![1, 2, 3, 4, 5]);
    assert_eq!(state.running_count(), 0);
}
