use param_sync::protocol::Command;
use param_sync::training_coordinator::{Broadcast, CoordinatorState, Target, TrainingCoordinator};

fn b(target: Target, command: Command) -> Broadcast {
    Broadcast { target, command }
}

fn report(tc: &mut TrainingCoordinator, n: u16, w_type: &str, message: &str) -> Vec<Broadcast> {
    let mut all = Vec::new();
    for id in 1..=n {
        assert!(tc.can_handle(message, w_type));
        all.extend(tc.handle_message(id, message, w_type).unwrap());
    }
    all
}

#[test]
fn new_coordinator_defaults() {
    let tc = TrainingCoordinator::new();
    assert_eq!(tc.state(), CoordinatorState::Initializing);
    assert_eq!(tc.num_workers(), 4);
    assert_eq!(tc.num_param_servers(), 2);
    assert_eq!(tc.max_cycles(), 3);
    assert_eq!(tc.cycle(), 0);
    assert!(!tc.cycles_complete());
}

#[test]
fn unknown_message_changes_nothing() {
    let mut tc = TrainingCoordinator::new();
    assert!(tc.handle_message(1, "hello", "worker").is_none());
    assert!(tc.handle_message(1, "wait", "observer").is_none());
    assert_eq!(tc.state(), CoordinatorState::Initializing);
    // Three real waits plus the ignored ones do not start the cycle.
    assert!(report(&mut tc, 3, "worker", "wait").is_empty());
    assert!(report(&mut tc, 2, "param_server", "wait").is_empty());
    assert_eq!(tc.state(), CoordinatorState::Initializing);
}

#[test]
fn full_run_of_three_cycles() {
    let mut tc = TrainingCoordinator::new();
    assert!(report(&mut tc, 4, "worker", "wait").is_empty());
    let started = report(&mut tc, 2, "param_server", "wait");
    assert_eq!(started, vec![b(Target::Workers, Command::Compute)]);
    assert_eq!(tc.state(), CoordinatorState::WorkersComputing);
    for cycle in 0..3u32 {
        assert_eq!(tc.cycle(), cycle);
        assert_eq!(report(&mut tc, 4, "worker", "compute_done"), vec![b(Target::Workers, Command::Send)]);
        assert_eq!(tc.state(), CoordinatorState::WorkersSending);
        assert!(report(&mut tc, 4, "worker", "send_done").is_empty());
        assert_eq!(tc.state(), CoordinatorState::ParamServersReceiving);
        assert_eq!(
            report(&mut tc, 2, "param_server", "receive_done"),
            vec![b(Target::ParamServers, Command::Compute)]
        );
        assert_eq!(tc.state(), CoordinatorState::ParamServersComputing);
        assert_eq!(
            report(&mut tc, 2, "param_server", "compute_done"),
            vec![b(Target::ParamServers, Command::Send)]
        );
        assert_eq!(tc.state(), CoordinatorState::ParamServersSending);
        let end = report(&mut tc, 2, "param_server", "send_done");
        if cycle < 2 {
            assert_eq!(end, vec![b(Target::Workers, Command::Compute)]);
            assert_eq!(tc.state(), CoordinatorState::WorkersComputing);
            assert!(!tc.cycles_complete());
        } else {
            assert!(end.is_empty());
            assert_eq!(tc.state(), CoordinatorState::ParamServersSending);
            assert!(tc.cycles_complete());
        }
    }
    assert_eq!(tc.cycle(), 3);
}

#[test]
fn early_reports_cascade_through_stages() {
    let mut tc = TrainingCoordinator::new();
    // Compute and send reports arrive before the components report ready.
    assert!(report(&mut tc, 4, "worker", "compute_done").is_empty());
    assert!(report(&mut tc, 4, "worker", "send_done").is_empty());
    assert!(report(&mut tc, 4, "worker", "wait").is_empty());
    assert_eq!(tc.state(), CoordinatorState::Initializing);
    let out = report(&mut tc, 2, "param_server", "wait");
    assert_eq!(
        out,
        vec![b(Target::Workers, Command::Compute), b(Target::Workers, Command::Send)]
    );
    assert_eq!(tc.state(), CoordinatorState::ParamServersReceiving);
}

#[test]
fn whole_cycle_in_one_report_when_everything_arrived_early() {
    let mut tc = TrainingCoordinator::new();
    report(&mut tc, 4, "worker", "compute_done");
    report(&mut tc, 4, "worker", "send_done");
    report(&mut tc, 2, "param_server", "receive_done");
    report(&mut tc, 2, "param_server", "compute_done");
    report(&mut tc, 2, "param_server", "send_done");
    report(&mut tc, 4, "worker", "wait");
    report(&mut tc, 1, "param_server", "wait");
    assert!(tc.can_handle("wait", "param_server"));
    let out = tc.handle_message(2, "wait", "param_server").unwrap();
    assert_eq!(
        out,
        vec![
            b(Target::Workers, Command::Compute),
            b(Target::Workers, Command::Send),
            b(Target::ParamServers, Command::Compute),
            b(Target::ParamServers, Command::Send),
            b(Target::Workers, Command::Compute),
        ]
    );
    assert_eq!(tc.cycle(), 1);
    assert_eq!(tc.state(), CoordinatorState::WorkersComputing);
}

#[test]
fn extra_reports_after_the_last_cycle_count_again() {
    let mut tc = TrainingCoordinator::new();
    report(&mut tc, 4, "worker", "wait");
    report(&mut tc, 2, "param_server", "wait");
    for _ in 0..3 {
        report(&mut tc, 4, "worker", "compute_done");
        report(&mut tc, 4, "worker", "send_done");
        report(&mut tc, 2, "param_server", "receive_done");
        report(&mut tc, 2, "param_server", "compute_done");
        report(&mut tc, 2, "param_server", "send_done");
    }
    assert_eq!(tc.cycle(), 3);
    assert!(report(&mut tc, 2, "param_server", "send_done").is_empty());
    assert_eq!(tc.cycle(), 4);
    assert_eq!(tc.state(), CoordinatorState::ParamServersSending);
}
