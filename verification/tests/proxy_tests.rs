use param_sync::param_server::ParamServer;
use param_sync::param_server_proxy::ParamServerProxy;
use param_sync::protocol::Command;
use param_sync::worker::Worker;
use param_sync::worker_proxy::{ProxyAction, ProxyState, WorkerProxy};

#[test]
fn worker_proxy_round_sends_the_computed_gradient() {
    let mut p: WorkerProxy<Vec<i32>> = WorkerProxy::new(2);
    assert!(matches!(p.on_command(2, "compute"), ProxyAction::Compute));
    assert_eq!(p.state(), ProxyState::Compute);
    p.store_gradient(vec![1, 2, 3]);
    match p.on_command(2, "send") {
        ProxyAction::Send(Some(g)) => assert_eq!(g, vec![1, 2, 3]),
        other => panic!("unexpected action {:?}", other),
    }
    assert_eq!(p.state(), ProxyState::Wait);
    // Nothing is held any more: a second round without a new gradient sends none.
    assert!(matches!(p.on_command(2, "compute"), ProxyAction::Compute));
    assert!(matches!(p.on_command(2, "send"), ProxyAction::Send(None)));
}

#[test]
fn worker_proxy_ignores_other_ids_and_out_of_order_commands() {
    let mut p: WorkerProxy<u8> = WorkerProxy::new(1);
    assert!(matches!(p.on_command(2, "compute"), ProxyAction::Ignore));
    assert!(matches!(p.on_command(0, "compute"), ProxyAction::Ignore));
    assert!(matches!(p.on_command(1, "send"), ProxyAction::Ignore));
    assert_eq!(p.state(), ProxyState::Wait);
    assert!(matches!(p.on_command(1, "compute"), ProxyAction::Compute));
    assert!(matches!(p.on_command(1, "compute"), ProxyAction::Ignore));
    assert!(matches!(p.on_command(1, "halt"), ProxyAction::Ignore));
    assert_eq!(p.state(), ProxyState::Compute);
    assert_eq!(p.id(), 1);
}

#[test]
fn param_server_proxy_reports_ready_exactly_at_worker_count() {
    let mut p: ParamServerProxy<u32> = ParamServerProxy::new(1, 4);
    let ready: Vec<bool> = (0..6u32).map(|g| p.on_gradient(g)).collect();
    assert_eq!(ready, vec![false, false, false, true, false, false]);
    assert_eq!(p.accumulator().total_collected, 6);
    assert_eq!(p.accumulator().grs, vec![0, 1, 2, 3, 4, 5]);
}

#[test]
fn param_server_proxy_round_sends_average_and_resets() {
    let mut p: ParamServerProxy<u32> = ParamServerProxy::new(2, 2);
    assert!(!p.on_gradient(7));
    assert!(p.on_gradient(9));
    assert!(matches!(p.on_command(1, "compute"), ProxyAction::Ignore));
    assert!(matches!(p.on_command(2, "send"), ProxyAction::Ignore));
    assert!(matches!(p.on_command(2, "compute"), ProxyAction::Compute));
    p.store_average(8);
    match p.on_command(2, "send") {
        ProxyAction::Send(Some(avg)) => assert_eq!(avg, 8),
        other => panic!("unexpected action {:?}", other),
    }
    assert_eq!(p.state(), ProxyState::Wait);
    assert_eq!(p.accumulator().total_collected, 0);
    assert!(p.accumulator().grs.is_empty());
    // The next cycle reports ready again at the second gradient.
    assert!(!p.on_gradient(1));
    assert!(p.on_gradient(2));
}

#[test]
fn worker_routes_commands_for_itself_and_for_all() {
    let w = Worker::new(vec![0u8; 10], 3);
    assert_eq!(w.model_vec.len(), 10);
    assert_eq!(w.route_command(0, "compute"), Some(Command::Compute));
    assert_eq!(w.route_command(3, "send"), Some(Command::Send));
    assert_eq!(w.route_command(4, "compute"), None);
    assert_eq!(w.route_command(3, "wait"), None);
}

#[test]
fn param_server_routes_commands_for_itself_and_for_all() {
    let ps = ParamServer::new(2, (0, 9), 4);
    assert_eq!(ps.gradient_range, (0, 9));
    assert_eq!(ps.num_workers, 4);
    assert_eq!(ps.route_command(0, "send"), Some(Command::Send));
    assert_eq!(ps.route_command(2, "compute"), Some(Command::Compute));
    assert_eq!(ps.route_command(1, "compute"), None);
    assert_eq!(ps.route_command(2, "receive_done"), None);
}
