use param_sync::protocol::{route_command, same_text, Command, Report};

#[test]
fn command_parse_reads_known_texts() {
    assert_eq!(Command::parse("compute"), Some(Command::Compute));
    assert_eq!(Command::parse("send"), Some(Command::Send));
}

#[test]
fn command_parse_rejects_other_texts() {
    assert_eq!(Command::parse(""), None);
    assert_eq!(Command::parse("Compute"), None);
    assert_eq!(Command::parse("compute "), None);
    assert_eq!(Command::parse("receive_done"), None);
}

#[test]
fn command_text_round_trips() {
    for c in [Command::Compute, Command::Send] {
        assert_eq!(Command::parse(c.text()), Some(c));
    }
    assert_eq!(Command::Compute.text(), "compute");
    assert_eq!(Command::Send.text(), "send");
}

#[test]
fn report_parse_reads_every_known_pair() {
    assert_eq!(Report::parse("worker", "wait"), Some(Report::WorkerWait));
    assert_eq!(Report::parse("worker", "compute_done"), Some(Report::WorkerComputeDone));
    assert_eq!(Report::parse("worker", "send_done"), Some(Report::WorkerSendDone));
    assert_eq!(Report::parse("param_server", "wait"), Some(Report::ParamServerWait));
    assert_eq!(Report::parse("param_server", "receive_done"), Some(Report::ParamServerReceiveDone));
    assert_eq!(Report::parse("param_server", "compute_done"), Some(Report::ParamServerComputeDone));
    assert_eq!(Report::parse("param_server", "send_done"), Some(Report::ParamServerSendDone));
}

#[test]
fn report_parse_rejects_unknown_pairs() {
    assert_eq!(Report::parse("worker", "receive_done"), None);
    assert_eq!(Report::parse("coordinator", "wait"), None);
    assert_eq!(Report::parse("param_server", "done"), None);
    assert_eq!(Report::parse("", ""), None);
}

#[test]
fn report_texts_round_trip() {
    let all = [
        Report::WorkerWait,
        Report::WorkerComputeDone,
        Report::WorkerSendDone,
        Report::ParamServerWait,
        Report::ParamServerReceiveDone,
        Report::ParamServerComputeDone,
        Report::ParamServerSendDone,
    ];
    for r in all {
        assert_eq!(Report::parse(r.reporter(), r.message()), Some(r));
    }
    assert_eq!(Report::ParamServerReceiveDone.reporter(), "param_server");
    assert_eq!(Report::ParamServerReceiveDone.message(), "receive_done");
    assert_eq!(Report::WorkerComputeDone.reporter(), "worker");
}

#[test]
fn routing_passes_broadcast_and_own_commands() {
    assert_eq!(route_command(3, 0, "compute"), Some(Command::Compute));
    assert_eq!(route_command(3, 3, "send"), Some(Command::Send));
    assert_eq!(route_command(3, 2, "send"), None);
    assert_eq!(route_command(3, 3, "stop"), None);
}

#[test]
fn same_text_compares_characters() {
    assert!(same_text("abc", "abc"));
    assert!(!same_text("abc", "abd"));
    assert!(!same_text("abc", "ab"));
    assert!(same_text("", ""));
}
