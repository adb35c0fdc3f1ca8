use vstd::prelude::*;

verus! {

/// Whether two strings hold the same characters.
pub fn same_text(a: &str, b: &str) -> (r: bool)
    ensures
        r == (a@ == b@),
{
    let x = a.to_owned();
    let y = b.to_owned();
    x == y
}

/// A command that the coordinator sends down to workers and parameter
/// servers, and that they pass on to their proxies.
#[derive(Clone, Copy, Debug, PartialEq, Eq, Structural)]
pub enum Command {
    Compute,
    Send,
}

/// The text that stands for a command on the wire.
pub open spec fn command_text(c: Command) -> Seq<char> {
    match c {
        Command::Compute => "compute"@,
        Command::Send => "send"@,
    }
}

/// The command that a text names, if any.
pub open spec fn command_of(text: Seq<char>) -> Option<Command> {
    if text == "compute"@ {
        Some(Command::Compute)
    } else if text == "send"@ {
        Some(Command::Send)
    } else {
        None
    }
}

impl Command {
    /// Reads a command from its text; any other text names no command.
    pub fn parse(text: &str) -> (r: Option<Command>)
        ensures
            r == command_of(text@),
    {
        if same_text(text, "compute") {
            Some(Command::Compute)
        } else if same_text(text, "send") {
            Some(Command::Send)
        } else {
            None
        }
    }

    /// The text of the command.
    pub fn text(&self) -> (r: &'static str)
        ensures
            r@ == command_text(*self),
    {
        match self {
            Command::Compute => "compute",
            Command::Send => "send",
        }
    }
}

/// Reading a command back from its text gives the same command.
pub proof fn lemma_command_round_trip(c: Command)
    ensures
        command_of(command_text(c)) == Some(c),
{
    reveal_strlit("compute");
    reveal_strlit("send");
    assert("compute"@.len() == 7);
    assert("send"@.len() == 4);
    assert("send"@ != "compute"@);
}

/// The command that a component with identifier `own_id` passes on when
/// the coordinator addresses `cmd` to `id`: identifier 0 addresses every
/// component.
pub open spec fn routed(own_id: u16, id: u16, cmd: Seq<char>) -> Option<Command> {
    if id == 0 || id == own_id {
        command_of(cmd)
    } else {
        None
    }
}

/// The command to pass on, if the coordinator addressed `cmd` to `id` and
/// the receiving component has identifier `own_id`.
pub fn route_command(own_id: u16, id: u16, cmd: &str) -> (r: Option<Command>)
    ensures
        r == routed(own_id, id, cmd@),
{
    if id == 0 || id == own_id {
        Command::parse(cmd)
    } else {
        None
    }
}

/// A progress report that a worker or a parameter server sends to the
/// coordinator: who reports, and what it reports.
#[derive(Clone, Copy, Debug, PartialEq, Eq, Structural)]
pub enum Report {
    WorkerWait,
    WorkerComputeDone,
    WorkerSendDone,
    ParamServerWait,
    ParamServerReceiveDone,
    ParamServerComputeDone,
    ParamServerSendDone,
}

/// The report that a reporter type and a message name, if any.
pub open spec fn report_of(w_type: Seq<char>, message: Seq<char>) -> Option<Report> {
    if w_type == "worker"@ {
        if message == "wait"@ {
            Some(Report::WorkerWait)
        } else if message == "compute_done"@ {
            Some(Report::WorkerComputeDone)
        } else if message == "send_done"@ {
            Some(Report::WorkerSendDone)
        } else {
            None
        }
    } else if w_type == "param_server"@ {
        if message == "wait"@ {
            Some(Report::ParamServerWait)
        } else if message == "receive_done"@ {
            Some(Report::ParamServerReceiveDone)
        } else if message == "compute_done"@ {
            Some(Report::ParamServerComputeDone)
        } else if message == "send_done"@ {
            Some(Report::ParamServerSendDone)
        } else {
            None
        }
    } else {
        None
    }
}

/// The reporter type of a report, as written on the wire.
pub open spec fn reporter_text(r: Report) -> Seq<char> {
    match r {
        Report::WorkerWait | Report::WorkerComputeDone | Report::WorkerSendDone => "worker"@,
        _ => "param_server"@,
    }
}

/// The message of a report, as written on the wire.
pub open spec fn message_text(r: Report) -> Seq<char> {
    match r {
        Report::WorkerWait | Report::ParamServerWait => "wait"@,
        Report::ParamServerReceiveDone => "receive_done"@,
        Report::WorkerComputeDone | Report::ParamServerComputeDone => "compute_done"@,
        Report::WorkerSendDone | Report::ParamServerSendDone => "send_done"@,
    }
}

impl Report {
    /// Reads a report from its reporter type and message; any other pair
    /// names no report.
    pub fn parse(w_type: &str, message: &str) -> (r: Option<Report>)
        ensures
            r == report_of(w_type@, message@),
    {
        if same_text(w_type, "worker") {
            if same_text(message, "wait") {
                Some(Report::WorkerWait)
            } else if same_text(message, "compute_done") {
                Some(Report::WorkerComputeDone)
            } else if same_text(message, "send_done") {
                Some(Report::WorkerSendDone)
            } else {
                None
            }
        } else if same_text(w_type, "param_server") {
            if same_text(message, "wait") {
                Some(Report::ParamServerWait)
            } else if same_text(message, "receive_done") {
                Some(Report::ParamServerReceiveDone)
            } else if same_text(message, "compute_done") {
                Some(Report::ParamServerComputeDone)
            } else if same_text(message, "send_done") {
                Some(Report::ParamServerSendDone)
            } else {
                None
            }
        } else {
            None
        }
    }

    /// The reporter type of the report.
    pub fn reporter(&self) -> (r: &'static str)
        ensures
            r@ == reporter_text(*self),
    {
        match self {
            Report::WorkerWait | Report::WorkerComputeDone | Report::WorkerSendDone => "worker",
            _ => "param_server",
        }
    }

    /// The message of the report.
    pub fn message(&self) -> (r: &'static str)
        ensures
            r@ == message_text(*self),
    {
        match self {
            Report::WorkerWait | Report::ParamServerWait => "wait",
            Report::ParamServerReceiveDone => "receive_done",
            Report::WorkerComputeDone | Report::ParamServerComputeDone => "compute_done",
            Report::WorkerSendDone | Report::ParamServerSendDone => "send_done",
        }
    }
}

/// Reading a report back from its reporter type and message gives the same
/// report.
pub proof fn lemma_report_round_trip(r: Report)
    ensures
        report_of(reporter_text(r), message_text(r)) == Some(r),
{
    reveal_strlit("worker");
    reveal_strlit("param_server");
    reveal_strlit("wait");
    reveal_strlit("compute_done");
    reveal_strlit("send_done");
    reveal_strlit("receive_done");
    assert("worker"@.len() != "param_server"@.len());
    assert("wait"@.len() != "compute_done"@.len());
    assert("wait"@.len() != "send_done"@.len());
    assert("wait"@.len() != "receive_done"@.len());
    assert("compute_done"@.len() != "send_done"@.len());
    assert("receive_done"@.len() != "send_done"@.len());
    assert("receive_done"@[0] != "compute_done"@[0]);
}

/// A command addressed to every component, or to the receiving component
/// itself, is passed on unchanged; one addressed to another component is
/// not passed on.
pub proof fn lemma_routing(own_id: u16, id: u16, c: Command)
    ensures
        (id == 0 || id == own_id) ==> routed(own_id, id, command_text(c)) == Some(c),
        (id != 0 && id != own_id) ==> routed(own_id, id, command_text(c)) is None,
{
    lemma_command_round_trip(c);
}

/// The command vocabulary: "compute" and "send" name the two commands, and
/// every other text names none. Each command's text is its name.
pub proof fn lemma_command_vocabulary(text: Seq<char>)
    ensures
        command_of("compute"@) == Some(Command::Compute),
        command_of("send"@) == Some(Command::Send),
        (text != "compute"@ && text != "send"@) ==> command_of(text) is None,
        command_text(Command::Compute) == "compute"@,
        command_text(Command::Send) == "send"@,
{
    lemma_command_round_trip(Command::Compute);
    lemma_command_round_trip(Command::Send);
}

/// The report vocabulary: a worker reports "wait", "compute_done" and
/// "send_done"; a parameter server reports "wait", "receive_done",
/// "compute_done" and "send_done"; each pair names its own report and every
/// other pair names none. Each report's texts are the pair that names it.
pub proof fn lemma_report_vocabulary(w_type: Seq<char>, message: Seq<char>)
    ensures
        report_of("worker"@, "wait"@) == Some(Report::WorkerWait),
        report_of("worker"@, "compute_done"@) == Some(Report::WorkerComputeDone),
        report_of("worker"@, "send_done"@) == Some(Report::WorkerSendDone),
        report_of("param_server"@, "wait"@) == Some(Report::ParamServerWait),
        report_of("param_server"@, "receive_done"@) == Some(Report::ParamServerReceiveDone),
        report_of("param_server"@, "compute_done"@) == Some(Report::ParamServerComputeDone),
        report_of("param_server"@, "send_done"@) == Some(Report::ParamServerSendDone),
        (w_type != "worker"@ && w_type != "param_server"@) ==> report_of(w_type, message) is None,
        (w_type == "worker"@ && message != "wait"@ && message != "compute_done"@ && message
            != "send_done"@) ==> report_of(w_type, message) is None,
        (w_type == "param_server"@ && message != "wait"@ && message != "receive_done"@
            && message != "compute_done"@ && message != "send_done"@) ==> report_of(
            w_type,
            message,
        ) is None,
        reporter_text(Report::WorkerWait) == "worker"@,
        reporter_text(Report::WorkerComputeDone) == "worker"@,
        reporter_text(Report::WorkerSendDone) == "worker"@,
        reporter_text(Report::ParamServerWait) == "param_server"@,
        reporter_text(Report::ParamServerReceiveDone) == "param_server"@,
        reporter_text(Report::ParamServerComputeDone) == "param_server"@,
        reporter_text(Report::ParamServerSendDone) == "param_server"@,
        message_text(Report::WorkerWait) == "wait"@,
        message_text(Report::WorkerComputeDone) == "compute_done"@,
        message_text(Report::WorkerSendDone) == "send_done"@,
        message_text(Report::ParamServerWait) == "wait"@,
        message_text(Report::ParamServerReceiveDone) == "receive_done"@,
        message_text(Report::ParamServerComputeDone) == "compute_done"@,
        message_text(Report::ParamServerSendDone) == "send_done"@,
{
    lemma_report_round_trip(Report::WorkerWait);
    lemma_report_round_trip(Report::WorkerComputeDone);
    lemma_report_round_trip(Report::WorkerSendDone);
    lemma_report_round_trip(Report::ParamServerWait);
    lemma_report_round_trip(Report::ParamServerReceiveDone);
    lemma_report_round_trip(Report::ParamServerComputeDone);
    lemma_report_round_trip(Report::ParamServerSendDone);
}

/// What a component passes on: "compute" or "send" addressed to every
/// component (identifier 0) or to the component itself, as that command;
/// nothing addressed to another component, and nothing for any other text.
pub proof fn lemma_routing_vocabulary(own_id: u16, id: u16, cmd: Seq<char>)
    ensures
        (id == 0 || id == own_id) ==> routed(own_id, id, "compute"@) == Some(Command::Compute),
        (id == 0 || id == own_id) ==> routed(own_id, id, "send"@) == Some(Command::Send),
        (id != 0 && id != own_id) ==> routed(own_id, id, cmd) is None,
        (cmd != "compute"@ && cmd != "send"@) ==> routed(own_id, id, cmd) is None,
{
    lemma_command_vocabulary(cmd);
}

} // verus!
