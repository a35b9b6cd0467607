use dxcllistener::listener::{ListenError, Listener, WorkerExit};
use dxcllistener::worker::{
    check_read_result, Action, ConnectOutcome, Event, ReadFailure, ReadOutcome, Worker,
    WriteOutcome,
};
use dxclparser::{Spot, DX};

#[test]
fn server_that_logs_in_sends_one_spot_and_garbage_then_closes() {
    let mut listener = Listener::new("cluster.example".to_string(), 7300, "DL1ABC".to_string());
    assert_eq!(listener.listen(ConnectOutcome::Connected), Ok(()));

    let sent = [
        "login:\n",
        "DX de K1ABC:     14025.0  W1XYZ        599 into N. MI                 1812Z\n",
        "garbage\n",
    ];
    let mut worker = Worker::new(listener.callsign.clone());
    let mut writes: Vec<String> = Vec::new();
    let mut spots: Vec<Spot> = Vec::new();
    let mut action = worker.handle(Event::Connect(ConnectOutcome::Connected));
    let mut next = 0;
    let result = loop {
        action = match action {
            Action::Connect => panic!("the worker was told that it is connected"),
            Action::Read => {
                let outcome = if next < sent.len() {
                    next += 1;
                    check_read_result(Ok(sent[next - 1].len()), sent[next - 1].to_string())
                } else {
                    check_read_result(Ok(0), String::new())
                };
                worker.handle(Event::Read { stop: false, outcome })
            }
            Action::Send(text) => {
                let written = text.len();
                writes.push(text);
                worker.handle(Event::Sent(WriteOutcome::Accepted(written)))
            }
            Action::Deliver(spot) => {
                spots.push(spot);
                worker.handle(Event::Delivered(true))
            }
            Action::Finish(result) => break result,
        };
    };
    listener.worker_exited();

    assert_eq!(writes, vec!["DL1ABC\r\n".to_string()]);
    assert_eq!(
        spots,
        vec![Spot::DX(DX {
            call_de: "K1ABC".into(),
            call_dx: "W1XYZ".into(),
            freq: 14025000,
            utc: 1812,
            loc: None,
            comment: Some("599 into N. MI".into()),
        })]
    );
    assert!(!listener.is_running());
    assert_eq!(listener.join(WorkerExit::Returned(result)), Err(ListenError::ConnectionLost));
    assert_eq!(
        listener.join(WorkerExit::Returned(result)),
        Err(ListenError::AlreadyJoined)
    );
}

#[test]
fn silent_server_fails_the_login_after_ten_timeouts() {
    let mut worker = Worker::new("DL1ABC".to_string());
    let mut action = worker.on_connect(ConnectOutcome::Connected);
    let mut reads = 0;
    while action == Action::Read {
        reads += 1;
        action = worker.on_read(false, check_read_result(Err(ReadFailure::TimedOut), String::new()));
    }
    assert_eq!(reads, 10);
    assert_eq!(action, Action::Finish(Err(ListenError::AuthenticationError)));
}

#[test]
fn stop_request_ends_a_streaming_connection_with_ok() {
    let mut listener = Listener::new("cluster.example".to_string(), 7300, "DL1ABC".to_string());
    assert_eq!(listener.listen(ConnectOutcome::Connected), Ok(()));
    let mut worker = Worker::new(listener.callsign.clone());
    assert_eq!(worker.on_connect(ConnectOutcome::Connected), Action::Read);
    assert_eq!(
        worker.on_read(false, ReadOutcome::Timeout("login:".to_string())),
        Action::Send("DL1ABC\r\n".to_string())
    );
    assert_eq!(worker.on_sent(WriteOutcome::Accepted(8)), Action::Read);
    assert_eq!(worker.on_read(false, ReadOutcome::Timeout(String::new())), Action::Read);

    assert_eq!(listener.request_stop(true), Ok(()));
    let action = worker.on_read(true, ReadOutcome::Timeout(String::new()));
    assert_eq!(action, Action::Finish(Ok(())));
    assert_eq!(
        worker.on_read(
            false,
            ReadOutcome::Line("WX de VA3SAE: va3sub\n".to_string())
        ),
        Action::Finish(Ok(()))
    );
    assert_eq!(listener.join(WorkerExit::Returned(worker.result().unwrap())), Ok(()));
}
