use mw_client::device::DeviceError;
use mw_client::frame::{Header, USBDataType};
use mw_client::machine::{Reply, Request, State, Step, Worker};

fn at(state: State, count: u32) -> Worker {
    Worker { state, count }
}

fn frame(kind: USBDataType, data: Vec<u8>) -> Reply {
    let length = data.len();
    Reply::Received(Ok((Header { datatype: kind, length }, data)))
}

fn quiet() -> Reply {
    Reply::Received(Err(DeviceError::READFAIL))
}

fn handshake_reply(version: u8) -> Vec<u8> {
    let mut d = b"OoTR".to_vec();
    d.push(version);
    d.resize(16, 7);
    d
}

fn reset_signal() -> Vec<u8> {
    let mut d = vec![0u8; 16];
    d[0] = 1;
    d
}

fn plain(step: &Step, worker: Worker, pause: bool) {
    assert_eq!(step.worker, worker);
    assert!(!step.initialize);
    assert!(!step.report_cart);
    assert_eq!(step.pause, pause);
    assert!(step.send.is_none());
}

#[test]
fn new_worker_searches() {
    let w = Worker::new();
    assert_eq!(w, at(State::Searching, 0));
    assert_eq!(w.request(), Request::Find);
    assert_eq!(at(State::Opening, 0).request(), Request::Open);
    assert_eq!(at(State::WaitForGame, 0).request(), Request::Receive);
    assert_eq!(at(State::Handshake, 0).request(), Request::Receive);
    assert_eq!(at(State::Idle, 3).request(), Request::Receive);
    assert_eq!(at(State::Closing, 0).request(), Request::Close);
    assert_eq!(at(State::Finished, 0).request(), Request::Stop);
}

#[test]
fn search_failure_is_plain_retry() {
    let w = at(State::Searching, 0);
    for s in [
        DeviceError::NOTCONNECTED,
        DeviceError::USBBUSY,
        DeviceError::NODEVICES,
        DeviceError::CANTOPEN,
        DeviceError::CLOSEFAIL,
        DeviceError::MALLOCFAIL,
        DeviceError::from_value(42),
    ] {
        plain(&w.next(Reply::Status(s)), w, true);
    }
}

#[test]
fn lost_cart_resets_device() {
    let w = at(State::Searching, 0);
    let step = w.next(Reply::Status(DeviceError::CARTFINDFAIL));
    assert!(step.initialize);
    assert!(!step.pause);
    assert!(step.send.is_none());
    assert_eq!(step.worker, w);
    assert_eq!(step.worker.request(), Request::Find);
}

#[test]
fn found_cart_opens() {
    let step = at(State::Searching, 0).next(Reply::Status(DeviceError::OK));
    assert!(step.report_cart);
    assert!(!step.pause);
    assert_eq!(step.worker.state, State::Opening);
}

#[test]
fn opening_retries_then_waits() {
    let w = at(State::Opening, 0);
    plain(&w.next(Reply::Status(DeviceError::CANTOPEN)), w, true);
    plain(&w.next(Reply::Status(DeviceError::OK)), at(State::WaitForGame, 0), false);
}

#[test]
fn waiting_ignores_non_heartbeat() {
    let w = at(State::WaitForGame, 0);
    for kind in [
        USBDataType::TEXT,
        USBDataType::RAWBINARY,
        USBDataType::HEADER,
        USBDataType::SCREENSHOT,
        USBDataType::RDBPACKET,
        USBDataType::from_tag(99),
    ] {
        plain(&w.next(frame(kind, vec![1, 2, 3])), w, true);
    }
    plain(&w.next(quiet()), w, true);
}

#[test]
fn heartbeat_sends_cmdt() {
    let w = at(State::WaitForGame, 0);
    let step = w.next(frame(USBDataType::HEARTBEAT, vec![]));
    assert!(step.pause);
    let (h, d) = step.send.clone().unwrap();
    assert_eq!(h, Header { datatype: USBDataType::TEXT, length: 4 });
    assert_eq!(d, b"cmdt".to_vec());
    plain(&step.worker.after_send(DeviceError::OK), at(State::Handshake, 0), false);
    plain(&step.worker.after_send(DeviceError::WRITEFAIL), w, false);
}

#[test]
fn bad_handshake_restarts() {
    let w = at(State::Handshake, 0);
    let wait = at(State::WaitForGame, 0);
    let short = b"OoTR\x03".to_vec();
    plain(&w.next(frame(USBDataType::RAWBINARY, short)), wait, true);
    let mut wrong = handshake_reply(3);
    wrong[1] = b'O';
    plain(&w.next(frame(USBDataType::RAWBINARY, wrong)), wait, true);
    plain(&w.next(frame(USBDataType::TEXT, handshake_reply(3))), wait, true);
    plain(&w.next(quiet()), wait, true);
}

#[test]
fn good_handshake_echoes_version() {
    let w = at(State::Handshake, 0);
    let step = w.next(frame(USBDataType::RAWBINARY, handshake_reply(0x2A)));
    assert!(!step.pause);
    let (h, d) = step.send.clone().unwrap();
    assert_eq!(h, Header { datatype: USBDataType::RAWBINARY, length: 5 });
    assert_eq!(d, vec![b'M', b'W', 0x2A, 0, 0]);
    plain(&step.worker.after_send(DeviceError::OK), at(State::Idle, 0), false);
    plain(&step.worker.after_send(DeviceError::WRITEFAIL), at(State::WaitForGame, 0), false);
}

#[test]
fn idle_reset_signal_restarts() {
    for count in [0u32, 5, 10, 11, 500] {
        let step = at(State::Idle, count).next(frame(USBDataType::RAWBINARY, reset_signal()));
        plain(&step, at(State::WaitForGame, count), false);
    }
}

#[test]
fn idle_ignores_other_data() {
    let w = at(State::Idle, 4);
    let mut other = reset_signal();
    other[15] = 9;
    plain(&w.next(frame(USBDataType::RAWBINARY, other)), w, true);
    plain(&w.next(frame(USBDataType::TEXT, vec![5])), w, true);
}

#[test]
fn idle_counts_then_gives_once_then_closes() {
    let mut w = at(State::Idle, 0);
    for i in 0..10u32 {
        let step = w.next(quiet());
        plain(&step, at(State::Idle, i + 1), true);
        w = step.worker;
    }
    let step = w.next(frame(USBDataType::HEADER, vec![]));
    assert!(!step.pause);
    let (h, d) = step.send.clone().unwrap();
    assert_eq!(h, Header { datatype: USBDataType::RAWBINARY, length: 3 });
    assert_eq!(d, vec![0x02, 0x00, 0x5A]);
    plain(&step.worker.after_send(DeviceError::WRITEFAIL), at(State::Idle, 10), true);
    let after = step.worker.after_send(DeviceError::OK);
    plain(&after, at(State::Idle, 11), true);
    plain(&after.worker.next(quiet()), at(State::Closing, 11), false);
}

#[test]
fn closing_finishes_unless_close_fails() {
    let w = at(State::Closing, 11);
    let mut cur = w;
    for _ in 0..50 {
        let step = cur.next(Reply::Status(DeviceError::CLOSEFAIL));
        plain(&step, w, false);
        cur = step.worker;
    }
    for s in [DeviceError::OK, DeviceError::NOTCONNECTED, DeviceError::from_value(77)] {
        plain(&w.next(Reply::Status(s)), at(State::Finished, 11), false);
    }
}

#[test]
fn finished_is_fixed_point() {
    let w = at(State::Finished, 3);
    plain(&w.next(Reply::Nothing), w, false);
    plain(&w.next(Reply::Status(DeviceError::OK)), w, false);
    plain(&w.next(frame(USBDataType::HEARTBEAT, vec![])), w, false);
    assert!(!w.keeps_running(true));
    assert!(at(State::Idle, 0).keeps_running(true));
    assert!(!at(State::Idle, 0).keeps_running(false));
}

/// Applies one decision, answering its send (if any) with `sent`.
fn drive(w: Worker, reply: Reply, sent: Option<DeviceError>) -> Worker {
    let step = w.next(reply);
    match step.send {
        Some(_) => step.worker.after_send(sent.unwrap()).worker,
        None => {
            assert!(sent.is_none());
            step.worker
        }
    }
}

#[test]
fn full_session() {
    let mut seen = vec![];
    let mut w = Worker::new();
    seen.push(w.state);
    w = drive(w, Reply::Status(DeviceError::OK), None);
    seen.push(w.state);
    w = drive(w, Reply::Status(DeviceError::OK), None);
    seen.push(w.state);
    w = drive(w, frame(USBDataType::HEARTBEAT, vec![]), Some(DeviceError::OK));
    seen.push(w.state);
    w = drive(w, frame(USBDataType::RAWBINARY, handshake_reply(0x03)), Some(DeviceError::OK));
    seen.push(w.state);
    for _ in 0..10 {
        w = drive(w, quiet(), None);
        assert_eq!(w.state, State::Idle);
    }
    w = drive(w, quiet(), Some(DeviceError::OK));
    assert_eq!(w, at(State::Idle, 11));
    w = drive(w, quiet(), None);
    seen.push(w.state);
    w = drive(w, Reply::Status(DeviceError::OK), None);
    seen.push(w.state);
    assert_eq!(
        seen,
        vec![
            State::Searching,
            State::Opening,
            State::WaitForGame,
            State::Handshake,
            State::Idle,
            State::Closing,
            State::Finished,
        ]
    );
}
