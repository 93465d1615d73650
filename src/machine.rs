use vstd::prelude::*;
use crate::device::DeviceError;
use crate::frame::{Header, USBDataType};

verus! {

/// How many quiet idle polls pass before the scripted write.
pub const IDLE_WAIT: u32 = 10;

/// The phase of a session.
#[derive(Clone, Copy, Debug, PartialEq, Eq, Structural)]
pub enum State {
    Searching,
    Opening,
    WaitForGame,
    Handshake,
    Idle,
    Closing,
    Finished,
}

/// The session state: the phase, and the idle counter that times the
/// scripted write.
#[derive(Clone, Copy, Debug, PartialEq, Eq, Structural)]
pub struct Worker {
    pub state: State,
    pub count: u32,
}

/// The device call that a phase begins with.
#[derive(Clone, Copy, Debug, PartialEq, Eq, Structural)]
pub enum Request {
    Find,
    Open,
    Receive,
    Close,
    Stop,
}

/// What the device answered to the call that the phase asked for.
pub enum Reply {
    /// No call was made.
    Nothing,
    /// The status of a find, open or close.
    Status(DeviceError),
    /// The result of a receive: a header and its payload, or the failure.
    Received(Result<(Header, Vec<u8>), DeviceError>),
}

/// A reply with its payload seen as a sequence of bytes.
pub enum ReplyView {
    Nothing,
    Status(DeviceError),
    Received(Result<(Header, Seq<u8>), DeviceError>),
}

impl View for Reply {
    type V = ReplyView;

    open spec fn view(&self) -> ReplyView {
        match self {
            Reply::Nothing => ReplyView::Nothing,
            Reply::Status(s) => ReplyView::Status(*s),
            Reply::Received(Ok(p)) => ReplyView::Received(Ok((p.0, p.1@))),
            Reply::Received(Err(e)) => ReplyView::Received(Err(*e)),
        }
    }
}

/// What to do after a decision: reset the device, log the cartridge kind,
/// wait one second, and then send a frame (after which `after_send` decides)
/// or go on with `worker`.
pub struct Step {
    pub worker: Worker,
    pub initialize: bool,
    pub report_cart: bool,
    pub pause: bool,
    pub send: Option<(Header, Vec<u8>)>,
}

/// A step with its outgoing payload seen as a sequence of bytes.
pub struct StepView {
    pub worker: Worker,
    pub initialize: bool,
    pub report_cart: bool,
    pub pause: bool,
    pub send: Option<(Header, Seq<u8>)>,
}

impl View for Step {
    type V = StepView;

    open spec fn view(&self) -> StepView {
        StepView {
            worker: self.worker,
            initialize: self.initialize,
            report_cart: self.report_cart,
            pause: self.pause,
            send: match self.send {
                Some(p) => Some((p.0, p.1@)),
                None => None,
            },
        }
    }
}

/// The device call that each phase begins with.
pub open spec fn request_of(s: State) -> Request {
    match s {
        State::Searching => Request::Find,
        State::Opening => Request::Open,
        State::WaitForGame | State::Handshake | State::Idle => Request::Receive,
        State::Closing => Request::Close,
        State::Finished => Request::Stop,
    }
}

/// A reply answers the phase's call: a status for find, open and close, a
/// receive result whose payload length is its header's for the receiving
/// phases; a finished session takes anything.
pub open spec fn fits(s: State, r: ReplyView) -> bool {
    match s {
        State::Searching | State::Opening | State::Closing => r matches ReplyView::Status(_),
        State::WaitForGame | State::Handshake | State::Idle => match r {
            ReplyView::Received(Ok(p)) => p.1.len() == p.0.length,
            ReplyView::Received(Err(_)) => true,
            _ => false,
        },
        State::Finished => true,
    }
}

/// The text frame that answers a heartbeat: `cmdt`.
pub open spec fn cmdt_payload() -> Seq<u8> {
    seq![0x63u8, 0x6du8, 0x64u8, 0x74u8]
}

/// The handshake reply of the console: at least 16 bytes, opening with the
/// ASCII magic `OoTR`.
pub open spec fn is_handshake_reply(d: Seq<u8>) -> bool {
    &&& d.len() >= 16
    &&& d[0] == 0x4Fu8
    &&& d[1] == 0x6Fu8
    &&& d[2] == 0x54u8
    &&& d[3] == 0x52u8
}

/// The answer to a handshake reply: `MW`, the protocol version echoed, and the
/// two configuration bytes (own items not sent, progressive items disabled).
pub open spec fn version_payload(version: u8) -> Seq<u8> {
    seq![0x4Du8, 0x57u8, version, 0u8, 0u8]
}

/// The reset signal: 16 bytes whose first four, read big-endian, are
/// `0x01000000`, and whose others are zero.
pub open spec fn is_reset_signal(d: Seq<u8>) -> bool {
    &&& d.len() == 16
    &&& d[0] == 1u8
    &&& forall|i: int| 1 <= i < 16 ==> d[i] == 0u8
}

/// The scripted one-shot write of the idle phase.
pub open spec fn gift_payload() -> Seq<u8> {
    seq![0x02u8, 0x00u8, 0x5Au8]
}

/// Go on with `w`, doing nothing else but perhaps waiting.
pub open spec fn keep(w: Worker, pause: bool) -> StepView {
    StepView { worker: w, initialize: false, report_cart: false, pause, send: None }
}

/// Move `w` to phase `s`, keeping its counter.
pub open spec fn move_to(w: Worker, s: State, pause: bool) -> StepView {
    keep(Worker { state: s, count: w.count }, pause)
}

/// Send a frame of kind `k` carrying `d`; `after_send` decides from `w`.
pub open spec fn send_from(w: Worker, pause: bool, k: USBDataType, d: Seq<u8>) -> StepView {
    StepView {
        worker: w,
        initialize: false,
        report_cart: false,
        pause,
        send: Some((Header { datatype: k, length: d.len() as usize }, d)),
    }
}

/// The idle phase, given the payload received (empty when nothing came).
pub open spec fn idle_decision(w: Worker, d: Seq<u8>) -> StepView {
    if is_reset_signal(d) {
        move_to(w, State::WaitForGame, false)
    } else if d.len() > 0 {
        keep(w, true)
    } else if w.count < IDLE_WAIT {
        keep(Worker { state: State::Idle, count: (w.count + 1) as u32 }, true)
    } else if w.count == IDLE_WAIT {
        send_from(w, false, USBDataType::RAWBINARY, gift_payload())
    } else {
        move_to(w, State::Closing, false)
    }
}

/// The decision that a phase takes on the device's reply.
pub open spec fn next_spec(w: Worker, r: ReplyView) -> StepView {
    match w.state {
        State::Searching => match r {
            ReplyView::Status(s) => if s == DeviceError::CARTFINDFAIL {
                StepView { worker: w, initialize: true, report_cart: false, pause: false, send: None }
            } else if s != DeviceError::OK {
                keep(w, true)
            } else {
                StepView {
                    worker: Worker { state: State::Opening, count: w.count },
                    initialize: false,
                    report_cart: true,
                    pause: false,
                    send: None,
                }
            },
            _ => keep(w, false),
        },
        State::Opening => match r {
            ReplyView::Status(s) => if s != DeviceError::OK {
                keep(w, true)
            } else {
                move_to(w, State::WaitForGame, false)
            },
            _ => keep(w, false),
        },
        State::WaitForGame => match r {
            ReplyView::Received(Ok(p)) => if p.0.datatype == USBDataType::HEARTBEAT {
                send_from(w, true, USBDataType::TEXT, cmdt_payload())
            } else {
                keep(w, true)
            },
            _ => keep(w, true),
        },
        State::Handshake => match r {
            ReplyView::Received(Ok(p)) => if p.0.datatype == USBDataType::RAWBINARY
                && is_handshake_reply(p.1) {
                send_from(w, false, USBDataType::RAWBINARY, version_payload(p.1[4]))
            } else {
                move_to(w, State::WaitForGame, true)
            },
            _ => move_to(w, State::WaitForGame, true),
        },
        State::Idle => match r {
            ReplyView::Received(Ok(p)) => idle_decision(w, p.1),
            _ => idle_decision(w, Seq::empty()),
        },
        State::Closing => match r {
            ReplyView::Status(s) => if s == DeviceError::CLOSEFAIL {
                keep(w, false)
            } else {
                move_to(w, State::Finished, false)
            },
            _ => keep(w, false),
        },
        State::Finished => keep(w, false),
    }
}

/// The decision that a phase takes on the status of the frame it sent.
pub open spec fn after_send_spec(w: Worker, s: DeviceError) -> StepView {
    match w.state {
        State::WaitForGame => if s == DeviceError::OK {
            move_to(w, State::Handshake, false)
        } else {
            keep(w, false)
        },
        State::Handshake => if s == DeviceError::OK {
            keep(Worker { state: State::Idle, count: 0 }, false)
        } else {
            move_to(w, State::WaitForGame, false)
        },
        State::Idle => if s == DeviceError::OK && w.count == IDLE_WAIT {
            keep(Worker { state: State::Idle, count: (w.count + 1) as u32 }, true)
        } else {
            keep(w, true)
        },
        _ => keep(w, false),
    }
}

fn keep_step(w: Worker, pause: bool) -> (r: Step)
    ensures
        r@ == keep(w, pause),
{
    Step { worker: w, initialize: false, report_cart: false, pause, send: None }
}

fn move_step(w: Worker, s: State, pause: bool) -> (r: Step)
    ensures
        r@ == move_to(w, s, pause),
{
    keep_step(Worker { state: s, count: w.count }, pause)
}

fn send_step(w: Worker, pause: bool, k: USBDataType, d: Vec<u8>) -> (r: Step)
    ensures
        r@ == send_from(w, pause, k, d@),
{
    let length = d.len();
    Step {
        worker: w,
        initialize: false,
        report_cart: false,
        pause,
        send: Some((Header { datatype: k, length }, d)),
    }
}

/// Whether `d` is the reset signal.
pub fn reset_signal(d: &Vec<u8>) -> (r: bool)
    ensures
        r == is_reset_signal(d@),
{
    if d.len() != 16 || d[0] != 1u8 {
        return false;
    }
    let mut i: usize = 1;
    while i < 16
        invariant
            d@.len() == 16,
            1 <= i <= 16,
            forall|j: int| 1 <= j < i ==> d@[j] == 0u8,
        decreases 16 - i,
    {
        if d[i] != 0u8 {
            return false;
        }
        i = i + 1;
    }
    true
}

/// Whether `d` is a well-formed handshake reply.
pub fn handshake_reply(d: &Vec<u8>) -> (r: bool)
    ensures
        r == is_handshake_reply(d@),
{
    d.len() >= 16 && d[0] == 0x4Fu8 && d[1] == 0x6Fu8 && d[2] == 0x54u8 && d[3] == 0x52u8
}

impl Worker {
    /// A session at its start: searching, with the counter at zero.
    pub fn new() -> (r: Worker)
        ensures
            r == (Worker { state: State::Searching, count: 0 }),
    {
        Worker { state: State::Searching, count: 0 }
    }

    /// The device call that the current phase needs.
    pub fn request(&self) -> (r: Request)
        ensures
            r == request_of(self.state),
    {
        match self.state {
            State::Searching => Request::Find,
            State::Opening => Request::Open,
            State::WaitForGame | State::Handshake | State::Idle => Request::Receive,
            State::Closing => Request::Close,
            State::Finished => Request::Stop,
        }
    }

    /// Whether the driver loop takes another step: while it is not stopped
    /// and the session is not finished.
    pub fn keeps_running(&self, running: bool) -> (r: bool)
        ensures
            r == (running && self.state != State::Finished),
    {
        running && self.state != State::Finished
    }

    /// The idle phase, given the payload received (empty when nothing came).
    fn idle(&self, d: Vec<u8>) -> (r: Step)
        requires
            self.state == State::Idle,
        ensures
            r@ == idle_decision(*self, d@),
    {
        if reset_signal(&d) {
            move_step(*self, State::WaitForGame, false)
        } else if d.len() > 0 {
            keep_step(*self, true)
        } else if self.count < IDLE_WAIT {
            keep_step(Worker { state: State::Idle, count: self.count + 1 }, true)
        } else if self.count == IDLE_WAIT {
            let msg: Vec<u8> = vec![0x02u8, 0x00u8, 0x5Au8];
            assert(msg@ =~= gift_payload());
            send_step(*self, false, USBDataType::RAWBINARY, msg)
        } else {
            move_step(*self, State::Closing, false)
        }
    }

    /// Decides the next step from the device's answer to this phase's call.
    pub fn next(&self, reply: Reply) -> (r: Step)
        requires
            fits(self.state, reply@),
        ensures
            r@ == next_spec(*self, reply@),
    {
        match self.state {
            State::Searching => match reply {
                Reply::Status(s) => if s == DeviceError::CARTFINDFAIL {
                    Step { worker: *self, initialize: true, report_cart: false, pause: false, send: None }
                } else if s != DeviceError::OK {
                    keep_step(*self, true)
                } else {
                    Step {
                        worker: Worker { state: State::Opening, count: self.count },
                        initialize: false,
                        report_cart: true,
                        pause: false,
                        send: None,
                    }
                },
                _ => keep_step(*self, false),
            },
            State::Opening => match reply {
                Reply::Status(s) => if s != DeviceError::OK {
                    keep_step(*self, true)
                } else {
                    move_step(*self, State::WaitForGame, false)
                },
                _ => keep_step(*self, false),
            },
            State::WaitForGame => match reply {
                Reply::Received(Ok((h, _))) => if h.datatype == USBDataType::HEARTBEAT {
                    let msg: Vec<u8> = vec![0x63u8, 0x6du8, 0x64u8, 0x74u8];
                    assert(msg@ =~= cmdt_payload());
                    send_step(*self, true, USBDataType::TEXT, msg)
                } else {
                    keep_step(*self, true)
                },
                _ => keep_step(*self, true),
            },
            State::Handshake => match reply {
                Reply::Received(Ok((h, d))) => if h.datatype == USBDataType::RAWBINARY
                    && handshake_reply(&d) {
                    let version: u8 = d[4];
                    let msg: Vec<u8> = vec![0x4Du8, 0x57u8, version, 0u8, 0u8];
                    assert(msg@ =~= version_payload(version));
                    send_step(*self, false, USBDataType::RAWBINARY, msg)
                } else {
                    move_step(*self, State::WaitForGame, true)
                },
                _ => move_step(*self, State::WaitForGame, true),
            },
            State::Idle => match reply {
                Reply::Received(Ok((_, d))) => self.idle(d),
                _ => {
                    let empty: Vec<u8> = Vec::new();
                    assert(empty@ =~= Seq::<u8>::empty());
                    self.idle(empty)
                },
            },
            State::Closing => match reply {
                Reply::Status(s) => if s == DeviceError::CLOSEFAIL {
                    keep_step(*self, false)
                } else {
                    move_step(*self, State::Finished, false)
                },
                _ => keep_step(*self, false),
            },
            State::Finished => keep_step(*self, false),
        }
    }

    /// Decides the next step from the status of the frame that the last step
    /// sent.
    pub fn after_send(&self, status: DeviceError) -> (r: Step)
        ensures
            r@ == after_send_spec(*self, status),
    {
        match self.state {
            State::WaitForGame => if status == DeviceError::OK {
                move_step(*self, State::Handshake, false)
            } else {
                keep_step(*self, false)
            },
            State::Handshake => if status == DeviceError::OK {
                keep_step(Worker { state: State::Idle, count: 0 }, false)
            } else {
                move_step(*self, State::WaitForGame, false)
            },
            State::Idle => if status == DeviceError::OK && self.count == IDLE_WAIT {
                keep_step(Worker { state: State::Idle, count: self.count + 1 }, true)
            } else {
                keep_step(*self, true)
            },
            _ => keep_step(*self, false),
        }
    }
}

} // verus!
