//! Properties of the session protocol, proved over the decisions that
//! `Worker::next` and `Worker::after_send` are specified to take.

use vstd::prelude::*;
use crate::device::DeviceError;
use crate::frame::{
    Header, USBDataType, MAX_LENGTH, header_of_word, header_word, kind_canonical, kind_tag,
    kind_tag_round_trip, tag_round_trip,
};
use crate::machine::{
    IDLE_WAIT, ReplyView, Request, State, Worker, after_send_spec, cmdt_payload,
    gift_payload, is_reset_signal, keep, next_spec, request_of,
};

verus! {

/// The worker after each reply in turn, taking each step's worker; meant for
/// runs in which no step sends.
pub open spec fn run(w: Worker, rs: Seq<ReplyView>) -> Worker
    decreases rs.len(),
{
    if rs.len() == 0 {
        w
    } else {
        run(next_spec(w, rs[0]).worker, rs.drop_first())
    }
}

/// A reply that brings no data to a receiving phase.
pub open spec fn is_quiet(r: ReplyView) -> bool {
    match r {
        ReplyView::Received(Ok(p)) => p.1.len() == 0,
        ReplyView::Received(Err(_)) => true,
        _ => false,
    }
}

/// The ASCII magic `OoTR`.
pub open spec fn magic() -> Seq<u8> {
    seq![0x4Fu8, 0x6Fu8, 0x54u8, 0x52u8]
}

/// A header with a 24-bit length, written to its wire word and read back, is
/// itself.
pub proof fn header_round_trip(h: Header)
    requires
        h.length <= MAX_LENGTH,
        kind_canonical(h.datatype),
    ensures
        header_of_word(header_word(h)) == h,
{
    let t: u8 = kind_tag(h.datatype);
    let l: u32 = h.length as u32;
    let w: u32 = header_word(h);
    kind_tag_round_trip(h.datatype);
    assert(w == ((t as u32) << 24u32) | (l & 0xFF_FFFFu32));
    assert(((w >> 24u32) as u8) == t && (w & 0xFF_FFFFu32) == l) by (bit_vector)
        requires
            w == ((t as u32) << 24u32) | (l & 0xFF_FFFFu32),
            l <= 0xFF_FFFFu32,
    ;
}

/// A wire word, read as a header and written back, is itself.
pub proof fn word_round_trip(w: u32)
    ensures
        header_word(header_of_word(w)) == w,
{
    let h = header_of_word(w);
    let t: u8 = (w >> 24u32) as u8;
    let l: u32 = w & 0xFF_FFFFu32;
    tag_round_trip(t);
    assert((((t as u32) << 24u32) | (l & 0xFF_FFFFu32)) == w) by (bit_vector)
        requires
            t == (w >> 24u32) as u8,
            l == w & 0xFF_FFFFu32,
    ;
}

/// While searching, any failure but a lost cartridge is a plain retry: the
/// worker is kept and one second passes.
pub proof fn search_failure_retries(w: Worker, s: DeviceError)
    requires
        w.state == State::Searching,
        s != DeviceError::OK,
        s != DeviceError::CARTFINDFAIL,
    ensures
        next_spec(w, ReplyView::Status(s)) == keep(w, true),
{
}

/// A lost cartridge while searching resets the device, without a wait, and
/// the next call is again a find.
pub proof fn lost_cart_resets(w: Worker)
    requires
        w.state == State::Searching,
    ensures
        ({
            let st = next_spec(w, ReplyView::Status(DeviceError::CARTFINDFAIL));
            &&& st.initialize
            &&& !st.pause
            &&& st.send is None
            &&& st.worker == w
            &&& request_of(st.worker.state) == Request::Find
        }),
{
}

/// Waiting for the game, a frame that is not a heartbeat, or a failed
/// receive, leaves the worker waiting and sends nothing.
pub proof fn waiting_ignores_other_frames(w: Worker, r: ReplyView)
    requires
        w.state == State::WaitForGame,
        match r {
            ReplyView::Received(Ok(p)) => p.0.datatype != USBDataType::HEARTBEAT,
            ReplyView::Received(Err(_)) => true,
            _ => false,
        },
    ensures
        next_spec(w, r).worker.state == State::WaitForGame,
        next_spec(w, r).send is None,
{
}

/// A heartbeat is answered with the text frame `cmdt`; sent, it moves the
/// session to the handshake; not sent, it leaves the session waiting.
pub proof fn heartbeat_starts_handshake(w: Worker, h: Header, d: Seq<u8>, s: DeviceError)
    requires
        w.state == State::WaitForGame,
        h.datatype == USBDataType::HEARTBEAT,
    ensures
        ({
            let st = next_spec(w, ReplyView::Received(Ok((h, d))));
            &&& st.send == Some((Header { datatype: USBDataType::TEXT, length: 4 }, cmdt_payload()))
            &&& s == DeviceError::OK ==> after_send_spec(st.worker, s).worker.state
                == State::Handshake
            &&& s != DeviceError::OK ==> after_send_spec(st.worker, s).worker.state
                == State::WaitForGame
        }),
{
}

/// In the handshake, a binary reply shorter than 16 bytes or without the
/// magic `OoTR` sends the session back to wait for the game.
pub proof fn bad_handshake_restarts(w: Worker, h: Header, d: Seq<u8>)
    requires
        w.state == State::Handshake,
        h.datatype == USBDataType::RAWBINARY,
        d.len() < 16 || d.subrange(0, 4) != magic(),
    ensures
        next_spec(w, ReplyView::Received(Ok((h, d)))).worker.state == State::WaitForGame,
        next_spec(w, ReplyView::Received(Ok((h, d)))).send is None,
{
    if d.len() >= 16 && d[0] == 0x4Fu8 && d[1] == 0x6Fu8 && d[2] == 0x54u8 && d[3] == 0x52u8 {
        assert(d.subrange(0, 4) =~= magic());
    }
}

/// A well-formed handshake reply is answered with the five binary bytes
/// `MW`, the reply's version byte, 0, 0.
pub proof fn good_handshake_answers(w: Worker, h: Header, d: Seq<u8>)
    requires
        w.state == State::Handshake,
        h.datatype == USBDataType::RAWBINARY,
        d.len() >= 16,
        d.subrange(0, 4) == magic(),
    ensures
        next_spec(w, ReplyView::Received(Ok((h, d)))).send == Some(
            (
                Header { datatype: USBDataType::RAWBINARY, length: 5 },
                seq![0x4Du8, 0x57u8, d[4], 0u8, 0u8],
            ),
        ),
{
    assert(d[0] == d.subrange(0, 4)[0] && d[1] == d.subrange(0, 4)[1]);
    assert(d[2] == d.subrange(0, 4)[2] && d[3] == d.subrange(0, 4)[3]);
}

/// A sent answer to the handshake opens the idle phase with its counter at
/// zero; a failed one sends the session back to wait for the game.
pub proof fn handshake_answer_sent(w: Worker, s: DeviceError)
    requires
        w.state == State::Handshake,
    ensures
        s == DeviceError::OK ==> after_send_spec(w, s).worker == (Worker {
            state: State::Idle,
            count: 0,
        }),
        s != DeviceError::OK ==> after_send_spec(w, s).worker.state == State::WaitForGame,
{
}

/// In the idle phase the reset signal sends the session back to wait for the
/// game, whatever the counter.
pub proof fn idle_reset_signal(w: Worker, h: Header, d: Seq<u8>)
    requires
        w.state == State::Idle,
        is_reset_signal(d),
    ensures
        next_spec(w, ReplyView::Received(Ok((h, d)))).worker.state == State::WaitForGame,
        next_spec(w, ReplyView::Received(Ok((h, d)))).send is None,
{
}

/// In the idle phase with no data: below the wait the counter goes up and
/// nothing is sent; at the wait the scripted three bytes are sent once, and
/// a successful send moves the counter past it; past the wait the session
/// closes.
pub proof fn idle_quiet_step(w: Worker, r: ReplyView, s: DeviceError)
    requires
        w.state == State::Idle,
        is_quiet(r),
    ensures
        w.count < IDLE_WAIT ==> next_spec(w, r) == keep(
            Worker { state: State::Idle, count: (w.count + 1) as u32 },
            true,
        ),
        w.count == IDLE_WAIT ==> next_spec(w, r).send == Some(
            (Header { datatype: USBDataType::RAWBINARY, length: 3 }, gift_payload()),
        ),
        w.count == IDLE_WAIT ==> after_send_spec(next_spec(w, r).worker, s).worker == (Worker {
            state: State::Idle,
            count: if s == DeviceError::OK {
                (IDLE_WAIT + 1) as u32
            } else {
                IDLE_WAIT
            },
        }),
        w.count > IDLE_WAIT ==> next_spec(w, r).worker.state == State::Closing,
        w.count > IDLE_WAIT ==> next_spec(w, r).send is None,
{
    if !(r matches ReplyView::Received(Ok(_))) {
        assert(is_reset_signal(Seq::<u8>::empty()) == false);
    }
}

/// From a fresh idle phase, up to the wait's length of quiet polls leave the
/// session idle with the counter at the number of polls, sending nothing.
pub proof fn idle_quiet_run(rs: Seq<ReplyView>)
    requires
        rs.len() <= IDLE_WAIT,
        forall|i: int| 0 <= i < rs.len() ==> is_quiet(#[trigger] rs[i]),
    ensures
        run(Worker { state: State::Idle, count: 0 }, rs) == (Worker {
            state: State::Idle,
            count: rs.len() as u32,
        }),
        forall|i: int|
            0 <= i < rs.len() ==> next_spec(
                Worker { state: State::Idle, count: i as u32 },
                #[trigger] rs[i],
            ).send is None,
    decreases rs.len(),
{
    if rs.len() > 0 {
        let last = rs.len() - 1;
        let front = rs.subrange(0, last);
        assert forall|i: int| 0 <= i < front.len() implies is_quiet(#[trigger] front[i]) by {
            assert(front[i] == rs[i]);
        }
        idle_quiet_run(front);
        run_snoc(Worker { state: State::Idle, count: 0 }, front, rs[last]);
        assert(front.push(rs[last]) =~= rs);
        idle_quiet_step(Worker { state: State::Idle, count: last as u32 }, rs[last], DeviceError::OK);
        assert forall|i: int|
            0 <= i < rs.len() implies next_spec(
            Worker { state: State::Idle, count: i as u32 },
            #[trigger] rs[i],
        ).send is None by {
            idle_quiet_step(Worker { state: State::Idle, count: i as u32 }, rs[i], DeviceError::OK);
        }
    }
}

proof fn run_snoc(w: Worker, rs: Seq<ReplyView>, r: ReplyView)
    ensures
        run(w, rs.push(r)) == next_spec(run(w, rs), r).worker,
    decreases rs.len(),
{
    assert(rs.push(r)[0] == if rs.len() == 0 { r } else { rs[0] });
    if rs.len() == 0 {
        assert(rs.push(r).drop_first() =~= Seq::<ReplyView>::empty());
        assert(run(next_spec(w, r).worker, Seq::<ReplyView>::empty()) == next_spec(w, r).worker);
    } else {
        assert(rs.push(r).drop_first() =~= rs.drop_first().push(r));
        run_snoc(next_spec(w, rs[0]).worker, rs.drop_first(), r);
    }
}

/// Closing ends the session on any status but a close failure, and a close
/// failure keeps the worker as it was.
pub proof fn closing_step(w: Worker, s: DeviceError)
    requires
        w.state == State::Closing,
    ensures
        s != DeviceError::CLOSEFAIL ==> next_spec(w, ReplyView::Status(s)).worker.state
            == State::Finished,
        s == DeviceError::CLOSEFAIL ==> next_spec(w, ReplyView::Status(s)).worker == w,
{
}

/// Any number of close failures in a row leave a closing worker as it was.
pub proof fn close_failures_keep_closing(w: Worker, rs: Seq<ReplyView>)
    requires
        w.state == State::Closing,
        forall|i: int| 0 <= i < rs.len() ==> #[trigger] rs[i] == ReplyView::Status(
            DeviceError::CLOSEFAIL,
        ),
    ensures
        run(w, rs) == w,
    decreases rs.len(),
{
    if rs.len() > 0 {
        assert forall|i: int| 0 <= i < rs.drop_first().len() implies #[trigger] rs.drop_first()[i]
            == ReplyView::Status(DeviceError::CLOSEFAIL) by {
            assert(rs.drop_first()[i] == rs[i + 1]);
        }
        close_failures_keep_closing(w, rs.drop_first());
    }
}

/// A finished session is a fixed point: it asks for no call, and whatever
/// comes, the worker stays as it is and nothing is done.
pub proof fn finished_is_fixed(w: Worker, r: ReplyView)
    requires
        w.state == State::Finished,
    ensures
        request_of(w.state) == Request::Stop,
        next_spec(w, r) == keep(w, false),
{
}

} // verus!
