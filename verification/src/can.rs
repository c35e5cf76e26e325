//! The CAN bus manager's decision logic: queuing of outbound frames, the
//! answer to the diagnostic reset request, and bus-fault recovery.
//!
//! The manager is the sole drain of the outbound queue and the sole reader
//! of the bus.  Its loop body is pure decision logic here; the surrounding
//! program performs the transmit, the receive, the cooldown sleeps, and the
//! controller stop/restart, and hands the outcomes back as plain values.
//! When both an outbound frame and an inbound frame are ready, the drain is
//! served first (a fixed tie-break; the bus itself gives no ordering
//! guarantee between the two).
//!
//! Recovery is an explicit two-state machine: a bus-off-class transmit
//! outcome (a hardware-reported bus-off, or a timeout, which a stuck
//! controller is treated as) moves the manager to `Resetting`, and only the
//! completed stop/cooldown/restart sequence moves it back to `Operational`.
//! Dequeuing demands `Operational`, so a bus-off-class outcome is always
//! followed by the reset sequence before the next dequeue; the queue itself
//! is untouched by a failed transmit, so the frames behind the one in
//! flight are all retained.

use vstd::prelude::*;

use crate::clock::Clock;
use crate::encoders::distance5m_le;
use crate::encoders::encode_acknowledgment;
use crate::encoders::encode_hr_distance;
use crate::encoders::encode_tachograph;
use crate::encoders::encode_time_date;
use crate::encoders::spec_tachograph_fields;
use crate::encoders::spec_tachograph_pdu;
use crate::encoders::spec_time_date_pdu;
use crate::frame::CanFrame;
use crate::queue::usb_write;
use crate::queue::OutQueue;
use crate::queue::StatusQueue;
use crate::queue::UsbMsg;
use crate::queue::CAN_TX_QUEUE_CAPACITY;
use crate::vehicle::VehicleState;

verus! {

/// Identifier of the inbound diagnostic Reset request: PGN 0xDE00 from
/// source 0x17 to destination 0xEE, priority 7.
pub const RESET_REQUEST_ID: u32 = 0x1cdeee17;

/// Identifier of the outbound Acknowledgment that answers it.
pub const ACKNOWLEDGMENT_ID: u32 = 0x1ce8ffee;

/// Status line reported on a hardware transmit error.
pub const CAN_TX_ERROR_TEXT: &'static str = "ERR: CAN TX error";

/// Status line reported on a transmit timeout.
pub const CAN_TX_TIMEOUT_TEXT: &'static str = "ERR: CAN TX timeout";

/// Status line reported on a hardware receive error.
pub const CAN_RX_ERROR_TEXT: &'static str = "ERR: CAN RX error";

/// Split a received 29-bit identifier into its parameter group number
/// (bits 8-25) and its source address (bits 0-7), as the receive path
/// reports them.
pub fn id_pgn_and_source(id: u32) -> (r: (u32, u8))
    ensures
        r.0 == (id / 0x100) % 0x40000,
        r.1 == id % 0x100,
{
    ((id / 0x100) % 0x40000, (id % 0x100) as u8)
}

/// Queue a frame for transmission, best-effort; the sole consumer is the
/// bus manager, which drains the queue in FIFO order.
pub fn can_send_frame(q: &mut OutQueue, frame: CanFrame) -> (accepted: bool)
    requires
        old(q).wf(),
    ensures
        final(q).wf(),
        accepted == (old(q)@.len() < CAN_TX_QUEUE_CAPACITY),
        accepted ==> final(q)@ == old(q)@.push(frame),
        !accepted ==> final(q)@ == old(q)@,
{
    q.try_send(frame)
}

/// Encode the Tachograph message for the given state snapshot and queue it.
pub fn send_tachograph_message(state: &VehicleState, q: &mut OutQueue) -> (accepted: bool)
    requires
        state.wf(),
        old(q).wf(),
    ensures
        final(q).wf(),
        accepted == (old(q)@.len() < CAN_TX_QUEUE_CAPACITY),
        !accepted ==> final(q)@ == old(q)@,
        accepted ==> final(q)@.len() == old(q)@.len() + 1 && final(q)@.drop_last() == old(q)@
            && final(q)@.last().id == 0x0cfe6cee && final(q)@.last().data@ == spec_tachograph_pdu(
            spec_tachograph_fields(state.actual_speed_kmh, state.max_speed_kmh),
        ),
{
    let frame = encode_tachograph(state.actual_speed_kmh, state.max_speed_kmh);
    let accepted = q.try_send(frame);
    proof {
        if accepted {
            assert(old(q)@.push(frame).drop_last() =~= old(q)@);
        }
    }
    accepted
}

/// Encode the High-Resolution Vehicle Distance message for the given state
/// snapshot and queue it.
pub fn send_hr_distance_message(state: &VehicleState, q: &mut OutQueue) -> (accepted: bool)
    requires
        old(q).wf(),
    ensures
        final(q).wf(),
        accepted == (old(q)@.len() < CAN_TX_QUEUE_CAPACITY),
        !accepted ==> final(q)@ == old(q)@,
        accepted ==> final(q)@.len() == old(q)@.len() + 1 && final(q)@.drop_last() == old(q)@
            && final(q)@.last().id == 0x18fec1ee && final(q)@.last().data@ == distance5m_le(
            (state.total_distance_m % 0x1_0000_0000) as u32,
        ) + distance5m_le((state.trip_distance_m % 0x1_0000_0000) as u32),
{
    let frame = encode_hr_distance(state.total_distance_m, state.trip_distance_m);
    let accepted = q.try_send(frame);
    proof {
        if accepted {
            assert(old(q)@.push(frame).drop_last() =~= old(q)@);
        }
    }
    accepted
}

/// If the clock has been synced, encode the Time/Date message for the
/// current simulated time and queue it; otherwise skip this tick silently.
pub fn send_date_time_message(clock: &Clock, now_ms: u64, q: &mut OutQueue) -> (sent: bool)
    requires
        old(q).wf(),
    ensures
        final(q).wf(),
        clock.spec_now(now_ms) is None ==> !sent && final(q)@ == old(q)@,
        clock.spec_now(now_ms) matches Some(dt) ==> {
            &&& sent == (old(q)@.len() < CAN_TX_QUEUE_CAPACITY)
            &&& !sent ==> final(q)@ == old(q)@
            &&& sent ==> final(q)@.len() == old(q)@.len() + 1 && final(q)@.drop_last() == old(q)@
                && final(q)@.last().id == 0x18fee6ee && final(q)@.last().data@
                == spec_time_date_pdu(dt)
        },
{
    match clock.get_current_time_for_j1939(now_ms) {
        None => false,
        Some(dt) => {
            let frame = encode_time_date(&dt);
            let sent = q.try_send(frame);
            proof {
                if sent {
                    assert(old(q)@.push(frame).drop_last() =~= old(q)@);
                }
            }
            sent
        },
    }
}

/// Encode the positive Acknowledgment of the diagnostic Reset request and
/// queue it.
pub fn send_acknowledgment_message(q: &mut OutQueue) -> (accepted: bool)
    requires
        old(q).wf(),
    ensures
        final(q).wf(),
        accepted == (old(q)@.len() < CAN_TX_QUEUE_CAPACITY),
        !accepted ==> final(q)@ == old(q)@,
        accepted ==> final(q)@.len() == old(q)@.len() + 1 && final(q)@.drop_last() == old(q)@
            && final(q)@.last().id == ACKNOWLEDGMENT_ID && final(q)@.last().data@ == seq![
            0u8,
            0xffu8,
            0xffu8,
            0xffu8,
            0xffu8,
            0x00u8,
            0xdeu8,
            0x00u8,
        ],
{
    let frame = encode_acknowledgment();
    let accepted = q.try_send(frame);
    proof {
        if accepted {
            assert(old(q)@.push(frame).drop_last() =~= old(q)@);
        }
    }
    accepted
}

/// Whether the bus manager may use the controller or must first complete
/// the stop/cooldown/restart sequence.
#[derive(Debug, Clone, Copy, PartialEq, Eq, Structural)]
pub enum BusMode {
    Operational,
    Resetting,
}

/// The outcome of one bounded transmit attempt, as the transport reports
/// it: sent, a hardware error (which may name a bus-off condition), or the
/// transmit timeout.
#[derive(Debug, Clone, Copy, PartialEq, Eq, Structural)]
pub enum TxOutcome {
    Sent,
    HardwareError { bus_off: bool },
    Timeout,
}

/// What the surrounding program must do next: go on with the loop, perform
/// the controller stop/cooldown/restart sequence, or pause briefly before
/// reading the bus again.
#[derive(Debug, Clone, Copy, PartialEq, Eq, Structural)]
pub enum BusAction {
    Proceed,
    ResetController,
    Pause,
}

/// A transmit outcome of the bus-off class: a hardware-reported bus-off, or
/// a timeout, since a stuck controller must not be retried without a
/// cooldown.  Exactly these outcomes force a reset.
pub open spec fn spec_requires_reset(outcome: TxOutcome) -> bool {
    match outcome {
        TxOutcome::Sent => false,
        TxOutcome::HardwareError { bus_off } => bus_off,
        TxOutcome::Timeout => true,
    }
}

/// A recovery-relevant event of the bus manager loop: the outcome of a
/// transmit attempt, or the completed stop/cooldown/restart sequence.
#[derive(Debug, Clone, Copy, PartialEq, Eq, Structural)]
pub enum BusEvent {
    TransmitOutcome(TxOutcome),
    ResetComplete,
}

/// The manager's mode after one recovery-relevant event: a bus-off-class
/// outcome forces `Resetting`, and only a completed reset restores
/// `Operational`.
pub open spec fn spec_mode_step(mode: BusMode, e: BusEvent) -> BusMode {
    match e {
        BusEvent::TransmitOutcome(o) => if spec_requires_reset(o) {
            BusMode::Resetting
        } else {
            mode
        },
        BusEvent::ResetComplete => BusMode::Operational,
    }
}

/// The manager's mode after a sequence of recovery-relevant events.
pub open spec fn spec_mode_after(mode: BusMode, es: Seq<BusEvent>) -> BusMode
    decreases es.len(),
{
    if es.len() == 0 {
        mode
    } else {
        spec_mode_after(spec_mode_step(mode, es[0]), es.skip(1))
    }
}

/// A bus-off-class transmit outcome is always followed by the
/// stop/cooldown/restart sequence before the next dequeue: however many
/// further events follow it, as long as none of them is the completed
/// reset, the manager stays in `Resetting` — and `next_outbound` demands
/// `Operational`, so no frame is dequeued in between.  The failed outcome
/// itself never touches the queue, so every frame behind the one in flight
/// is retained for the next loop iteration.
pub proof fn lemma_no_dequeue_before_reset(mode: BusMode, o: TxOutcome, es: Seq<BusEvent>)
    requires
        spec_requires_reset(o),
        forall|i: int| 0 <= i < es.len() ==> !(es[i] is ResetComplete),
    ensures
        spec_mode_after(spec_mode_step(mode, BusEvent::TransmitOutcome(o)), es) is Resetting,
{
    lemma_resetting_persists(es);
}

/// `Resetting` persists through any events that do not complete the reset.
proof fn lemma_resetting_persists(es: Seq<BusEvent>)
    requires
        forall|i: int| 0 <= i < es.len() ==> !(es[i] is ResetComplete),
    ensures
        spec_mode_after(BusMode::Resetting, es) is Resetting,
    decreases es.len(),
{
    if es.len() > 0 {
        assert(!(es[0] is ResetComplete));
        assert(spec_mode_step(BusMode::Resetting, es[0]) is Resetting);
        lemma_resetting_persists(es.skip(1));
    }
}

/// The bus manager's recovery state machine.
pub struct BusManager {
    pub mode: BusMode,
}

impl BusManager {
    /// A manager with a freshly started controller.
    pub fn new() -> (m: BusManager)
        ensures
            m.mode is Operational,
    {
        BusManager { mode: BusMode::Operational }
    }

    /// Dequeue the next outbound frame.  The controller must be
    /// operational: after a bus-off-class outcome no dequeue can happen
    /// until `on_reset_complete`.
    pub fn next_outbound(&self, q: &mut OutQueue) -> (r: Option<CanFrame>)
        requires
            self.mode is Operational,
        ensures
            old(q).wf() ==> final(q).wf(),
            old(q)@.len() == 0 ==> r is None && final(q)@ == old(q)@,
            old(q)@.len() > 0 ==> r == Some(old(q)@[0]) && final(q)@ == old(q)@.skip(1),
    {
        q.receive()
    }

    /// Digest the outcome of a transmit attempt: report any fault to the
    /// status channel, and on a bus-off-class outcome enter `Resetting` and
    /// demand the stop/cooldown/restart sequence.  The outbound queue is
    /// not touched, so every frame behind the one in flight is retained.
    pub fn on_transmit_outcome(&mut self, outcome: &TxOutcome, status: &mut StatusQueue) -> (a:
        BusAction)
        requires
            old(self).mode is Operational,
            old(status).wf(),
        ensures
            final(status).wf(),
            final(self).mode == spec_mode_step(
                old(self).mode,
                BusEvent::TransmitOutcome(*outcome),
            ),
            a is ResetController <==> spec_requires_reset(*outcome),
            final(self).mode is Resetting <==> spec_requires_reset(*outcome),
            !spec_requires_reset(*outcome) ==> a is Proceed && final(self).mode is Operational,
            *outcome is Sent ==> final(status)@ == old(status)@,
            *outcome matches TxOutcome::HardwareError { .. } ==> final(status)@
                == spec_status_report(old(status)@, UsbMsg::Static(CAN_TX_ERROR_TEXT)),
            *outcome is Timeout ==> final(status)@ == spec_status_report(
                old(status)@,
                UsbMsg::Static(CAN_TX_TIMEOUT_TEXT),
            ),
    {
        match outcome {
            TxOutcome::Sent => BusAction::Proceed,
            TxOutcome::HardwareError { bus_off } => {
                usb_write(status, CAN_TX_ERROR_TEXT);
                if *bus_off {
                    self.mode = BusMode::Resetting;
                    BusAction::ResetController
                } else {
                    BusAction::Proceed
                }
            },
            TxOutcome::Timeout => {
                usb_write(status, CAN_TX_TIMEOUT_TEXT);
                self.mode = BusMode::Resetting;
                BusAction::ResetController
            },
        }
    }

    /// The stop/cooldown/restart sequence has finished: the controller is
    /// operational again and dequeuing may resume.
    pub fn on_reset_complete(&mut self)
        requires
            old(self).mode is Resetting,
        ensures
            final(self).mode == spec_mode_step(old(self).mode, BusEvent::ResetComplete),
            final(self).mode is Operational,
    {
        self.mode = BusMode::Operational;
    }

    /// Inspect one received frame: the diagnostic Reset request — and only
    /// it — is answered by queuing exactly one Acknowledgment frame; every
    /// other identifier leaves the queue untouched.
    pub fn on_inbound_frame(&self, id: u32, q: &mut OutQueue) -> (acked: bool)
        requires
            old(q).wf(),
        ensures
            final(q).wf(),
            id != RESET_REQUEST_ID ==> !acked && final(q)@ == old(q)@,
            id == RESET_REQUEST_ID ==> {
                &&& acked == (old(q)@.len() < CAN_TX_QUEUE_CAPACITY)
                &&& !acked ==> final(q)@ == old(q)@
                &&& acked ==> final(q)@.len() == old(q)@.len() + 1 && final(q)@.drop_last() == old(
                    q,
                )@ && final(q)@.last().id == ACKNOWLEDGMENT_ID && final(q)@.last().data@ == seq![
                    0u8,
                    0xffu8,
                    0xffu8,
                    0xffu8,
                    0xffu8,
                    0x00u8,
                    0xdeu8,
                    0x00u8,
                ]
            },
    {
        if id == RESET_REQUEST_ID {
            send_acknowledgment_message(q)
        } else {
            false
        }
    }

    /// Digest a hardware receive fault: report it and pause briefly before
    /// reading the bus again, so a spinning error loop cannot starve the
    /// transmit side.
    pub fn on_receive_error(&self, status: &mut StatusQueue) -> (a: BusAction)
        requires
            old(status).wf(),
        ensures
            final(status).wf(),
            a is Pause,
            final(status)@ == spec_status_report(old(status)@, UsbMsg::Static(CAN_RX_ERROR_TEXT)),
    {
        usb_write(status, CAN_RX_ERROR_TEXT);
        BusAction::Pause
    }
}

/// A best-effort status line: appended if the queue has room, dropped
/// otherwise.
pub open spec fn spec_status_report(q: Seq<UsbMsg>, m: UsbMsg) -> Seq<UsbMsg> {
    if q.len() < crate::queue::USB_TX_QUEUE_CAPACITY {
        q.push(m)
    } else {
        q
    }
}

} // verus!
