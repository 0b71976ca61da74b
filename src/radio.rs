//! Radio transport: the LoRa link configuration, and the send and receive
//! sequences of the one physical radio, driven step by step.
//!
//! The radio cannot serve two transactions at once. A single radio task owns
//! it and picks its next job with `next_radio_job`: a queued frame is sent
//! first, otherwise the radio listens for a bounded window and is then free
//! again, so a waiting frame is never held off longer than that window.

use vstd::prelude::*;
use lora_phy::mod_params::{Bandwidth, CodingRate, RadioError, SpreadingFactor};
use crate::channel::{frame_items, frame_try_receive, frame_try_send, receive_outcome, send_outcome, FrameQueue, FRAME_QUEUE_CAPACITY};

verus! {

/// lora-phy's spreading factor, carried to the driver as is.
#[verifier::external_type_specification]
pub struct ExSpreadingFactor(SpreadingFactor);

/// lora-phy's channel bandwidth, carried to the driver as is.
#[verifier::external_type_specification]
pub struct ExBandwidth(Bandwidth);

/// lora-phy's coding rate, carried to the driver as is.
#[verifier::external_type_specification]
pub struct ExCodingRate(CodingRate);

/// lora-phy's error type; its variants are read to tell timeouts and
/// oversized payloads from chip errors.
#[verifier::external_type_specification]
pub struct ExRadioError(RadioError);

/// Carrier frequency of the link, in hertz.
pub const LORA_FREQUENCY_IN_HZ: u32 = 903_900_000;

/// Largest payload the link carries, in bytes.
pub const PAYLOAD_LENGTH: usize = 255;

/// Transmit power, in dBm.
pub const TX_POWER_DBM: i32 = 20;

/// Preamble length, in symbols.
pub const PREAMBLE_LENGTH: u16 = 4;

/// How long one listening window lasts, in milliseconds.
pub const LISTEN_WINDOW_MS: u64 = 1000;

/// Modulation shared by both directions of the link.
#[derive(Debug, Clone, Copy)]
pub struct Modulation {
    pub spreading_factor: SpreadingFactor,
    pub bandwidth: Bandwidth,
    pub coding_rate: CodingRate,
    pub frequency_in_hz: u32,
}

/// Framing of one direction of the link, with the modulation it belongs to.
#[derive(Debug, Clone, Copy)]
pub struct PacketFraming {
    pub modulation: Modulation,
    pub preamble_length: u16,
    pub implicit_header: bool,
    /// Largest payload accepted, in bytes; 0 where the length comes from
    /// each payload sent.
    pub max_payload_length: u8,
    pub crc_on: bool,
    pub iq_inverted: bool,
}

/// The link's modulation and the transmit and receive framing derived from
/// it.
#[derive(Debug, Clone, Copy)]
pub struct RadioLinkConfig {
    pub modulation: Modulation,
    pub tx: PacketFraming,
    pub rx: PacketFraming,
}

impl RadioLinkConfig {
    /// Both directions use the link's modulation: frames sent with one and
    /// read with another could not be decoded.
    pub open spec fn wf(&self) -> bool {
        &&& self.tx.modulation == self.modulation
        &&& self.rx.modulation == self.modulation
    }

    /// The transmit and receive framing for `modulation`: explicit header,
    /// CRC on, IQ not inverted, a preamble of `PREAMBLE_LENGTH` symbols, and
    /// received payloads of at most `PAYLOAD_LENGTH` bytes.
    pub fn derive(modulation: Modulation) -> (r: RadioLinkConfig)
        ensures
            r.wf(),
            r.modulation == modulation,
            r.tx.preamble_length == PREAMBLE_LENGTH && r.rx.preamble_length == PREAMBLE_LENGTH,
            !r.tx.implicit_header && !r.rx.implicit_header,
            r.tx.crc_on && r.rx.crc_on,
            !r.tx.iq_inverted && !r.rx.iq_inverted,
            r.tx.max_payload_length == 0,
            r.rx.max_payload_length as int == PAYLOAD_LENGTH,
    {
        let tx = PacketFraming {
            modulation,
            preamble_length: PREAMBLE_LENGTH,
            implicit_header: false,
            max_payload_length: 0,
            crc_on: true,
            iq_inverted: false,
        };
        let rx = PacketFraming { max_payload_length: PAYLOAD_LENGTH as u8, ..tx };
        RadioLinkConfig { modulation, tx, rx }
    }

    /// The node's link: spreading factor 10, 250 kHz, coding rate 4/8, at
    /// `LORA_FREQUENCY_IN_HZ`.
    pub fn node_link() -> (r: RadioLinkConfig)
        ensures
            r.wf(),
            r.modulation.spreading_factor == SpreadingFactor::_10,
            r.modulation.bandwidth == Bandwidth::_250KHz,
            r.modulation.coding_rate == CodingRate::_4_8,
            r.modulation.frequency_in_hz == LORA_FREQUENCY_IN_HZ,
            r.tx.preamble_length == PREAMBLE_LENGTH && r.rx.preamble_length == PREAMBLE_LENGTH,
            !r.tx.implicit_header && !r.rx.implicit_header,
            r.tx.crc_on && r.rx.crc_on,
            !r.tx.iq_inverted && !r.rx.iq_inverted,
            r.tx.max_payload_length == 0,
            r.rx.max_payload_length as int == PAYLOAD_LENGTH,
    {
        RadioLinkConfig::derive(
            Modulation {
                spreading_factor: SpreadingFactor::_10,
                bandwidth: Bandwidth::_250KHz,
                coding_rate: CodingRate::_4_8,
                frequency_in_hz: LORA_FREQUENCY_IN_HZ,
            },
        )
    }
}

/// A radio transaction that did not complete.
#[derive(Debug, PartialEq)]
pub enum RadioFault {
    /// The payload is longer than the link carries; nothing was sent.
    PayloadTooLong(usize),
    /// Nothing arrived, or the transmission did not finish, in time.
    Timeout,
    /// The chip reported this error.
    Device(RadioError),
}

/// The fault for an error reported by the radio driver: its timeouts are
/// told apart from hardware errors, and an oversized payload keeps its
/// length.
pub open spec fn fault_of(e: RadioError) -> RadioFault {
    match e {
        RadioError::TransmitTimeout => RadioFault::Timeout,
        RadioError::ReceiveTimeout => RadioFault::Timeout,
        RadioError::PayloadSizeUnexpected(n) => RadioFault::PayloadTooLong(n),
        _ => RadioFault::Device(e),
    }
}

/// The fault for an error reported by the radio driver.
pub fn radio_fault(e: RadioError) -> (r: RadioFault)
    ensures
        r == fault_of(e),
{
    match e {
        RadioError::TransmitTimeout => RadioFault::Timeout,
        RadioError::ReceiveTimeout => RadioFault::Timeout,
        RadioError::PayloadSizeUnexpected(n) => RadioFault::PayloadTooLong(n),
        other => RadioFault::Device(other),
    }
}

/// What the firmware does next for a radio transaction.
#[derive(Debug, PartialEq)]
pub enum RadioAction {
    /// Load the payload and the transmit settings into the chip, at
    /// `power_dbm`.
    PrepareTx { power_dbm: i32 },
    /// Start the transmission prepared and wait for it to finish.
    Transmit,
    /// Put the chip into continuous receive with the receive framing.
    PrepareRx,
    /// Wait for a packet, for at most `timeout_ms` milliseconds.
    AwaitPacket { timeout_ms: u64 },
    /// The transaction is over, with this outcome.
    Finish(Result<RadioReport, RadioFault>),
    /// Nothing: the transaction is already over.
    Idle,
}

/// Signal quality of a received packet.
#[derive(Debug, Clone, Copy, PartialEq, Eq, Structural)]
pub struct LinkQuality {
    pub rssi: i16,
    pub snr: i16,
}

/// What a completed transaction produced.
#[derive(Debug, Clone, Copy, PartialEq, Eq, Structural)]
pub enum RadioReport {
    /// The frame was transmitted.
    Sent,
    /// A packet of `length` bytes arrived with this quality.
    Received { length: u8, quality: LinkQuality },
}

/// What the firmware reports back after performing a `RadioAction`.
#[derive(Debug)]
pub enum RadioEvent {
    /// The chip was prepared, or refused to be.
    Prepared(Result<(), RadioError>),
    /// The transmission finished, or failed.
    Transmitted(Result<(), RadioError>),
    /// A packet arrived, or reception failed.
    Received(Result<(u8, LinkQuality), RadioError>),
    /// The receive window ended with no packet.
    TimedOut,
}

/// Where a radio transaction stands.
#[derive(Debug, Clone, Copy, PartialEq, Eq, Structural)]
pub enum RadioPhase {
    PreparingTx,
    Transmitting,
    PreparingRx,
    Listening,
    Done,
}

/// The step a radio transaction takes on `event` in `phase`.
pub open spec fn radio_step(phase: RadioPhase, event: RadioEvent, listen_ms: u64) -> (RadioPhase, RadioAction) {
    match (phase, event) {
        (RadioPhase::PreparingTx, RadioEvent::Prepared(Ok(()))) => (RadioPhase::Transmitting, RadioAction::Transmit),
        (RadioPhase::PreparingTx, RadioEvent::Prepared(Err(e))) => (
            RadioPhase::Done,
            RadioAction::Finish(Err(fault_of(e))),
        ),
        (RadioPhase::Transmitting, RadioEvent::Transmitted(Ok(()))) => (
            RadioPhase::Done,
            RadioAction::Finish(Ok(RadioReport::Sent)),
        ),
        (RadioPhase::Transmitting, RadioEvent::Transmitted(Err(e))) => (
            RadioPhase::Done,
            RadioAction::Finish(Err(fault_of(e))),
        ),
        (RadioPhase::PreparingRx, RadioEvent::Prepared(Ok(()))) => (
            RadioPhase::Listening,
            RadioAction::AwaitPacket { timeout_ms: listen_ms },
        ),
        (RadioPhase::PreparingRx, RadioEvent::Prepared(Err(e))) => (
            RadioPhase::Done,
            RadioAction::Finish(Err(fault_of(e))),
        ),
        (RadioPhase::Listening, RadioEvent::Received(Ok((length, quality)))) => (
            RadioPhase::Done,
            RadioAction::Finish(Ok(RadioReport::Received { length, quality })),
        ),
        (RadioPhase::Listening, RadioEvent::Received(Err(e))) => (
            RadioPhase::Done,
            RadioAction::Finish(Err(fault_of(e))),
        ),
        (RadioPhase::Listening, RadioEvent::TimedOut) => (
            RadioPhase::Done,
            RadioAction::Finish(Err(RadioFault::Timeout)),
        ),
        (RadioPhase::Done, _) => (RadioPhase::Done, RadioAction::Idle),
        (p, _) => (p, RadioAction::Idle),
    }
}

/// One send or receive on the radio. Its caller holds the radio for the
/// whole transaction; the transaction itself takes no lock.
pub struct RadioTransaction {
    phase: RadioPhase,
    listen_ms: u64,
}

impl RadioTransaction {
    /// Where the transaction stands.
    pub closed spec fn spec_phase(&self) -> RadioPhase {
        self.phase
    }

    /// How long a receive waits for a packet, in milliseconds.
    pub closed spec fn spec_listen_ms(&self) -> u64 {
        self.listen_ms
    }

    /// Starts sending a payload of `payload_len` bytes. A payload longer
    /// than the link carries fails here, before the chip is touched, and is
    /// never transmitted; otherwise the chip is prepared first.
    pub fn send(payload_len: usize) -> (r: (RadioTransaction, RadioAction))
        ensures
            payload_len > PAYLOAD_LENGTH ==> r.0.spec_phase() == RadioPhase::Done && r.1
                == RadioAction::Finish(Err(RadioFault::PayloadTooLong(payload_len))),
            payload_len <= PAYLOAD_LENGTH ==> r.0.spec_phase() == RadioPhase::PreparingTx && r.1
                == (RadioAction::PrepareTx { power_dbm: TX_POWER_DBM }),
    {
        if payload_len > PAYLOAD_LENGTH {
            (
                RadioTransaction { phase: RadioPhase::Done, listen_ms: 0 },
                RadioAction::Finish(Err(RadioFault::PayloadTooLong(payload_len))),
            )
        } else {
            (
                RadioTransaction { phase: RadioPhase::PreparingTx, listen_ms: 0 },
                RadioAction::PrepareTx { power_dbm: TX_POWER_DBM },
            )
        }
    }

    /// Starts a receive that waits at most `timeout_ms` milliseconds for a
    /// packet once the chip is listening.
    pub fn receive(timeout_ms: u64) -> (r: (RadioTransaction, RadioAction))
        ensures
            r.0.spec_phase() == RadioPhase::PreparingRx,
            r.0.spec_listen_ms() == timeout_ms,
            r.1 == RadioAction::PrepareRx,
    {
        (RadioTransaction { phase: RadioPhase::PreparingRx, listen_ms: timeout_ms }, RadioAction::PrepareRx)
    }

    /// Where the transaction stands.
    pub fn phase(&self) -> (r: RadioPhase)
        ensures
            r == self.spec_phase(),
    {
        self.phase
    }

    /// Advances on what the firmware observed. A failed preparation ends the
    /// transaction with its fault and nothing is transmitted; a receive
    /// window that ends empty ends it with `RadioFault::Timeout`.
    pub fn on_event(&mut self, event: RadioEvent) -> (r: RadioAction)
        ensures
            (final(self).spec_phase(), r) == radio_step(old(self).spec_phase(), event, old(self).spec_listen_ms()),
            final(self).spec_listen_ms() == old(self).spec_listen_ms(),
    {
        match (self.phase, event) {
            (RadioPhase::PreparingTx, RadioEvent::Prepared(Ok(()))) => {
                self.phase = RadioPhase::Transmitting;
                RadioAction::Transmit
            },
            (RadioPhase::PreparingTx, RadioEvent::Prepared(Err(e))) => {
                self.phase = RadioPhase::Done;
                RadioAction::Finish(Err(radio_fault(e)))
            },
            (RadioPhase::Transmitting, RadioEvent::Transmitted(Ok(()))) => {
                self.phase = RadioPhase::Done;
                RadioAction::Finish(Ok(RadioReport::Sent))
            },
            (RadioPhase::Transmitting, RadioEvent::Transmitted(Err(e))) => {
                self.phase = RadioPhase::Done;
                RadioAction::Finish(Err(radio_fault(e)))
            },
            (RadioPhase::PreparingRx, RadioEvent::Prepared(Ok(()))) => {
                self.phase = RadioPhase::Listening;
                RadioAction::AwaitPacket { timeout_ms: self.listen_ms }
            },
            (RadioPhase::PreparingRx, RadioEvent::Prepared(Err(e))) => {
                self.phase = RadioPhase::Done;
                RadioAction::Finish(Err(radio_fault(e)))
            },
            (RadioPhase::Listening, RadioEvent::Received(Ok((length, quality)))) => {
                self.phase = RadioPhase::Done;
                RadioAction::Finish(Ok(RadioReport::Received { length, quality }))
            },
            (RadioPhase::Listening, RadioEvent::Received(Err(e))) => {
                self.phase = RadioPhase::Done;
                RadioAction::Finish(Err(radio_fault(e)))
            },
            (RadioPhase::Listening, RadioEvent::TimedOut) => {
                self.phase = RadioPhase::Done;
                RadioAction::Finish(Err(RadioFault::Timeout))
            },
            _ => RadioAction::Idle,
        }
    }
}

/// A transmission is only ever triggered right after a successful
/// preparation of a send: from any other phase, or on any other event, the
/// step never asks for `Transmit`.
pub proof fn lemma_transmit_only_after_prepared(phase: RadioPhase, event: RadioEvent, listen_ms: u64)
    ensures
        radio_step(phase, event, listen_ms).1 == RadioAction::Transmit ==> phase == RadioPhase::PreparingTx
            && event == RadioEvent::Prepared(Ok(())),
{
    match event {
        RadioEvent::Prepared(Ok(u)) => {
            assert(u == ());
            assert(event == RadioEvent::Prepared(Ok(())));
        },
        _ => {
            assert(radio_step(phase, event, listen_ms).1 != RadioAction::Transmit);
        },
    }
}

/// A finished transaction stays finished and asks for nothing, whatever the
/// firmware reports afterwards: in particular a send refused at preparation
/// (an oversized payload, or a chip error) is never transmitted.
pub proof fn lemma_finished_transaction_stays_idle(events: Seq<RadioEvent>, listen_ms: u64)
    ensures
        forall|i: int|
            0 <= i < events.len() ==> #[trigger] radio_step(RadioPhase::Done, events[i], listen_ms)
                == (RadioPhase::Done, RadioAction::Idle),
{
}

/// Byte `i` of the little-endian encoding of `v`.
pub open spec fn le_byte(v: u32, i: int) -> u8 {
    ((v as int / pow256(i)) % 256) as u8
}

/// 256 to the power `i`.
pub open spec fn pow256(i: int) -> int
    decreases i,
{
    if i <= 0 {
        1
    } else {
        256 * pow256(i - 1)
    }
}

/// The radio frame for application counter `counter`: `PAYLOAD_LENGTH`
/// bytes, the counter in little-endian order in the first four, zero after.
pub open spec fn is_counter_frame(frame: Seq<u8>, counter: u32) -> bool {
    &&& frame.len() == PAYLOAD_LENGTH
    &&& forall|i: int| 0 <= i < 4 ==> #[trigger] frame[i] == le_byte(counter, i)
    &&& forall|i: int| 4 <= i < PAYLOAD_LENGTH ==> #[trigger] frame[i] == 0
}

/// Builds the radio frame that carries `counter`.
pub fn counter_frame(counter: u32) -> (frame: Vec<u8>)
    ensures
        is_counter_frame(frame@, counter),
{
    let mut frame: Vec<u8> = Vec::new();
    frame.push((counter % 256) as u8);
    frame.push(((counter / 256) % 256) as u8);
    frame.push(((counter / 65536) % 256) as u8);
    frame.push(((counter / 16777216) % 256) as u8);
    while frame.len() < PAYLOAD_LENGTH
        invariant
            4 <= frame.len() <= PAYLOAD_LENGTH,
            frame@[0] == le_byte(counter, 0),
            frame@[1] == le_byte(counter, 1),
            frame@[2] == le_byte(counter, 2),
            frame@[3] == le_byte(counter, 3),
            forall|i: int| 4 <= i < frame.len() ==> #[trigger] frame@[i] == 0,
        decreases PAYLOAD_LENGTH - frame.len(),
    {
        frame.push(0);
    }
    frame
}

/// Queues `counter` for the radio without blocking; `false` when the frame
/// queue is full and the counter was dropped.
pub fn queue_counter(queue: &mut FrameQueue, counter: u32) -> (r: bool)
    ensures
        (frame_items(*final(queue)), r) == send_outcome(frame_items(*old(queue)), FRAME_QUEUE_CAPACITY as nat, counter),
{
    match frame_try_send(queue, counter) {
        Ok(()) => true,
        Err(_) => false,
    }
}

/// What the radio task does next.
#[derive(Debug, PartialEq, Eq)]
pub enum RadioJob {
    /// Transmit this frame.
    Send(Vec<u8>),
    /// Listen for at most this many milliseconds.
    Listen { window_ms: u64 },
}

/// Picks the radio task's next job: the oldest queued counter is sent
/// first, in its frame; with nothing queued the radio listens for one
/// window.
pub fn next_radio_job(queue: &mut FrameQueue) -> (r: RadioJob)
    ensures
        frame_items(*final(queue)) == receive_outcome(frame_items(*old(queue))).0,
        match receive_outcome(frame_items(*old(queue))).1 {
            Some(counter) => r matches RadioJob::Send(frame) && is_counter_frame(frame@, counter),
            None => r == (RadioJob::Listen { window_ms: LISTEN_WINDOW_MS }),
        },
{
    match frame_try_receive(queue) {
        Some(counter) => RadioJob::Send(counter_frame(counter)),
        None => RadioJob::Listen { window_ms: LISTEN_WINDOW_MS },
    }
}

} // verus!
