//! The transmit envelope handed to the time-ordered transmit scheduler.
use vstd::prelude::*;

use crate::hal;

verus! {

/// When the scheduler has a frame sent.
#[derive(Debug, Clone, Copy, PartialEq, Eq, Structural)]
pub enum QueueTxMode {
    Immediate,
    Timestamped,
    OnGPS,
}

/// The driver timing mode of a scheduler timing mode.
pub open spec fn driver_mode(m: QueueTxMode) -> hal::TxMode {
    match m {
        QueueTxMode::Immediate => hal::TxMode::Immediate,
        QueueTxMode::Timestamped => hal::TxMode::Timestamped,
        QueueTxMode::OnGPS => hal::TxMode::OnGPS,
    }
}

/// The scheduler timing mode of a driver timing mode.
pub open spec fn queue_mode(m: hal::TxMode) -> QueueTxMode {
    match m {
        hal::TxMode::Immediate => QueueTxMode::Immediate,
        hal::TxMode::Timestamped => QueueTxMode::Timestamped,
        hal::TxMode::OnGPS => QueueTxMode::OnGPS,
    }
}

/// A driver frame with the job identifier the scheduler knows it by.
#[derive(Debug, Clone)]
pub struct TxPacket(hal::TxPacket, u32);

impl TxPacket {
    /// The wrapped frame.
    pub closed spec fn frame(&self) -> hal::TxPacket {
        self.0
    }

    /// The job identifier, fixed at construction.
    pub closed spec fn id(&self) -> u32 {
        self.1
    }

    /// Wraps a frame under a job identifier.
    pub fn new(id: u32, tx_packet: hal::TxPacket) -> (r: TxPacket)
        ensures
            r.frame() == tx_packet,
            r.id() == id,
    {
        TxPacket(tx_packet, id)
    }

    /// A copy of the wrapped frame.
    pub fn tx_packet(&self) -> (r: hal::TxPacket)
        ensures
            r.same(&self.frame()),
    {
        self.0.duplicate()
    }

    /// The frame's timing mode, in the scheduler's terms.
    pub fn get_tx_mode(&self) -> (r: QueueTxMode)
        ensures
            r == queue_mode(self.frame().tx_mode),
    {
        match self.0.tx_mode {
            hal::TxMode::Timestamped => QueueTxMode::Timestamped,
            hal::TxMode::OnGPS => QueueTxMode::OnGPS,
            hal::TxMode::Immediate => QueueTxMode::Immediate,
        }
    }

    /// Sets the frame's timing mode; nothing else changes.
    pub fn set_tx_mode(&mut self, tx_mode: QueueTxMode)
        ensures
            final(self).frame().tx_mode == driver_mode(tx_mode),
            final(self).frame().count_us == old(self).frame().count_us,
            tx_settings_kept(&old(self).frame(), &final(self).frame()),
            final(self).id() == old(self).id(),
    {
        self.0.tx_mode = match tx_mode {
            QueueTxMode::Timestamped => hal::TxMode::Timestamped,
            QueueTxMode::OnGPS => hal::TxMode::OnGPS,
            QueueTxMode::Immediate => hal::TxMode::Immediate,
        };
    }

    /// The counter value at which the frame is to be sent.
    pub fn get_count_us(&self) -> (r: u32)
        ensures
            r == self.frame().count_us,
    {
        self.0.count_us
    }

    /// Sets the counter value; nothing else changes.
    pub fn set_count_us(&mut self, count_us: u32)
        ensures
            final(self).frame().count_us == count_us,
            final(self).frame().tx_mode == old(self).frame().tx_mode,
            tx_settings_kept(&old(self).frame(), &final(self).frame()),
            final(self).id() == old(self).id(),
    {
        self.0.count_us = count_us;
    }

    /// The job identifier.
    pub fn get_id(&self) -> (r: u32)
        ensures
            r == self.id(),
    {
        self.1
    }
}

/// Two frames agree in all but timing mode and counter.
pub open spec fn tx_settings_kept(a: &hal::TxPacket, b: &hal::TxPacket) -> bool {
    &&& a.freq_hz == b.freq_hz
    &&& a.rf_chain == b.rf_chain
    &&& a.rf_power == b.rf_power
    &&& a.modulation == b.modulation
    &&& a.bandwidth == b.bandwidth
    &&& a.datarate == b.datarate
    &&& a.coderate == b.coderate
    &&& a.invert_pol == b.invert_pol
    &&& a.f_dev == b.f_dev
    &&& a.preamble == b.preamble
    &&& a.no_crc == b.no_crc
    &&& a.no_header == b.no_header
    &&& a.size == b.size
    &&& a.payload@ == b.payload@
}

/// Scheduler and driver timing modes map one to one: each round trip is the
/// identity.
pub proof fn lemma_tx_mode_bijective(q: QueueTxMode, h: hal::TxMode)
    ensures
        queue_mode(driver_mode(q)) == q,
        driver_mode(queue_mode(h)) == h,
{
}

} // verus!
