//! The state of charge of the battery, estimated from the bus voltage and
//! from whether that voltage has been rising or falling. The readings are
//! kept in fixed-size rings of the crate `circular_buffer`.

use crate::window::slid;
use circular_buffer::CircularBuffer;
use vstd::prelude::*;

verus! {

/// Number of voltage readings that are kept.
pub const VOL_SAMPLES: usize = 1500;

/// Number of trend votes that are kept.
pub const VOTERS: usize = 10;

/// Number of readings at either end of the ring that a trend compares.
pub const SPAN: usize = 150;

/// At this bus voltage, in millivolts, and above it the supply is faulty.
pub const CRITICAL_HIGH_MV: u16 = 15000;

/// At this bus voltage and below it the battery is exhausted.
pub const CRITICAL_LOW_MV: u16 = 10000;

/// At this bus voltage and above it the battery is being charged.
pub const CHARGING_MV: u16 = 13000;

/// The bus voltage of an empty battery.
pub const EMPTY_MV: u16 = 10500;

/// Millivolts per percent while charging.
pub const CHARGING_STEP_MV: u16 = 43;

/// Millivolts per percent while discharging.
pub const DISCHARGING_STEP_MV: u16 = 24;

/// The state of charge; the number is a percentage.
#[derive(Debug, Clone, Copy, PartialEq, Eq, Structural)]
pub enum Charge {
    Unknown,
    Charging(u16),
    Discharging(u16),
    CriticalError,
    CriticalDischarge,
}

impl Default for Charge {
    fn default() -> (c: Self)
        ensures
            c == Charge::Unknown,
    {
        Charge::Unknown
    }
}

/// The voltage readings that a ring holds, oldest first.
pub uninterp spec fn voltage_items(ring: CircularBuffer<VOL_SAMPLES, u32>) -> Seq<u32>;

/// The trend votes that a ring holds, oldest first.
pub uninterp spec fn vote_items(ring: CircularBuffer<VOTERS, i8>) -> Seq<i8>;

/// Calls `CircularBuffer::new`, which returns a ring without items.
#[verifier::external_body]
fn voltages_new() -> (ring: CircularBuffer<VOL_SAMPLES, u32>)
    ensures
        voltage_items(ring) == Seq::<u32>::empty(),
{
    CircularBuffer::new()
}

/// Calls `CircularBuffer::push_back`, which appends the item at the back
/// and, where the ring is full, overwrites the item at the front. The call
/// does not panic.
#[verifier::external_body]
fn voltages_push(ring: &mut CircularBuffer<VOL_SAMPLES, u32>, reading: u32)
    ensures
        voltage_items(*final(ring)) == slid(voltage_items(*old(ring)), reading, VOL_SAMPLES as nat),
    no_unwind
{
    ring.push_back(reading);
}

/// Calls `CircularBuffer::to_vec`, which copies the items, front to back,
/// into a vector.
#[verifier::external_body]
fn voltages_to_vec(ring: &CircularBuffer<VOL_SAMPLES, u32>) -> (items: Vec<u32>)
    ensures
        items@ == voltage_items(*ring),
{
    ring.to_vec()
}

/// Calls `CircularBuffer::new`, which returns a ring without items.
#[verifier::external_body]
fn votes_new() -> (ring: CircularBuffer<VOTERS, i8>)
    ensures
        vote_items(ring) == Seq::<i8>::empty(),
{
    CircularBuffer::new()
}

/// Calls `CircularBuffer::push_back`, which appends the item at the back
/// and, where the ring is full, overwrites the item at the front. The call
/// does not panic.
#[verifier::external_body]
fn votes_push(ring: &mut CircularBuffer<VOTERS, i8>, vote: i8)
    ensures
        vote_items(*final(ring)) == slid(vote_items(*old(ring)), vote, VOTERS as nat),
    no_unwind
{
    ring.push_back(vote);
}

/// Calls `CircularBuffer::to_vec`, which copies the items, front to back,
/// into a vector.
#[verifier::external_body]
fn votes_to_vec(ring: &CircularBuffer<VOTERS, i8>) -> (items: Vec<i8>)
    ensures
        items@ == vote_items(*ring),
{
    ring.to_vec()
}

/// The sum of a run of readings.
pub open spec fn sum_readings(items: Seq<u32>) -> int
    decreases items.len(),
{
    if items.len() == 0 {
        0
    } else {
        sum_readings(items.drop_last()) + items.last()
    }
}

/// The sum of a run of votes.
pub open spec fn sum_votes(items: Seq<i8>) -> int
    decreases items.len(),
{
    if items.len() == 0 {
        0
    } else {
        sum_votes(items.drop_last()) + items.last()
    }
}

/// Whether the voltage rose (1), fell (-1) or stayed (0) over a full ring
/// of readings: the newest `SPAN` readings against the oldest. Their sums
/// are compared, which orders them as their means.
pub open spec fn trend(readings: Seq<u32>) -> i8 {
    let oldest = sum_readings(readings.take(SPAN as int));
    let newest = sum_readings(readings.skip(readings.len() - SPAN));
    if newest < oldest {
        -1i8
    } else if newest == oldest {
        0i8
    } else {
        1i8
    }
}

/// The percentage for a bus voltage at so many millivolts per percent:
/// zero at the voltage of an empty battery and below it, and never more
/// than a hundred.
pub open spec fn percentage(bus_voltage: u16, step: u16) -> u16 {
    if bus_voltage <= EMPTY_MV {
        0
    } else if (bus_voltage - EMPTY_MV) / (step as int) >= 100 {
        100
    } else {
        ((bus_voltage - EMPTY_MV) / (step as int)) as u16
    }
}

/// The state of charge for one reading. Until the ring of readings is
/// full nothing is known. The critical voltages come first; then a high
/// voltage or a rising trend means charging, a falling trend discharging,
/// and with no trend either way the state stays what it was.
pub open spec fn charge_of(full: bool, bus_voltage: u16, votes: int, prev: Charge) -> Charge {
    if !full {
        Charge::Unknown
    } else if bus_voltage >= CRITICAL_HIGH_MV {
        Charge::CriticalError
    } else if bus_voltage <= CRITICAL_LOW_MV {
        Charge::CriticalDischarge
    } else if bus_voltage >= CHARGING_MV || votes > 0 {
        Charge::Charging(percentage(bus_voltage, CHARGING_STEP_MV))
    } else if votes < 0 {
        Charge::Discharging(percentage(bus_voltage, DISCHARGING_STEP_MV))
    } else {
        prev
    }
}

/// Computes a percentage.
pub fn percent(bus_voltage: u16, step: u16) -> (p: u16)
    requires
        step > 0,
    ensures
        p == percentage(bus_voltage, step),
{
    if bus_voltage <= EMPTY_MV {
        0
    } else {
        let p = (bus_voltage - EMPTY_MV) / step;
        if p >= 100 {
            100
        } else {
            p
        }
    }
}

/// Decides the state of charge for one reading.
pub fn estimate_charge(full: bool, bus_voltage: u16, votes: i8, prev: Charge) -> (c: Charge)
    ensures
        c == charge_of(full, bus_voltage, votes as int, prev),
{
    if !full {
        Charge::Unknown
    } else if bus_voltage >= CRITICAL_HIGH_MV {
        Charge::CriticalError
    } else if bus_voltage <= CRITICAL_LOW_MV {
        Charge::CriticalDischarge
    } else if bus_voltage >= CHARGING_MV || votes > 0 {
        Charge::Charging(percent(bus_voltage, CHARGING_STEP_MV))
    } else if votes < 0 {
        Charge::Discharging(percent(bus_voltage, DISCHARGING_STEP_MV))
    } else {
        prev
    }
}

/// What a battery monitor holds, as a mathematical value.
pub struct MonitorModel {
    /// The last readings of the bus voltage, oldest first.
    pub readings: Seq<u32>,
    /// The last trend votes, oldest first.
    pub votes: Seq<i8>,
    /// The state of charge that was reported last.
    pub prev: Charge,
}

impl MonitorModel {
    /// Whether the ring of readings is full.
    pub open spec fn full(self) -> bool {
        self.readings.len() == VOL_SAMPLES
    }

    /// The monitor after one more reading of the bus voltage.
    pub open spec fn observed(self, bus_voltage: u16) -> Self {
        let readings = slid(self.readings, bus_voltage as u32, VOL_SAMPLES as nat);
        let full = readings.len() == VOL_SAMPLES;
        let votes = if full {
            slid(self.votes, trend(readings), VOTERS as nat)
        } else {
            self.votes
        };
        MonitorModel {
            readings,
            votes,
            prev: charge_of(full, bus_voltage, sum_votes(votes), self.prev),
        }
    }
}

/// Follows the bus voltage of the battery.
pub struct BatteryMonitor {
    voltage: CircularBuffer<VOL_SAMPLES, u32>,
    bat_status: CircularBuffer<VOTERS, i8>,
    prev_charge: Charge,
}

impl View for BatteryMonitor {
    type V = MonitorModel;

    closed spec fn view(&self) -> MonitorModel {
        MonitorModel {
            readings: voltage_items(self.voltage),
            votes: vote_items(self.bat_status),
            prev: self.prev_charge,
        }
    }
}

/// Sums the readings of `items` from `from` up to `to`.
fn sum_range(items: &Vec<u32>, from: usize, to: usize) -> (total: u64)
    requires
        from <= to <= items.len(),
        to - from <= SPAN,
        forall|i: int| 0 <= i < items.len() ==> #[trigger] items[i] <= u16::MAX,
    ensures
        total == sum_readings(items@.subrange(from as int, to as int)),
{
    let mut total: u64 = 0;
    let mut i: usize = from;
    while i < to
        invariant
            from <= i <= to <= items.len(),
            to - from <= SPAN,
            forall|i: int| 0 <= i < items.len() ==> #[trigger] items[i] <= u16::MAX,
            total == sum_readings(items@.subrange(from as int, i as int)),
            total <= (i - from) * u16::MAX,
        decreases to - i,
    {
        proof {
            assert(items@.subrange(from as int, i + 1).drop_last() =~= items@.subrange(
                from as int,
                i as int,
            ));
        }
        total = total + items[i] as u64;
        i = i + 1;
    }
    total
}

impl BatteryMonitor {
    #[verifier::type_invariant]
    spec fn inv(self) -> bool {
        &&& voltage_items(self.voltage).len() <= VOL_SAMPLES
        &&& vote_items(self.bat_status).len() <= VOTERS
        &&& forall|i: int|
            0 <= i < voltage_items(self.voltage).len() ==> #[trigger] voltage_items(
                self.voltage,
            )[i] <= u16::MAX
        &&& forall|i: int|
            0 <= i < vote_items(self.bat_status).len() ==> -1 <= #[trigger] vote_items(
                self.bat_status,
            )[i] <= 1
    }

    /// A monitor that has seen no reading yet.
    pub fn new() -> (m: Self)
        ensures
            m@ == (MonitorModel {
                readings: Seq::empty(),
                votes: Seq::empty(),
                prev: Charge::Unknown,
            }),
    {
        BatteryMonitor {
            voltage: voltages_new(),
            bat_status: votes_new(),
            prev_charge: Charge::Unknown,
        }
    }

    /// The state of charge that was reported last.
    pub fn prev_charge(&self) -> (c: Charge)
        ensures
            c == self@.prev,
    {
        self.prev_charge
    }

    /// Takes in one reading of the bus voltage, in millivolts, and tells
    /// the state of charge.
    pub fn observe(&mut self, bus_voltage: u16) -> (charge: Charge)
        ensures
            final(self)@ == old(self)@.observed(bus_voltage),
            charge == final(self)@.prev,
    {
        proof {
            use_type_invariant(&*self);
        }
        voltages_push(&mut self.voltage, bus_voltage as u32);
        let readings = voltages_to_vec(&self.voltage);
        let full = readings.len() == VOL_SAMPLES;
        if full {
            let oldest = sum_range(&readings, 0, SPAN);
            let newest = sum_range(&readings, VOL_SAMPLES - SPAN, VOL_SAMPLES);
            proof {
                assert(readings@.take(SPAN as int) =~= readings@.subrange(0, SPAN as int));
                assert(readings@.skip(readings@.len() - SPAN) =~= readings@.subrange(
                    VOL_SAMPLES - SPAN,
                    VOL_SAMPLES as int,
                ));
            }
            let vote: i8 = if newest < oldest {
                -1
            } else if newest == oldest {
                0
            } else {
                1
            };
            votes_push(&mut self.bat_status, vote);
        }
        let votes = votes_to_vec(&self.bat_status);
        let mut sum: i8 = 0;
        let mut i: usize = 0;
        while i < votes.len()
            invariant
                i <= votes.len() <= VOTERS,
                forall|i: int| 0 <= i < votes.len() ==> -1 <= #[trigger] votes[i] <= 1,
                sum == sum_votes(votes@.take(i as int)),
                -i <= sum <= i,
            decreases votes.len() - i,
        {
            proof {
                assert(votes@.take(i + 1).drop_last() =~= votes@.take(i as int));
            }
            sum = sum + votes[i];
            i = i + 1;
        }
        proof {
            assert(votes@.take(i as int) =~= votes@);
        }
        let charge = estimate_charge(full, bus_voltage, sum, self.prev_charge);
        self.prev_charge = charge;
        charge
    }
}

} // verus!
