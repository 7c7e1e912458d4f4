//! The metric set and its update operations.
//!
//! Units are fixed so that every computation is exact integer arithmetic:
//! power is measured in milliwatts, time in milliseconds (on a monotonic
//! clock chosen by the caller), and energy in microjoules. One milliwatt
//! sustained for one millisecond is exactly one microjoule, so integrating
//! power over time is a plain product.

use vstd::prelude::*;

verus! {

/// Why a sensor read failed. Surfaced unchanged by the update operations;
/// never swallowed, and no retry is attempted at this layer.
#[derive(Clone, Copy, Debug, PartialEq, Eq, Structural)]
pub enum SensorError {
    /// The connection to the sensor subsystem was lost.
    ConnectionLost,
    /// A read call against an open sensor connection failed.
    ReadFailed,
}

/// Mathematical model of a metric set: the three metric values and the
/// timestamp of the last energy integration, as unbounded integers.
pub ghost struct GaugeModel {
    /// Instantaneous total system power draw, in milliwatts.
    pub system_power: int,
    /// Cumulative estimated energy consumption, in microjoules.
    pub system_energy: int,
    /// Instantaneous DC input power, in milliwatts.
    pub dc_in_power: int,
    /// Instant of the last energy integration, in milliseconds.
    pub energy_time: int,
}

/// One energy-integration step. Left-Riemann accumulation: the counter grows
/// by the power recorded at the *start* of the elapsed interval — the value
/// already held in the model — times the elapsed time, and only then is the
/// power gauge replaced by the new reading. The DC input gauge is untouched.
pub open spec fn energy_step(m: GaugeModel, power: int, now: int) -> GaugeModel {
    GaugeModel {
        system_power: power,
        system_energy: m.system_energy + m.system_power * (now - m.energy_time),
        dc_in_power: m.dc_in_power,
        energy_time: now,
    }
}

/// Replace the DC input power gauge, leaving the rest of the model unchanged.
pub open spec fn dc_step(m: GaugeModel, dc: int) -> GaugeModel {
    GaugeModel {
        system_power: m.system_power,
        system_energy: m.system_energy,
        dc_in_power: dc,
        energy_time: m.energy_time,
    }
}

/// The set of exported metrics, with the bookkeeping needed to integrate
/// instantaneous power into cumulative energy. Created once and then mutated
/// exclusively through the update operations.
pub struct SMCExportGauges {
    /// Instantaneous total system power draw, in milliwatts.
    pub system_power: u64,
    /// Cumulative estimated energy consumption since creation, in
    /// microjoules. A counter: it never decreases.
    pub system_energy: u64,
    /// Instantaneous DC input power, in milliwatts. Always the most recent
    /// successfully read value.
    pub dc_in_power: u64,
    /// Instant of the last energy integration, in milliseconds on the
    /// caller's monotonic clock. Never decreases.
    pub energy_time: u64,
}

impl View for SMCExportGauges {
    type V = GaugeModel;

    open spec fn view(&self) -> GaugeModel {
        GaugeModel {
            system_power: self.system_power as int,
            system_energy: self.system_energy as int,
            dc_in_power: self.dc_in_power as int,
            energy_time: self.energy_time as int,
        }
    }
}

impl SMCExportGauges {
    /// Create a new set of gauges: every metric starts at zero and the energy
    /// clock starts at the creation instant.
    pub fn create(now: u64) -> (s: SMCExportGauges)
        ensures
            s@ == (GaugeModel {
                system_power: 0,
                system_energy: 0,
                dc_in_power: 0,
                energy_time: now as int,
            }),
    {
        SMCExportGauges { system_power: 0, system_energy: 0, dc_in_power: 0, energy_time: now }
    }

    /// Update system power and energy consumption from one sensor reading.
    ///
    /// `power_reading` is the outcome of reading total system power, in
    /// milliwatts, and `now` the instant of the reading. On a successful
    /// reading the counter accumulates the previously recorded power over the
    /// elapsed time, the power gauge takes the new reading, and the energy
    /// clock advances to `now`. On a failed reading nothing changes and the
    /// error is returned.
    ///
    /// This is separate from [`Self::update`] so it can run on a tighter
    /// timer than the scrape-driven refresh, for a more precise energy
    /// estimate.
    pub fn update_energy(&mut self, power_reading: Result<u64, SensorError>, now: u64) -> (r:
        Result<(), SensorError>)
        requires
            power_reading is Ok ==> old(self).energy_time <= now && old(self).system_energy + old(
                self,
            ).system_power * (now - old(self).energy_time) <= u64::MAX,
        ensures
            power_reading is Ok ==> final(self)@ == energy_step(
                old(self)@,
                power_reading->Ok_0 as int,
                now as int,
            ) && r is Ok,
            power_reading is Err ==> *final(self) == *old(self) && r == Result::<(),
                SensorError,
            >::Err(power_reading->Err_0),
            final(self).system_energy >= old(self).system_energy,
            final(self).energy_time >= old(self).energy_time,
    {
        match power_reading {
            Result::Ok(power) => {
                let elapsed: u64 = now - self.energy_time;
                self.system_energy = self.system_energy + self.system_power * elapsed;
                self.system_power = power;
                self.energy_time = now;
                Result::Ok(())
            },
            Result::Err(e) => Result::Err(e),
        }
    }

    /// Refresh every metric from one pair of sensor readings, both in
    /// milliwatts: first total system power (see [`Self::update_energy`]),
    /// then DC input power.
    ///
    /// If the power reading failed, nothing changes and that error is
    /// returned. If only the DC input reading failed, the effects of the
    /// energy update persist, the DC input gauge keeps the most recent
    /// successfully read value, and the error is returned.
    pub fn update(
        &mut self,
        power_reading: Result<u64, SensorError>,
        dc_reading: Result<u64, SensorError>,
        now: u64,
    ) -> (r: Result<(), SensorError>)
        requires
            power_reading is Ok ==> old(self).energy_time <= now && old(self).system_energy + old(
                self,
            ).system_power * (now - old(self).energy_time) <= u64::MAX,
        ensures
            power_reading is Err ==> *final(self) == *old(self) && r == Result::<(),
                SensorError,
            >::Err(power_reading->Err_0),
            power_reading is Ok && dc_reading is Err ==> final(self)@ == energy_step(
                old(self)@,
                power_reading->Ok_0 as int,
                now as int,
            ) && r == Result::<(), SensorError>::Err(dc_reading->Err_0),
            power_reading is Ok && dc_reading is Ok ==> final(self)@ == dc_step(
                energy_step(old(self)@, power_reading->Ok_0 as int, now as int),
                dc_reading->Ok_0 as int,
            ) && r is Ok,
    {
        let energy_result = self.update_energy(power_reading, now);
        match energy_result {
            Result::Ok(()) => {},
            Result::Err(e) => {
                return Result::Err(e);
            },
        }
        match dc_reading {
            Result::Ok(dc) => {
                self.dc_in_power = dc;
                Result::Ok(())
            },
            Result::Err(e) => Result::Err(e),
        }
    }
}

/// The model state after replaying a sequence of energy updates from `m`.
/// Each reading is a pair of power (milliwatts) and instant (milliseconds),
/// applied in order through [`energy_step`].
pub open spec fn run_energy_updates(m: GaugeModel, readings: Seq<(int, int)>) -> GaugeModel
    decreases readings.len(),
{
    if readings.len() == 0 {
        m
    } else {
        energy_step(
            run_energy_updates(m, readings.drop_last()),
            readings.last().0,
            readings.last().1,
        )
    }
}

/// After at least one energy update, the power gauge and the energy clock
/// hold exactly the last reading.
proof fn lemma_run_tracks_last(m: GaugeModel, readings: Seq<(int, int)>)
    requires
        readings.len() > 0,
    ensures
        run_energy_updates(m, readings).system_power == readings.last().0,
        run_energy_updates(m, readings).energy_time == readings.last().1,
{
}

/// Left-Riemann integration law: over any sequence of energy updates with
/// strictly increasing instants, the counter value after an update equals
/// the value after the previous one plus the power observed at the *start*
/// of the elapsed interval — the previous update's reading — times the
/// interval's length. The reading an update delivers never enters the
/// counter before the following update.
pub proof fn lemma_energy_left_riemann(m: GaugeModel, readings: Seq<(int, int)>, i: int)
    requires
        2 <= i <= readings.len(),
        forall|j: int| 0 <= j < readings.len() - 1 ==> (#[trigger] readings[j]).1 < readings[
            j + 1
        ].1,
    ensures
        run_energy_updates(m, readings.take(i)).system_energy == run_energy_updates(
            m,
            readings.take(i - 1),
        ).system_energy + readings[i - 2].0 * (readings[i - 1].1 - readings[i - 2].1),
{
    let pre = readings.take(i - 1);
    let cur = readings.take(i);
    assert(cur.drop_last() =~= pre);
    assert(cur.last() == readings[i - 1]);
    assert(pre.last() == readings[i - 2]);
    lemma_run_tracks_last(m, pre);
}

/// Monotonicity law: for any sequence of non-negative power readings taken
/// at non-decreasing instants after the initial energy clock, the counter
/// is never set to a value lower than its previous value.
pub proof fn lemma_energy_monotonic(m: GaugeModel, readings: Seq<(int, int)>, i: int)
    requires
        0 <= i < readings.len(),
        m.system_power >= 0,
        m.energy_time <= readings[0].1,
        forall|j: int| 0 <= j < readings.len() ==> (#[trigger] readings[j]).0 >= 0,
        forall|j: int| 0 <= j < readings.len() - 1 ==> (#[trigger] readings[j]).1 <= readings[
            j + 1
        ].1,
    ensures
        run_energy_updates(m, readings.take(i + 1)).system_energy >= run_energy_updates(
            m,
            readings.take(i),
        ).system_energy,
{
    let pre = readings.take(i);
    let cur = readings.take(i + 1);
    assert(cur.drop_last() =~= pre);
    assert(cur.last() == readings[i]);
    let before = run_energy_updates(m, pre);
    if i == 0 {
        assert(pre =~= Seq::<(int, int)>::empty());
        assert(before == m);
    } else {
        assert(pre.last() == readings[i - 1]);
        lemma_run_tracks_last(m, pre);
        assert(before.system_power == readings[i - 1].0);
        assert(before.energy_time == readings[i - 1].1);
    }
    assert(before.system_power * (readings[i].1 - before.energy_time) >= 0) by (nonlinear_arith)
        requires
            before.system_power >= 0,
            before.energy_time <= readings[i].1,
    ;
}

} // verus!
