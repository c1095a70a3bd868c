//! Charging the player's battery from poles and from the sun.
//!
//! Charges count thousandths of a charge unit, outputs thousandths of a
//! unit per second, durations milliseconds.

use vstd::prelude::*;
use crate::components::{Battery, CordSystem, PowerSource, SolarPanel};

verus! {

/// Lowest brightness of the day, in thousandths.
pub const MIN_BRIGHTNESS: u32 = 200;

/// Charge delivered at `output` during `dt_ms` milliseconds, rounded down.
pub open spec fn charge_amount(output: int, dt_ms: int) -> int {
    output * dt_ms / 1000
}

/// Charge delivered by a panel of `output` at `brightness` thousandths of
/// full light during `dt_ms` milliseconds, rounded down.
pub open spec fn solar_amount(output: int, brightness: int, dt_ms: int) -> int {
    output * brightness * dt_ms / 1_000_000
}

impl Battery {
    /// The charge is no more than the battery holds.
    pub open spec fn wf(self) -> bool {
        self.current_charge <= self.max_charge
    }

    /// The battery after taking `amount`: a battery below its capacity
    /// gains the amount and stops at its capacity; a full one stays.
    pub open spec fn charged(self, amount: int) -> Battery {
        if self.current_charge < self.max_charge {
            Battery {
                current_charge: if self.current_charge + amount > self.max_charge {
                    self.max_charge
                } else {
                    (self.current_charge + amount) as u32
                },
                ..self
            }
        } else {
            self
        }
    }

    /// The battery after giving `amount`, not below empty.
    pub open spec fn drained(self, amount: int) -> Battery {
        Battery {
            current_charge: if self.current_charge < amount {
                0
            } else {
                (self.current_charge - amount) as u32
            },
            ..self
        }
    }

    /// Takes `amount` of charge.
    pub fn charge(&mut self, amount: u128)
        ensures
            *final(self) == old(self).charged(amount as int),
            old(self).wf() ==> final(self).wf(),
    {
        if self.current_charge < self.max_charge {
            let room: u32 = self.max_charge - self.current_charge;
            if amount > room as u128 {
                self.current_charge = self.max_charge;
            } else {
                self.current_charge = self.current_charge + amount as u32;
            }
        }
    }

    /// Gives `amount` of charge.
    pub fn drain(&mut self, amount: u32)
        ensures
            *final(self) == old(self).drained(amount as int),
            old(self).wf() ==> final(self).wf(),
    {
        if self.current_charge < amount {
            self.current_charge = 0;
        } else {
            self.current_charge = self.current_charge - amount;
        }
    }
}

/// Charges the battery through the cord: only an attached cord delivers,
/// and only where its pole has a power source.
pub fn transfer_power(
    cord_system: &CordSystem,
    battery: &mut Battery,
    source: Option<PowerSource>,
    dt_ms: u32,
)
    ensures
        *final(battery) == if cord_system@.attached_pole is Some && source is Some {
            old(battery).charged(charge_amount(source->0.max_output as int, dt_ms as int))
        } else {
            *old(battery)
        },
        old(battery).wf() ==> final(battery).wf(),
{
    if cord_system.attached_pole.is_some() {
        match source {
            Some(power_source) => {
                assert(power_source.max_output as int * dt_ms as int <= 0xffff_ffff * 0xffff_ffff)
                    by (nonlinear_arith)
                    requires
                        0 <= power_source.max_output <= 0xffff_ffff,
                        0 <= dt_ms <= 0xffff_ffff,
                ;
                let amount: u64 = power_source.max_output as u64 * dt_ms as u64 / 1000;
                battery.charge(amount as u128);
            },
            None => {},
        }
    }
}

/// Charges the battery from a solar panel at the given brightness, in
/// thousandths of full light.
pub fn solar_charge(battery: &mut Battery, panel: &SolarPanel, brightness: u32, dt_ms: u32)
    ensures
        *final(battery) == old(battery).charged(
            solar_amount(panel.max_output as int, brightness as int, dt_ms as int),
        ),
        old(battery).wf() ==> final(battery).wf(),
{
    assert(panel.max_output as int * brightness as int <= 0xffff_ffff * 0xffff_ffff
        && panel.max_output as int * brightness as int * dt_ms as int <= 0xffff_ffff * 0xffff_ffff
        * 0xffff_ffff && panel.max_output as int * brightness as int >= 0) by (nonlinear_arith)
        requires
            0 <= panel.max_output <= 0xffff_ffff,
            0 <= brightness <= 0xffff_ffff,
            0 <= dt_ms <= 0xffff_ffff,
    ;
    let amount: u128 = panel.max_output as u128 * brightness as u128 * dt_ms as u128 / 1_000_000;
    battery.charge(amount);
}

} // verus!
