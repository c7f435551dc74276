//! Battery status.

use vstd::prelude::*;
use crate::decimal::Figure;

verus! {

/// What a battery is doing.
#[derive(Clone, Copy, Debug, PartialEq, Eq, Structural)]
pub enum BatteryState {
    Unknown,
    Charging,
    Discharging,
    Empty,
    Full,
}

/// What one battery reports: its state of charge in percent, its state,
/// and its design capacity in watt-hours. The two figures are kept as the
/// battery shows them.
#[derive(Clone, Copy, Debug, PartialEq, Eq, Structural)]
pub struct BatteryReading {
    pub charge_percent: Figure,
    pub state: BatteryState,
    pub wh_capacity: Figure,
}

/// The battery record of a report. Without a battery only `has_battery` is
/// set.
#[derive(Clone, Copy, Debug, PartialEq, Eq, Structural)]
pub struct BatteryInfo {
    pub has_battery: bool,
    pub charge_percent: Option<Figure>,
    pub is_charging: Option<bool>,
    pub wh_capacity: Option<Figure>,
}

/// The record of a host without a battery.
pub open spec fn no_battery() -> BatteryInfo {
    BatteryInfo { has_battery: false, charge_percent: None, is_charging: None, wh_capacity: None }
}

/// The record that shows one battery.
pub open spec fn battery_info_from(reading: BatteryReading) -> BatteryInfo {
    BatteryInfo {
        has_battery: true,
        charge_percent: Some(reading.charge_percent),
        is_charging: Some(reading.state == BatteryState::Charging),
        wh_capacity: Some(reading.wh_capacity),
    }
}

/// The record of a host with the given batteries: the last battery is the
/// one shown.
pub open spec fn battery_info_of(readings: Seq<BatteryReading>) -> BatteryInfo {
    if readings.len() == 0 {
        no_battery()
    } else {
        battery_info_from(readings.last())
    }
}

/// Builds the battery record from the readings of all batteries of the
/// host, in the order in which the host lists them.
pub fn get_battery_info(readings: &Vec<BatteryReading>) -> (info: BatteryInfo)
    ensures
        info == battery_info_of(readings@),
{
    let mut info = BatteryInfo {
        has_battery: false,
        charge_percent: None,
        is_charging: None,
        wh_capacity: None,
    };
    let mut index: usize = 0;
    while index < readings.len()
        invariant
            index <= readings.len(),
            info == battery_info_of(readings@.take(index as int)),
        decreases readings.len() - index,
    {
        let reading = readings[index];
        info.has_battery = true;
        info.charge_percent = Some(reading.charge_percent);
        info.is_charging = Some(
            match reading.state {
                BatteryState::Charging => true,
                _ => false,
            },
        );
        info.wh_capacity = Some(reading.wh_capacity);
        index = index + 1;
        assert(readings@.take(index as int).last() == reading);
    }
    assert(readings@.take(index as int) =~= readings@);
    info
}

} // verus!
