//! Records read from the NVMe command-line tool.

use vstd::prelude::*;
use vstd::string::*;
use crate::util::text::{push_signed_decimal, signed_decimal};

verus! {

/// Controller identification, as far as the agent reads it.
pub struct ControllerId {
    pub sn: String,
    pub ver: i64,
    pub wctemp: i64,
    pub cctemp: i64,
}

impl ControllerId {
    /// The major part of the packed version: everything above the low sixteen bits.
    pub open spec fn major(&self) -> int {
        self.ver as int / 0x1_0000
    }

    /// The minor part of the packed version: the second-lowest byte.
    pub open spec fn minor(&self) -> int {
        (self.ver as int / 0x100) % 0x100
    }

    /// The version as text: major and minor part in decimal, joined by a dot.
    pub fn ver(&self) -> (text: String)
        ensures
            text@ == signed_decimal(self.major()) + seq!['.'] + signed_decimal(self.minor()),
    {
        let v: i64 = self.ver;
        let major: i64 = v >> 16;
        let minor: i64 = (v >> 8) & 0xff;
        assert(v >> 16 == v as int / 0x1_0000) by (bit_vector);
        assert((v >> 8) & 0xff == (v as int / 0x100) % 0x100) by (bit_vector);
        let mut text = String::new();
        push_signed_decimal(&mut text, major);
        proof {
            reveal_strlit(".");
        }
        text.append(".");
        push_signed_decimal(&mut text, minor);
        text
    }
}

/// Namespace identification, as far as the agent reads it.
pub struct NamespaceId {
    pub nuse: i64,
}

/// The SMART log of a drive.
pub struct SmartLog {
    pub critical_warning: i64,
    pub avail_spare: i64,
    pub spare_thresh: i64,
    pub percent_used: i64,
    pub endurance_grp_critical_warning_summary: i64,
    pub data_units_read: u128,
    pub data_units_written: u128,
    pub host_read_commands: u128,
    pub host_write_commands: i128,
    pub controller_busy_time: u128,
    pub power_cycles: u128,
    pub power_on_hours: u128,
    pub unsafe_shutdowns: u128,
    pub media_errors: u128,
    pub num_err_log_entries: u128,
    pub warning_temp_time: i64,
    pub critical_comp_time: i64,
    pub temperature_sensor_1: Option<i64>,
    pub temperature_sensor_2: Option<i64>,
    pub temperature_sensor_3: Option<i64>,
    pub temperature_sensor_4: Option<i64>,
    pub temperature_sensor_5: Option<i64>,
    pub temperature_sensor_6: Option<i64>,
    pub temperature_sensor_7: Option<i64>,
    pub temperature_sensor_8: Option<i64>,
    pub thm_temp1_trans_count: i64,
    pub thm_temp2_trans_count: i64,
    pub thm_temp1_total_time: i64,
    pub thm_temp2_total_time: i64,
}

/// The readings that are present in a row of sensor slots, in slot order.
pub open spec fn present(slots: Seq<Option<i64>>) -> Seq<i64>
    decreases slots.len(),
{
    if slots.len() == 0 {
        Seq::empty()
    } else {
        let before = present(slots.drop_last());
        match slots.last() {
            Some(reading) => before.push(reading),
            None => before,
        }
    }
}

impl SmartLog {
    /// The eight temperature sensor slots, first to last.
    pub open spec fn sensor_slots(&self) -> Seq<Option<i64>> {
        seq![
            self.temperature_sensor_1,
            self.temperature_sensor_2,
            self.temperature_sensor_3,
            self.temperature_sensor_4,
            self.temperature_sensor_5,
            self.temperature_sensor_6,
            self.temperature_sensor_7,
            self.temperature_sensor_8,
        ]
    }

    /// The readings of the temperature sensors that reported one, in sensor order.
    pub fn temperature_sensors(&self) -> (readings: Vec<i64>)
        ensures
            readings@ == present(self.sensor_slots()),
    {
        let slots: [Option<i64>; 8] = [
            self.temperature_sensor_1,
            self.temperature_sensor_2,
            self.temperature_sensor_3,
            self.temperature_sensor_4,
            self.temperature_sensor_5,
            self.temperature_sensor_6,
            self.temperature_sensor_7,
            self.temperature_sensor_8,
        ];
        let mut readings: Vec<i64> = Vec::new();
        let mut i: usize = 0;
        while i < 8
            invariant
                i <= 8,
                slots@ == self.sensor_slots(),
                slots@.len() == 8,
                readings@ == present(slots@.take(i as int)),
            decreases 8 - i,
        {
            assert(slots@.take(i + 1).drop_last() =~= slots@.take(i as int));
            if let Some(reading) = slots[i] {
                readings.push(reading);
            }
            i += 1;
        }
        assert(slots@.take(8) =~= slots@);
        readings
    }
}

} // verus!
