//! The data model of the BQ40Z50-R5 fuel gauge controller.
//!
//! The controller reads Smart Battery registers and turns them into the
//! dynamic and static battery messages that the battery service serves. The
//! reads themselves are bus transactions made by the caller; this module
//! takes what was read, as plain values, and computes the messages.
use vstd::prelude::*;
use bq40z50_rx::BQ40Z50Error;

verus! {

/// The fuel gauge driver's error type, carried opaquely.
#[verifier::external_type_specification]
#[verifier::external_body]
#[verifier::reject_recursive_types(I2cError)]
pub struct ExBq40z50Error<I2cError>(BQ40Z50Error<I2cError>);

/// Errors of the fuel gauge controller.
#[derive(Clone, Copy, Debug, PartialEq, Eq, Structural)]
pub enum BatteryError {
    /// Generic failure
    Failed,
}

impl<I2cError> From<BQ40Z50Error<I2cError>> for BatteryError {
    /// Every driver error is reported as a generic failure.
    fn from(value: BQ40Z50Error<I2cError>) -> (err: Self)
        ensures
            err == BatteryError::Failed,
    {
        let _ = value;
        BatteryError::Failed
    }
}

impl<I2cError> vstd::std_specs::convert::FromSpecImpl<BQ40Z50Error<I2cError>> for BatteryError {
    open spec fn obeys_from_spec() -> bool {
        true
    }

    open spec fn from_spec(v: BQ40Z50Error<I2cError>) -> Self {
        BatteryError::Failed
    }
}

/// Value that marks a capacity reported in 10 mW units, which the
/// controller does not convert.
pub const CAPACITY_UNSUPPORTED: u32 = 0xDEADBEEF;

/// A Smart Battery capacity reading; its unit follows the CapacityMode bit.
#[derive(Clone, Copy, Debug, PartialEq, Eq, Structural)]
pub enum CapacityValue {
    /// Milliamp(-hour) reading, used when CapacityMode is clear.
    MilliAmpUnsigned(u16),
    /// Centiwatt(-hour) reading, used when CapacityMode is set.
    CentiWattUnsigned(u16),
}

/// The capacity as stored in a battery message.
pub open spec fn capacity_field(c: CapacityValue) -> u32 {
    match c {
        CapacityValue::MilliAmpUnsigned(v) => v as u32,
        CapacityValue::CentiWattUnsigned(_) => CAPACITY_UNSUPPORTED,
    }
}

/// The capacity as stored in a battery message: milliamp readings are
/// widened, centiwatt readings are replaced by [`CAPACITY_UNSUPPORTED`].
pub fn capacity_to_field(c: CapacityValue) -> (v: u32)
    ensures
        v == capacity_field(c),
        v == CAPACITY_UNSUPPORTED <==> c is CentiWattUnsigned,
        c matches CapacityValue::MilliAmpUnsigned(m) ==> v as int == m as int,
{
    match c {
        CapacityValue::MilliAmpUnsigned(v) => v as u32,
        CapacityValue::CentiWattUnsigned(_) => CAPACITY_UNSUPPORTED,
    }
}

/// The magnitude of a signed 16-bit reading.
pub open spec fn magnitude(x: i16) -> u32 {
    if x < 0 {
        (-x) as u32
    } else {
        x as u32
    }
}

/// The magnitude of a signed 16-bit power reading, as stored in a battery
/// message.
pub fn power_magnitude(x: i16) -> (v: u32)
    ensures
        v == magnitude(x),
        v <= 32768,
        v as int == (if x < 0 { -(x as int) } else { x as int }),
{
    if x < 0 {
        (-(x as i32)) as u32
    } else {
        x as u32
    }
}

/// The registers that one dynamic-data refresh reads from the fuel gauge.
#[derive(Clone, Copy, Debug, PartialEq, Eq, Structural)]
pub struct DynamicReadings {
    pub average_current: i16,
    /// The raw BatteryStatus register.
    pub battery_status: u16,
    pub max_turbo_power: i16,
    pub temperature: u16,
    pub sus_turbo_power: i16,
    pub charging_current: u16,
    pub charging_voltage: u16,
    pub voltage: u16,
    pub current: i16,
    pub full_charge_capacity: CapacityValue,
    pub remaining_capacity: CapacityValue,
    pub relative_state_of_charge: u8,
    pub cycle_count: u16,
    pub max_error: u8,
}

/// Dynamic battery data as served by the battery service.
#[derive(Clone, Copy, Debug, PartialEq, Eq, Structural)]
pub struct DynamicData {
    pub average_current_ma: i16,
    pub battery_status: u16,
    pub max_power_mw: u32,
    pub battery_temp_dk: u16,
    pub sus_power_mw: u32,
    pub turbo_rhf_effective_mohm: u16,
    pub turbo_vload_mv: u16,
    pub charging_current_ma: u16,
    pub charging_voltage_mv: u16,
    pub voltage_mv: u16,
    pub current_ma: i16,
    pub full_charge_capacity_mwh: u32,
    pub remaining_capacity_mwh: u32,
    pub relative_soc_pct: u16,
    pub cycle_count: u16,
    pub max_error_pct: u16,
    /// Battery maintenance status flags.
    pub bmd_status: u32,
}

/// Dynamic data before the first refresh: every field zero.
pub open spec fn empty_dynamic_data() -> DynamicData {
    DynamicData {
        average_current_ma: 0,
        battery_status: 0,
        max_power_mw: 0,
        battery_temp_dk: 0,
        sus_power_mw: 0,
        turbo_rhf_effective_mohm: 0,
        turbo_vload_mv: 0,
        charging_current_ma: 0,
        charging_voltage_mv: 0,
        voltage_mv: 0,
        current_ma: 0,
        full_charge_capacity_mwh: 0,
        remaining_capacity_mwh: 0,
        relative_soc_pct: 0,
        cycle_count: 0,
        max_error_pct: 0,
        bmd_status: 0,
    }
}

/// Before the first refresh every dynamic field is zero.
pub proof fn lemma_empty_dynamic_data_is_zero()
    ensures
        ({
            let d = empty_dynamic_data();
            &&& d.average_current_ma == 0 && d.battery_status == 0 && d.max_power_mw == 0
            &&& d.battery_temp_dk == 0 && d.sus_power_mw == 0 && d.turbo_rhf_effective_mohm == 0
            &&& d.turbo_vload_mv == 0 && d.charging_current_ma == 0 && d.charging_voltage_mv == 0
            &&& d.voltage_mv == 0 && d.current_ma == 0 && d.full_charge_capacity_mwh == 0
            &&& d.remaining_capacity_mwh == 0 && d.relative_soc_pct == 0 && d.cycle_count == 0
            &&& d.max_error_pct == 0 && d.bmd_status == 0
        }),
{
}

/// The dynamic data computed from one set of readings.
pub open spec fn dynamic_from(r: DynamicReadings) -> DynamicData {
    DynamicData {
        average_current_ma: r.average_current,
        battery_status: r.battery_status,
        max_power_mw: magnitude(r.max_turbo_power),
        battery_temp_dk: r.temperature,
        sus_power_mw: magnitude(r.sus_turbo_power),
        turbo_rhf_effective_mohm: 0,
        turbo_vload_mv: 0,
        charging_current_ma: r.charging_current,
        charging_voltage_mv: r.charging_voltage,
        voltage_mv: r.voltage,
        current_ma: r.current,
        full_charge_capacity_mwh: capacity_field(r.full_charge_capacity),
        remaining_capacity_mwh: capacity_field(r.remaining_capacity),
        relative_soc_pct: r.relative_state_of_charge as u16,
        cycle_count: r.cycle_count,
        max_error_pct: r.max_error as u16,
        bmd_status: 0,
    }
}

/// A milliamp capacity reading is stored as the reading itself, widened;
/// a centiwatt reading, whatever its value, is stored as
/// [`CAPACITY_UNSUPPORTED`], a value no milliamp reading can take.
pub proof fn lemma_capacity_stored_unchanged(v: u16)
    ensures
        capacity_field(CapacityValue::MilliAmpUnsigned(v)) as int == v as int,
        capacity_field(CapacityValue::CentiWattUnsigned(v)) == 0xDEADBEEFu32,
        CAPACITY_UNSUPPORTED == 0xDEADBEEFu32,
        capacity_field(CapacityValue::MilliAmpUnsigned(v)) != CAPACITY_UNSUPPORTED,
{
}

/// The magnitude of a reading is its absolute value.
pub proof fn lemma_magnitude_is_absolute_value(x: i16)
    ensures
        magnitude(x) as int == (if x < 0 { -(x as int) } else { x as int }),
{
}

/// The dynamic data, field by field, in terms of the readings: the
/// registers are passed through bit for bit (widened where the field is
/// wider), turbo powers become their absolute values, capacities are
/// stored as read in milliamps or as [`CAPACITY_UNSUPPORTED`] in
/// centiwatts, and the fields the gauge does not supply are zero.
pub proof fn lemma_dynamic_data_fields(r: DynamicReadings)
    ensures
        dynamic_from(r).average_current_ma == r.average_current,
        dynamic_from(r).battery_status == r.battery_status,
        dynamic_from(r).max_power_mw as int == (if r.max_turbo_power < 0 {
            -(r.max_turbo_power as int)
        } else {
            r.max_turbo_power as int
        }),
        dynamic_from(r).battery_temp_dk == r.temperature,
        dynamic_from(r).sus_power_mw as int == (if r.sus_turbo_power < 0 {
            -(r.sus_turbo_power as int)
        } else {
            r.sus_turbo_power as int
        }),
        dynamic_from(r).turbo_rhf_effective_mohm == 0,
        dynamic_from(r).turbo_vload_mv == 0,
        dynamic_from(r).charging_current_ma == r.charging_current,
        dynamic_from(r).charging_voltage_mv == r.charging_voltage,
        dynamic_from(r).voltage_mv == r.voltage,
        dynamic_from(r).current_ma == r.current,
        match r.full_charge_capacity {
            CapacityValue::MilliAmpUnsigned(v) => dynamic_from(r).full_charge_capacity_mwh as int == v as int,
            CapacityValue::CentiWattUnsigned(_) => dynamic_from(r).full_charge_capacity_mwh == 0xDEADBEEFu32,
        },
        match r.remaining_capacity {
            CapacityValue::MilliAmpUnsigned(v) => dynamic_from(r).remaining_capacity_mwh as int == v as int,
            CapacityValue::CentiWattUnsigned(_) => dynamic_from(r).remaining_capacity_mwh == 0xDEADBEEFu32,
        },
        dynamic_from(r).relative_soc_pct as int == r.relative_state_of_charge as int,
        dynamic_from(r).cycle_count == r.cycle_count,
        dynamic_from(r).max_error_pct as int == r.max_error as int,
        dynamic_from(r).bmd_status == 0,
{
}

/// Compute the dynamic data from one set of readings.
pub fn dynamic_data_from(r: &DynamicReadings) -> (d: DynamicData)
    ensures
        d == dynamic_from(*r),
        d.battery_status == r.battery_status,
        d.cycle_count == r.cycle_count,
{
    DynamicData {
        average_current_ma: r.average_current,
        battery_status: r.battery_status,
        max_power_mw: power_magnitude(r.max_turbo_power),
        battery_temp_dk: r.temperature,
        sus_power_mw: power_magnitude(r.sus_turbo_power),
        turbo_rhf_effective_mohm: 0,
        turbo_vload_mv: 0,
        charging_current_ma: r.charging_current,
        charging_voltage_mv: r.charging_voltage,
        voltage_mv: r.voltage,
        current_ma: r.current,
        full_charge_capacity_mwh: capacity_to_field(r.full_charge_capacity),
        remaining_capacity_mwh: capacity_to_field(r.remaining_capacity),
        relative_soc_pct: r.relative_state_of_charge as u16,
        cycle_count: r.cycle_count,
        max_error_pct: r.max_error as u16,
        bmd_status: 0,
    }
}

/// Number of bytes of the device chemistry string.
pub const CHEMISTRY_LEN: usize = 5;

/// The static battery data that the controller maintains.
#[derive(Clone, Copy, Debug, PartialEq, Eq)]
pub struct StaticData {
    pub design_capacity_mwh: u32,
    pub design_voltage_mv: u16,
    pub device_chemistry: [u8; 5],
}

/// Static data before the first refresh: every field zero.
pub open spec fn is_empty_static_data(s: StaticData) -> bool {
    &&& s.design_capacity_mwh == 0
    &&& s.design_voltage_mv == 0
    &&& s.device_chemistry@ == Seq::new(CHEMISTRY_LEN as nat, |i: int| 0u8)
}

/// The battery data last computed by the controller.
pub struct BatteryCache {
    pub dynamic_data: DynamicData,
    pub static_data: StaticData,
}

impl BatteryCache {
    /// A cache with all data zero.
    pub fn new() -> (cache: Self)
        ensures
            cache.dynamic_data == empty_dynamic_data(),
            is_empty_static_data(cache.static_data),
    {
        let cache = BatteryCache {
            dynamic_data: DynamicData {
                average_current_ma: 0,
                battery_status: 0,
                max_power_mw: 0,
                battery_temp_dk: 0,
                sus_power_mw: 0,
                turbo_rhf_effective_mohm: 0,
                turbo_vload_mv: 0,
                charging_current_ma: 0,
                charging_voltage_mv: 0,
                voltage_mv: 0,
                current_ma: 0,
                full_charge_capacity_mwh: 0,
                remaining_capacity_mwh: 0,
                relative_soc_pct: 0,
                cycle_count: 0,
                max_error_pct: 0,
                bmd_status: 0,
            },
            static_data: StaticData {
                design_capacity_mwh: 0,
                design_voltage_mv: 0,
                device_chemistry: [0u8, 0u8, 0u8, 0u8, 0u8],
            },
        };
        assert(cache.static_data.device_chemistry@ =~= Seq::new(CHEMISTRY_LEN as nat, |i: int| 0u8));
        cache
    }

    /// Replace the dynamic data with that computed from `readings`, and
    /// return it.
    pub fn update_dynamic(&mut self, readings: &DynamicReadings) -> (d: DynamicData)
        ensures
            d == dynamic_from(*readings),
            final(self).dynamic_data == d,
            final(self).static_data == old(self).static_data,
    {
        self.dynamic_data = dynamic_data_from(readings);
        self.dynamic_data
    }

    /// Store the static readings (design capacity, design voltage, device
    /// chemistry) in the static data, and return it.
    pub fn update_static(&mut self, design_capacity: CapacityValue, design_voltage: u16, chemistry: [u8; 5]) -> (s: StaticData)
        ensures
            s == (StaticData {
                design_capacity_mwh: capacity_field(design_capacity),
                design_voltage_mv: design_voltage,
                device_chemistry: chemistry,
            }),
            final(self).static_data == s,
            final(self).dynamic_data == old(self).dynamic_data,
            design_capacity matches CapacityValue::MilliAmpUnsigned(m) ==> s.design_capacity_mwh as int == m as int,
            design_capacity is CentiWattUnsigned ==> s.design_capacity_mwh == CAPACITY_UNSUPPORTED,
    {
        self.static_data.design_capacity_mwh = capacity_to_field(design_capacity);
        self.static_data.design_voltage_mv = design_voltage;
        self.static_data.device_chemistry = chemistry;
        self.static_data
    }
}

} // verus!
