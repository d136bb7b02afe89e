use bq40z50_rx::BQ40Z50Error;
use platform_common::battery::{
    capacity_to_field, dynamic_data_from, power_magnitude, BatteryCache, BatteryError, CapacityValue,
    DynamicReadings, CAPACITY_UNSUPPORTED,
};

fn readings() -> DynamicReadings {
    DynamicReadings {
        average_current: -1200,
        battery_status: 0x00c0,
        max_turbo_power: -4500,
        temperature: 2981,
        sus_turbo_power: 3000,
        charging_current: 2000,
        charging_voltage: 12600,
        voltage: 12100,
        current: -1150,
        full_charge_capacity: CapacityValue::MilliAmpUnsigned(5000),
        remaining_capacity: CapacityValue::CentiWattUnsigned(4200),
        relative_state_of_charge: 84,
        cycle_count: 10,
        max_error: 3,
    }
}

#[test]
fn driver_errors_become_failed() {
    assert_eq!(BatteryError::from(BQ40Z50Error::<u8>::Timeout), BatteryError::Failed);
    assert_eq!(BatteryError::from(BQ40Z50Error::<u8>::Pec), BatteryError::Failed);
    assert_eq!(BatteryError::from(BQ40Z50Error::I2c(7u8)), BatteryError::Failed);
    let e: BatteryError = BQ40Z50Error::<()>::DataTooLarge.into();
    assert_eq!(e, BatteryError::Failed);
}

#[test]
fn capacity_conversion() {
    assert_eq!(capacity_to_field(CapacityValue::MilliAmpUnsigned(5000)), 5000);
    assert_eq!(capacity_to_field(CapacityValue::MilliAmpUnsigned(u16::MAX)), 65535);
    assert_eq!(capacity_to_field(CapacityValue::CentiWattUnsigned(5000)), 0xDEADBEEF);
    assert_eq!(capacity_to_field(CapacityValue::CentiWattUnsigned(0)), CAPACITY_UNSUPPORTED);
}

#[test]
fn power_magnitude_values() {
    assert_eq!(power_magnitude(0), 0);
    assert_eq!(power_magnitude(4500), 4500);
    assert_eq!(power_magnitude(-4500), 4500);
    assert_eq!(power_magnitude(i16::MIN), 32768);
    assert_eq!(power_magnitude(i16::MAX), 32767);
}

#[test]
fn dynamic_data_fields() {
    let d = dynamic_data_from(&readings());
    assert_eq!(d.average_current_ma, -1200);
    assert_eq!(d.battery_status, 0x00c0);
    assert_eq!(d.max_power_mw, 4500);
    assert_eq!(d.battery_temp_dk, 2981);
    assert_eq!(d.sus_power_mw, 3000);
    assert_eq!(d.turbo_rhf_effective_mohm, 0);
    assert_eq!(d.turbo_vload_mv, 0);
    assert_eq!(d.charging_current_ma, 2000);
    assert_eq!(d.charging_voltage_mv, 12600);
    assert_eq!(d.voltage_mv, 12100);
    assert_eq!(d.current_ma, -1150);
    assert_eq!(d.full_charge_capacity_mwh, 5000);
    assert_eq!(d.remaining_capacity_mwh, 0xDEADBEEF);
    assert_eq!(d.relative_soc_pct, 84);
    assert_eq!(d.cycle_count, 10);
    assert_eq!(d.max_error_pct, 3);
    assert_eq!(d.bmd_status, 0);
}

#[test]
fn cache_starts_zeroed() {
    let cache = BatteryCache::new();
    assert_eq!(cache.dynamic_data.voltage_mv, 0);
    assert_eq!(cache.dynamic_data.full_charge_capacity_mwh, 0);
    assert_eq!(cache.static_data.design_capacity_mwh, 0);
    assert_eq!(cache.static_data.design_voltage_mv, 0);
    assert_eq!(cache.static_data.device_chemistry, [0u8; 5]);
}

#[test]
fn cache_updates_keep_the_other_data() {
    let mut cache = BatteryCache::new();
    let s = cache.update_static(CapacityValue::MilliAmpUnsigned(6000), 11100, *b"LION\0");
    assert_eq!(s.design_capacity_mwh, 6000);
    assert_eq!(s.design_voltage_mv, 11100);
    assert_eq!(&s.device_chemistry, b"LION\0");
    let d = cache.update_dynamic(&readings());
    assert_eq!(cache.dynamic_data, d);
    assert_eq!(cache.static_data, s);
    let s2 = cache.update_static(CapacityValue::CentiWattUnsigned(600), 11000, *b"LiP\0\0");
    assert_eq!(s2.design_capacity_mwh, CAPACITY_UNSUPPORTED);
    assert_eq!(cache.dynamic_data, d);
}
