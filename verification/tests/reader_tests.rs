use rustbridge::config::{DataType, RegisterConfig, RegisterType};
use rustbridge::modbus::reader::{convert_value, Decoded, RegisterValue};
use rustbridge::timestamp::Timestamp;

fn make_register_config(
    data_type: DataType,
    scale: Option<f64>,
    offset: Option<f64>,
) -> RegisterConfig {
    RegisterConfig {
        name: "test".to_string(),
        address: 0,
        register_type: RegisterType::Holding,
        count: 1,
        data_type,
        unit: None,
        scale: scale.map(f64::to_bits),
        offset: offset.map(f64::to_bits),
    }
}

/// Decodes with the library and calibrates as the bridge does at its edge.
fn calibrated(raw: &[u16], config: &RegisterConfig) -> f64 {
    let raw_value = match convert_value(raw, config) {
        Decoded::Integer(n) => n as f64,
        Decoded::Float32(bits) => f32::from_bits(bits) as f64,
    };
    let scale = config.scale.map(f64::from_bits).unwrap_or(1.0);
    let offset = config.offset.map(f64::from_bits).unwrap_or(0.0);
    raw_value * scale + offset
}

#[test]
fn test_convert_u16() {
    let config = make_register_config(DataType::U16, None, None);

    assert_eq!(calibrated(&[0], &config), 0.0);
    assert_eq!(calibrated(&[100], &config), 100.0);
    assert_eq!(calibrated(&[65535], &config), 65535.0);
}

#[test]
fn test_convert_i16() {
    let config = make_register_config(DataType::I16, None, None);

    assert_eq!(calibrated(&[0], &config), 0.0);
    assert_eq!(calibrated(&[100], &config), 100.0);
    // 65535 as i16 = -1
    assert_eq!(calibrated(&[65535], &config), -1.0);
    // 65436 as i16 = -100
    assert_eq!(calibrated(&[65436], &config), -100.0);
}

#[test]
fn test_convert_u32() {
    let config = make_register_config(DataType::U32, None, None);

    // 0x00000000
    assert_eq!(calibrated(&[0, 0], &config), 0.0);

    // 0x00010000 = 65536
    assert_eq!(calibrated(&[1, 0], &config), 65536.0);

    // 0x00000001 = 1
    assert_eq!(calibrated(&[0, 1], &config), 1.0);

    // 0x0001FFFF = 131071
    assert_eq!(calibrated(&[1, 65535], &config), 131071.0);

    // 0xFFFFFFFF = 4294967295
    assert_eq!(calibrated(&[65535, 65535], &config), 4294967295.0);
}

#[test]
fn test_convert_i32() {
    let config = make_register_config(DataType::I32, None, None);

    // 0
    assert_eq!(calibrated(&[0, 0], &config), 0.0);

    // 1
    assert_eq!(calibrated(&[0, 1], &config), 1.0);

    // -1 (0xFFFFFFFF)
    assert_eq!(calibrated(&[65535, 65535], &config), -1.0);

    // -100 (0xFFFFFF9C)
    let neg100: i32 = -100;
    let high = ((neg100 as u32) >> 16) as u16;
    let low = (neg100 as u32) as u16;
    assert_eq!(calibrated(&[high, low], &config), -100.0);
}

#[test]
fn test_convert_f32() {
    let config = make_register_config(DataType::F32, None, None);

    // IEEE 754: 0.0
    assert_eq!(calibrated(&[0, 0], &config), 0.0);

    // IEEE 754: 1.0 = 0x3F800000
    let one_bits: u32 = 1.0_f32.to_bits();
    let high = (one_bits >> 16) as u16;
    let low = one_bits as u16;
    assert!((calibrated(&[high, low], &config) - 1.0).abs() < 0.0001);

    // IEEE 754: 3.14159... = 0x40490FDB
    let pi_bits: u32 = std::f32::consts::PI.to_bits();
    let high = (pi_bits >> 16) as u16;
    let low = pi_bits as u16;
    assert!((calibrated(&[high, low], &config) - std::f64::consts::PI).abs() < 0.0001);

    // Negative value: -42.5
    let neg_bits: u32 = (-42.5_f32).to_bits();
    let high = (neg_bits >> 16) as u16;
    let low = neg_bits as u16;
    assert!((calibrated(&[high, low], &config) - (-42.5)).abs() < 0.0001);
}

#[test]
fn test_convert_bool() {
    let config = make_register_config(DataType::Bool, None, None);

    assert_eq!(calibrated(&[0], &config), 0.0);
    assert_eq!(calibrated(&[1], &config), 1.0);
    assert_eq!(calibrated(&[100], &config), 1.0);
    assert_eq!(calibrated(&[65535], &config), 1.0);
}

#[test]
fn test_scale_factor() {
    // Temperature sensor: raw value * 0.1 = actual temperature
    let config = make_register_config(DataType::U16, Some(0.1), None);

    assert_eq!(calibrated(&[250], &config), 25.0);
    assert_eq!(calibrated(&[1000], &config), 100.0);
}

#[test]
fn test_offset() {
    // Sensor with offset calibration
    let config = make_register_config(DataType::I16, None, Some(100.0));

    assert_eq!(calibrated(&[0], &config), 100.0);
    assert_eq!(calibrated(&[50], &config), 150.0);
}

#[test]
fn test_scale_and_offset() {
    // Temperature sensor: (raw * 0.1) + (-40) for Celsius
    let config = make_register_config(DataType::U16, Some(0.1), Some(-40.0));

    // Raw 400 = 40.0 - 40.0 = 0.0°C
    assert_eq!(calibrated(&[400], &config), 0.0);

    // Raw 650 = 65.0 - 40.0 = 25.0°C
    assert_eq!(calibrated(&[650], &config), 25.0);
}

#[test]
fn test_empty_raw_values() {
    let config = make_register_config(DataType::U16, None, None);
    assert_eq!(calibrated(&[], &config), 0.0);

    let config32 = make_register_config(DataType::U32, None, None);
    assert_eq!(calibrated(&[], &config32), 0.0);
    assert_eq!(calibrated(&[1], &config32), 0.0); // Not enough values
}

#[test]
fn test_register_value_creation() {
    let reg_value = RegisterValue {
        name: "temperature".to_string(),
        raw: vec![250],
        value: 25.0_f64.to_bits(),
        unit: Some("°C".to_string()),
        timestamp: Timestamp::from_unix(1_700_000_000, 0).unwrap(),
    };

    assert_eq!(reg_value.name, "temperature");
    assert_eq!(f64::from_bits(reg_value.value), 25.0);
    assert_eq!(reg_value.unit, Some("°C".to_string()));
}

#[test]
fn test_industrial_temperature_sensor() {
    // Typical industrial temperature sensor:
    // - Returns raw value as 10x actual temperature
    // - Range: -40°C to 125°C
    // - Signed value for negative temperatures
    let config = make_register_config(DataType::I16, Some(0.1), None);

    // -40°C = raw -400
    let raw_neg40: u16 = (-400_i16) as u16;
    assert!((calibrated(&[raw_neg40], &config) - (-40.0)).abs() < 0.01);

    // 0°C = raw 0
    assert_eq!(calibrated(&[0], &config), 0.0);

    // 25°C = raw 250
    assert!((calibrated(&[250], &config) - 25.0).abs() < 0.01);

    // 125°C = raw 1250
    assert!((calibrated(&[1250], &config) - 125.0).abs() < 0.01);
}

#[test]
fn test_pressure_sensor_psi() {
    // Pressure sensor: 0-10000 raw = 0-100 PSI
    let config = make_register_config(DataType::U16, Some(0.01), None);

    assert_eq!(calibrated(&[0], &config), 0.0);
    assert_eq!(calibrated(&[5000], &config), 50.0);
    assert_eq!(calibrated(&[10000], &config), 100.0);
}

#[test]
fn test_flow_meter_with_u32() {
    // Flow meter: 32-bit counter in liters
    let config = make_register_config(DataType::U32, None, None);

    // 1,000,000 liters
    let value: u32 = 1_000_000;
    let high = (value >> 16) as u16;
    let low = value as u16;
    assert_eq!(calibrated(&[high, low], &config), 1_000_000.0);
}

#[test]
fn decode_is_exact_on_integers() {
    let u16_config = make_register_config(DataType::U16, None, None);
    let i16_config = make_register_config(DataType::I16, None, None);
    let u32_config = make_register_config(DataType::U32, None, None);
    let i32_config = make_register_config(DataType::I32, None, None);
    let f32_config = make_register_config(DataType::F32, None, None);

    assert_eq!(convert_value(&[65535], &u16_config), Decoded::Integer(65535));
    assert_eq!(convert_value(&[32768], &i16_config), Decoded::Integer(-32768));
    assert_eq!(convert_value(&[32767], &i16_config), Decoded::Integer(32767));
    assert_eq!(convert_value(&[0x1234, 0x5678], &u32_config), Decoded::Integer(0x1234_5678));
    assert_eq!(convert_value(&[0x8000, 0], &i32_config), Decoded::Integer(-2147483648));
    assert_eq!(convert_value(&[0x7fff, 0xffff], &i32_config), Decoded::Integer(2147483647));
    assert_eq!(convert_value(&[0x4049, 0x0fdb], &f32_config), Decoded::Float32(0x4049_0fdb));
}

#[test]
fn decode_word_order_is_high_word_first() {
    let config = make_register_config(DataType::U32, None, None);
    assert_eq!(convert_value(&[1, 2], &config), Decoded::Integer(65538));
    assert_eq!(convert_value(&[2, 1], &config), Decoded::Integer(131073));
}

#[test]
fn decode_pi_round_trip() {
    let config = make_register_config(DataType::F32, Some(1.0), Some(0.0));
    let value = calibrated(&[0x4049, 0x0FDB], &config);
    assert!((value - 3.14159265).abs() < 1e-4);
}

#[test]
fn decode_calibration_zero_raw() {
    let config = make_register_config(DataType::U16, Some(0.1), Some(-40.0));
    assert_eq!(calibrated(&[0], &config), -40.0);
}

#[test]
fn decode_of_no_words_is_zero_for_every_type() {
    for data_type in [
        DataType::U16,
        DataType::I16,
        DataType::U32,
        DataType::I32,
        DataType::F32,
        DataType::Bool,
    ] {
        let config = make_register_config(data_type, None, None);
        assert_eq!(calibrated(&[], &config), 0.0);
    }
    let f32_config = make_register_config(DataType::F32, None, None);
    assert_eq!(convert_value(&[], &f32_config), Decoded::Float32(0));
    assert_eq!(convert_value(&[7], &f32_config), Decoded::Float32(0));
}

#[test]
fn decode_ignores_extra_words() {
    let config = make_register_config(DataType::U16, None, None);
    assert_eq!(convert_value(&[5, 6, 7], &config), Decoded::Integer(5));
    let bool_config = make_register_config(DataType::Bool, None, None);
    assert_eq!(convert_value(&[0, 1], &bool_config), Decoded::Integer(0));
}

#[test]
fn required_words_per_type() {
    assert_eq!(DataType::U16.required_words(), 1);
    assert_eq!(DataType::I16.required_words(), 1);
    assert_eq!(DataType::Bool.required_words(), 1);
    assert_eq!(DataType::U32.required_words(), 2);
    assert_eq!(DataType::I32.required_words(), 2);
    assert_eq!(DataType::F32.required_words(), 2);
}

#[test]
fn value_of_read_takes_name_and_unit_from_descriptor() {
    let mut config = make_register_config(DataType::U16, None, None);
    config.name = "temperature".to_string();
    config.unit = Some("°C".to_string());
    let now = Timestamp::from_unix(1_700_000_000, 5).unwrap();
    let value = RegisterValue::from_read(&config, vec![250], 25.0_f64.to_bits(), now);
    assert_eq!(value.name, "temperature");
    assert_eq!(value.raw, vec![250]);
    assert_eq!(f64::from_bits(value.value), 25.0);
    assert_eq!(value.unit, Some("°C".to_string()));
    assert_eq!(value.timestamp.seconds(), 1_700_000_000);
    assert_eq!(value.timestamp.nanoseconds(), 5);
    let copy = value.clone();
    assert_eq!(copy.name, value.name);
    assert_eq!(copy.raw, value.raw);
}
