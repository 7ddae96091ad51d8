use telemetry_ingest::batch::create_arrow_record_batch;
use telemetry_ingest::json::JsonField;
use telemetry_ingest::measurement::MeasurementType;
use telemetry_ingest::normalize::{
    event_time, find_field, label_of, normalize_one_message, rows_from_fields,
};
use telemetry_ingest::row::NormalizedRow;

const TEST_JSON: &str = r#"[
    {
        "time": "2025-11-29 22:00:39",
        "model": "LaCrosse-TX29IT",
        "id": 19,
        "battery_ok": 1,
        "newbattery": 0,
        "temperature_C": 20.9,
        "mic": "CRC"
    },
    {
        "time": "2025-11-29 22:00:59",
        "model": "LaCrosse-TX141Bv3",
        "id": 246,
        "channel": 1,
        "battery_ok": 1,
        "temperature_C": 22.0,
        "test": "No"
    },
    {
        "time": "2025-11-29 22:02:28",
        "model": "Toyota",
        "type": "TPMS",
        "id": "f1c7e267",
        "status": 128,
        "pressure_kPa": 246.48758,
        "temperature_C": 6.0,
        "mic": "CRC"
    },
    {
        "time": "2025-11-29 22:02:33",
        "model": "Ambientweather-F007TH",
        "id": 141,
        "channel": 1,
        "battery_ok": 0,
        "temperature_C": 18.72223,
        "humidity": 40,
        "mic": "CRC"
    }  
    ]"#;

const SCENARIO: &str = r#"{"time":"2025-11-29 22:00:39","model":"X","id":"d1","battery_ok":1,"temperature_C":21.5,"humidity":45.2}"#;

fn all_test_rows() -> Vec<NormalizedRow> {
    let v: serde_json::Value = serde_json::from_str(TEST_JSON).expect("parse test json");
    let arr = v.as_array().expect("expected json array");
    let mut all_rows = Vec::new();
    for item in arr {
        let s = serde_json::to_string(item).unwrap();
        let rows = normalize_one_message(&s);
        all_rows.extend(rows);
    }
    all_rows
}

fn number(name: &str, value: f64) -> JsonField {
    JsonField {
        name: name.to_string(),
        text: None,
        number_bits: Some(value.to_bits()),
        rendered: format!("{}", value),
    }
}

fn string(name: &str, value: &str) -> JsonField {
    JsonField {
        name: name.to_string(),
        text: Some(value.to_string()),
        number_bits: None,
        rendered: format!("\"{}\"", value),
    }
}

fn local_micros(text: &str) -> i64 {
    let naive = chrono::NaiveDateTime::parse_from_str(text, "%Y-%m-%d %H:%M:%S").unwrap();
    chrono::TimeZone::from_local_datetime(&chrono::Local, &naive)
        .single()
        .unwrap()
        .timestamp_micros()
}

#[test]
fn test_normalize_message() {
    let all_rows = all_test_rows();

    // Expected rows: temperatures in 4 messages, humidity 1, pressure 1, battery_ok 3 => total 9
    assert_eq!(all_rows.len(), 9, "expected 9 normalized rows");

    // Count measurement types
    let mut temps = 0usize;
    let mut hum = 0usize;
    let mut pres = 0usize;
    let mut batt = 0usize;
    for r in &all_rows {
        match r.measurement_type() {
            0 => temps += 1,
            1 => hum += 1,
            2 => pres += 1,
            3 => batt += 1,
            _ => {}
        }
    }
    assert_eq!(temps, 4, "expected 4 temperature measurements");
    assert_eq!(hum, 1, "expected 1 humidity measurement");
    assert_eq!(pres, 1, "expected 1 pressure measurement");
    assert_eq!(batt, 3, "expected 3 battery_ok measurements");
}

#[test]
fn test_create_arrow_record_batch() {
    let all_rows = all_test_rows();

    let batch = create_arrow_record_batch(&all_rows);

    assert_eq!(batch.num_rows(), all_rows.len(), "record batch row count");
    assert_eq!(batch.num_columns(), 6, "record batch column count");
}

#[test]
fn scenario_message_gives_its_readings() {
    let rows = normalize_one_message(SCENARIO);
    // battery_ok is a recognized name with a numeric value, so it is a reading too
    assert_eq!(rows.len(), 3);
    let temperature = rows.iter().find(|r| r.measurement_type() == 0).unwrap();
    let humidity = rows.iter().find(|r| r.measurement_type() == 1).unwrap();
    let battery = rows.iter().find(|r| r.measurement_type() == 3).unwrap();
    assert_eq!(f64::from_bits(temperature.value_bits()), 21.5);
    assert_eq!(f64::from_bits(humidity.value_bits()), 45.2);
    assert_eq!(f64::from_bits(battery.value_bits()), 1.0);
    for r in &rows {
        assert_eq!(r.sensor_id(), "d1");
        assert_eq!(r.model(), "X");
        assert_eq!(r.timestamp(), rows[0].timestamp());
        assert_eq!(r.raw_json(), Some(SCENARIO));
    }
    assert_eq!(rows[0].timestamp(), local_micros("2025-11-29 22:00:39"));
}

#[test]
fn one_row_per_recognized_numeric_field() {
    let rows = normalize_one_message(
        r#"{"id":"a","model":"m","temperature_C":1.5,"humidity":"wet","pressure_kPa":101.3,"other":7}"#,
    );
    assert_eq!(rows.len(), 2);
    assert_eq!(rows[0].measurement_type(), 2);
    assert_eq!(f64::from_bits(rows[0].value_bits()), 101.3);
    assert_eq!(rows[1].measurement_type(), 0);
    assert_eq!(f64::from_bits(rows[1].value_bits()), 1.5);
    assert_eq!(rows[0].timestamp(), rows[1].timestamp());
    assert_eq!(rows[0].sensor_id(), rows[1].sensor_id());
}

#[test]
fn message_without_readings_gives_no_rows() {
    assert!(normalize_one_message(r#"{"id":"a","model":"m","channel":1}"#).is_empty());
    assert!(normalize_one_message(r#"{"temperature_C":"warm","battery_ok":true}"#).is_empty());
    assert!(normalize_one_message("{}").is_empty());
}

#[test]
fn text_that_is_no_document_gives_no_rows() {
    assert!(normalize_one_message("").is_empty());
    assert!(normalize_one_message("not json").is_empty());
    assert!(normalize_one_message(r#"{"temperature_C": 1.0"#).is_empty());
}

#[test]
fn document_that_is_no_object_gives_no_rows() {
    assert!(normalize_one_message("[1, 2, 3]").is_empty());
    assert!(normalize_one_message("21.5").is_empty());
    assert!(normalize_one_message(r#""temperature_C""#).is_empty());
}

#[test]
fn identity_is_stringified() {
    let rows = normalize_one_message(r#"{"id":19,"model":["a",1],"humidity":40}"#);
    assert_eq!(rows.len(), 1);
    assert_eq!(rows[0].sensor_id(), "19");
    assert_eq!(rows[0].model(), r#"["a",1]"#);
    assert_eq!(f64::from_bits(rows[0].value_bits()), 40.0);

    let rows = normalize_one_message(r#"{"humidity":40}"#);
    assert_eq!(rows[0].sensor_id(), "null");
    assert_eq!(rows[0].model(), "null");
}

#[test]
fn rfc3339_time_is_read() {
    let rows = normalize_one_message(r#"{"time":"2025-11-29T22:00:39+01:00","humidity":40}"#);
    assert_eq!(rows.len(), 1);
    assert_eq!(rows[0].timestamp(), 1_764_450_039_000_000);
}

#[test]
fn missing_time_is_the_wall_clock() {
    let before = chrono::Utc::now().timestamp_micros();
    let rows = normalize_one_message(r#"{"time":"yesterday","humidity":40,"temperature_C":3}"#);
    let after = chrono::Utc::now().timestamp_micros();
    assert_eq!(rows.len(), 2);
    assert!(before <= rows[0].timestamp() && rows[0].timestamp() <= after);
    assert_eq!(rows[0].timestamp(), rows[1].timestamp());

    let fields = vec![number("time", 5.0), number("humidity", 1.0)];
    let before = chrono::Utc::now().timestamp_micros();
    let stamp = event_time(&fields);
    let after = chrono::Utc::now().timestamp_micros();
    assert!(before <= stamp && stamp <= after);
}

#[test]
fn rows_from_given_fields() {
    let fields = vec![
        string("id", "d1"),
        number("humidity", 45.2),
        string("model", "X"),
        number("temperature_C", 21.5),
        number("wind", 3.0),
        string("pressure_kPa", "high"),
    ];
    let rows = rows_from_fields(&fields, "the text", 1234);
    assert_eq!(rows.len(), 2);
    assert_eq!(rows[0].measurement_type(), 1);
    assert_eq!(rows[0].value_bits(), 45.2f64.to_bits());
    assert_eq!(rows[1].measurement_type(), 0);
    assert_eq!(rows[1].value_bits(), 21.5f64.to_bits());
    for r in &rows {
        assert_eq!(r.timestamp(), 1234);
        assert_eq!(r.sensor_id(), "d1");
        assert_eq!(r.model(), "X");
        assert_eq!(r.raw_json(), Some("the text"));
    }
}

#[test]
fn lookup_finds_the_last_entry() {
    let fields = vec![string("id", "first"), number("x", 1.0), string("id", "second")];
    assert_eq!(find_field(&fields, "id").unwrap().text.as_deref(), Some("second"));
    assert!(find_field(&fields, "model").is_none());
    assert_eq!(label_of(&fields, "id"), "second");
    assert_eq!(label_of(&fields, "x"), "1");
    assert_eq!(label_of(&fields, "model"), "null");
}

#[test]
fn keys_and_codes() {
    assert_eq!(MeasurementType::from_key("temperature_C"), 0);
    assert_eq!(MeasurementType::from_key("humidity"), 1);
    assert_eq!(MeasurementType::from_key("pressure_kPa"), 2);
    assert_eq!(MeasurementType::from_key("battery_ok"), 3);
    assert_eq!(MeasurementType::from_key("temperature_c"), 255);
    assert_eq!(MeasurementType::from_key(""), 255);
    assert_eq!(MeasurementType::of_key("humidity"), MeasurementType::Humidity);
    assert_eq!(MeasurementType::of_key("id"), MeasurementType::Unknown);
    assert_eq!(MeasurementType::from_code(2), MeasurementType::Pressure);
    assert_eq!(MeasurementType::from_code(4), MeasurementType::Unknown);
    assert_eq!(MeasurementType::from_code(255), MeasurementType::Unknown);
    assert_eq!(MeasurementType::BatteryOk.code(), 3);
    assert_eq!(MeasurementType::Unknown.code(), 255);
}

#[test]
fn batch_round_trip() {
    let mut rows = all_test_rows();
    rows.push(NormalizedRow::new(-5, "s".to_string(), "m".to_string(), 255, 0, None));
    rows.push(NormalizedRow::new(7, String::new(), String::new(), 1, u64::MAX, Some(String::new())));
    let batch = create_arrow_record_batch(&rows);
    assert_eq!(batch.num_rows(), 11);
    assert_eq!(batch.timestamp()[9], -5);
    assert_eq!(batch.measurement_type()[9], 255);
    assert_eq!(batch.raw_json()[9], "");
    assert_eq!(batch.raw_json()[10], "");
    assert_eq!(batch.value_bits()[10], u64::MAX);
    assert_eq!(batch.model()[2], "LaCrosse-TX141Bv3");
    assert_eq!(batch.sensor_id()[4], "f1c7e267");
    let back = batch.rows();
    assert_eq!(back.len(), rows.len());
    for (a, b) in back.iter().zip(rows.iter()) {
        assert_eq!(a.timestamp(), b.timestamp());
        assert_eq!(a.sensor_id(), b.sensor_id());
        assert_eq!(a.model(), b.model());
        assert_eq!(a.measurement_type(), b.measurement_type());
        assert_eq!(a.value_bits(), b.value_bits());
        assert_eq!(a.raw_json(), b.raw_json());
    }
    assert_eq!(back[9].raw_json(), None);
    assert_eq!(back[10].raw_json(), None);
}

#[test]
fn row_clone_says_the_same() {
    let row = NormalizedRow::new(1, "s".to_string(), "m".to_string(), 2, 3, Some("raw".to_string()));
    let copy = row.clone();
    assert_eq!(copy.timestamp(), 1);
    assert_eq!(copy.sensor_id(), "s");
    assert_eq!(copy.model(), "m");
    assert_eq!(copy.measurement_type(), 2);
    assert_eq!(copy.value_bits(), 3);
    assert_eq!(copy.raw_json(), Some("raw"));
}
