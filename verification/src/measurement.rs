//! The closed list of measurement kinds and the field names that select them.

use vstd::prelude::*;

verus! {

/// Code stored for a temperature reading.
pub const CODE_TEMPERATURE: u8 = 0;

/// Code stored for a relative-humidity reading.
pub const CODE_HUMIDITY: u8 = 1;

/// Code stored for a pressure reading.
pub const CODE_PRESSURE: u8 = 2;

/// Code stored for a battery-state reading (0 or 1).
pub const CODE_BATTERY_OK: u8 = 3;

/// Code that stands for a field name outside the recognized list.
pub const CODE_UNKNOWN: u8 = 255;

/// The kinds of measurement a row can carry.
#[derive(Clone, Copy, Debug, PartialEq, Eq, Structural)]
pub enum MeasurementType {
    Temperature,
    Humidity,
    Pressure,
    BatteryOk,
    Unknown,
}

/// The kind that a field name selects; every name outside the recognized
/// list selects `Unknown`.
pub open spec fn kind_of_key(key: Seq<char>) -> MeasurementType {
    if key == "temperature_C"@ {
        MeasurementType::Temperature
    } else if key == "humidity"@ {
        MeasurementType::Humidity
    } else if key == "pressure_kPa"@ {
        MeasurementType::Pressure
    } else if key == "battery_ok"@ {
        MeasurementType::BatteryOk
    } else {
        MeasurementType::Unknown
    }
}

/// The stored code of a kind.
pub open spec fn code_of_kind(kind: MeasurementType) -> u8 {
    match kind {
        MeasurementType::Temperature => CODE_TEMPERATURE,
        MeasurementType::Humidity => CODE_HUMIDITY,
        MeasurementType::Pressure => CODE_PRESSURE,
        MeasurementType::BatteryOk => CODE_BATTERY_OK,
        MeasurementType::Unknown => CODE_UNKNOWN,
    }
}

/// The kind that a stored code stands for; a code outside the list is
/// `Unknown`, never a known kind.
pub open spec fn kind_of_code(code: u8) -> MeasurementType {
    if code == CODE_TEMPERATURE {
        MeasurementType::Temperature
    } else if code == CODE_HUMIDITY {
        MeasurementType::Humidity
    } else if code == CODE_PRESSURE {
        MeasurementType::Pressure
    } else if code == CODE_BATTERY_OK {
        MeasurementType::BatteryOk
    } else {
        MeasurementType::Unknown
    }
}

/// Whether a field name is one of the recognized measurement names.
pub open spec fn is_measurement_key(key: Seq<char>) -> bool {
    kind_of_key(key) != MeasurementType::Unknown
}

/// `str`'s `==`: true exactly when the two slices hold the same characters.
#[verifier::external_body]
pub(crate) fn same_text(a: &str, b: &str) -> (r: bool)
    ensures
        r == (a@ == b@),
{
    a == b
}

impl MeasurementType {
    /// The kind selected by a field name.
    pub fn of_key(key: &str) -> (kind: MeasurementType)
        ensures
            kind == kind_of_key(key@),
    {
        if same_text(key, "temperature_C") {
            MeasurementType::Temperature
        } else if same_text(key, "humidity") {
            MeasurementType::Humidity
        } else if same_text(key, "pressure_kPa") {
            MeasurementType::Pressure
        } else if same_text(key, "battery_ok") {
            MeasurementType::BatteryOk
        } else {
            MeasurementType::Unknown
        }
    }

    /// The stored code of this kind.
    pub fn code(self) -> (code: u8)
        ensures
            code == code_of_kind(self),
    {
        match self {
            MeasurementType::Temperature => CODE_TEMPERATURE,
            MeasurementType::Humidity => CODE_HUMIDITY,
            MeasurementType::Pressure => CODE_PRESSURE,
            MeasurementType::BatteryOk => CODE_BATTERY_OK,
            MeasurementType::Unknown => CODE_UNKNOWN,
        }
    }

    /// The kind that a stored code stands for.
    pub fn from_code(code: u8) -> (kind: MeasurementType)
        ensures
            kind == kind_of_code(code),
    {
        if code == CODE_TEMPERATURE {
            MeasurementType::Temperature
        } else if code == CODE_HUMIDITY {
            MeasurementType::Humidity
        } else if code == CODE_PRESSURE {
            MeasurementType::Pressure
        } else if code == CODE_BATTERY_OK {
            MeasurementType::BatteryOk
        } else {
            MeasurementType::Unknown
        }
    }

    /// The stored code selected by a field name: 0 to 3 for the recognized
    /// names, 255 for every other name.
    pub fn from_key(key: &str) -> (code: u8)
        ensures
            code == code_of_kind(kind_of_key(key@)),
    {
        MeasurementType::of_key(key).code()
    }
}

/// A code and its kind determine each other on the five listed codes.
pub proof fn lemma_code_round_trip(kind: MeasurementType)
    ensures
        kind_of_code(code_of_kind(kind)) == kind,
{
}

} // verus!
