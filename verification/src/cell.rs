//! What a value becomes on the sheet: the rule of each column type.

use crate::calendar::{
    date_days, date_from_epoch_days, datetime_from_epoch_millis, datetime_millis,
    day_representable, millis_representable,
};
use crate::model::{entry_fits, LogicalType, TimeUnit, Value};
use crate::sheet::{stored_instant, widened};
use vstd::prelude::*;
use vstd::string::StringExecFns;

verus! {

/// A number that only floating-point arithmetic can produce. The caller
/// computes it and writes it as a numeric cell.
#[derive(Clone, Copy, Debug, PartialEq, Eq)]
pub enum NumberSource {
    /// The binary64 number with this IEEE 754 bit pattern.
    Bits(u64),
    /// A time of day as a fraction of a day: `value` widened to binary64,
    /// divided by `units_per_day`.
    DayFraction { value: i64, units_per_day: i64 },
}

/// The content of one cell, as contracts speak of it.
pub enum Cell {
    Text(Seq<char>),
    /// A numeric cell that holds this integer.
    Number(int),
    Boolean(bool),
    /// A date-time cell for the instant this many milliseconds after
    /// 1970-01-01T00:00:00 UTC.
    DateTime(int),
    /// A numeric cell that is left to the caller.
    Deferred(NumberSource),
}

/// The content of one cell, as a value.
#[derive(Debug, PartialEq, Eq)]
pub enum CellValue {
    Text(String),
    Integer(i64),
    Unsigned(u64),
    Boolean(bool),
    Date(chrono::NaiveDate),
    DateTime(chrono::NaiveDateTime),
    Deferred(NumberSource),
}

impl View for CellValue {
    type V = Cell;

    /// An integer stands for the number that the sheet widens it to, a date
    /// for its midnight, a date-time for the instant that the sheet keeps of
    /// it outside a leap second.
    open spec fn view(&self) -> Cell {
        match *self {
            CellValue::Text(s) => Cell::Text(s@),
            CellValue::Integer(v) => Cell::Number(widened(v as int)),
            CellValue::Unsigned(v) => Cell::Number(widened(v as int)),
            CellValue::Boolean(b) => Cell::Boolean(b),
            CellValue::Date(date) => Cell::DateTime(date_days(date) * MILLIS_PER_DAY),
            CellValue::DateTime(moment) => Cell::DateTime(stored_instant(datetime_millis(moment))),
            CellValue::Deferred(n) => Cell::Deferred(n),
        }
    }
}

pub const SECONDS_PER_DAY: i64 = 86_400;

pub const MILLIS_PER_DAY: i64 = 86_400_000;

pub const MICROS_PER_DAY: i64 = 86_400_000_000;

pub const NANOS_PER_DAY: i64 = 86_400_000_000_000;

/// The text that stands in every non-null cell of a column of another type,
/// before the type's name.
pub open spec fn placeholder_prefix() -> Seq<char> {
    "unsupported data type: "@
}

pub open spec fn digit(d: int) -> char {
    if d == 0 {
        '0'
    } else if d == 1 {
        '1'
    } else if d == 2 {
        '2'
    } else if d == 3 {
        '3'
    } else if d == 4 {
        '4'
    } else if d == 5 {
        '5'
    } else if d == 6 {
        '6'
    } else if d == 7 {
        '7'
    } else if d == 8 {
        '8'
    } else {
        '9'
    }
}

/// The decimal digits of a natural number, without leading zeros.
pub open spec fn digits(n: nat) -> Seq<char>
    decreases n,
{
    if n < 10 {
        seq![digit(n as int)]
    } else {
        digits(n / 10).push(digit((n % 10) as int))
    }
}

/// An integer in decimal, with a minus sign where it is negative.
pub open spec fn decimal(v: int) -> Seq<char> {
    if v < 0 {
        seq!['-'] + digits((-v) as nat)
    } else {
        digits(v as nat)
    }
}

/// The text of one decimal digit.
fn digit_text(d: u64) -> (out: &'static str)
    requires
        d < 10,
    ensures
        out@ == seq![digit(d as int)],
{
    proof {
        reveal_strlit("0");
        reveal_strlit("1");
        reveal_strlit("2");
        reveal_strlit("3");
        reveal_strlit("4");
        reveal_strlit("5");
        reveal_strlit("6");
        reveal_strlit("7");
        reveal_strlit("8");
        reveal_strlit("9");
    }
    if d == 0 {
        "0"
    } else if d == 1 {
        "1"
    } else if d == 2 {
        "2"
    } else if d == 3 {
        "3"
    } else if d == 4 {
        "4"
    } else if d == 5 {
        "5"
    } else if d == 6 {
        "6"
    } else if d == 7 {
        "7"
    } else if d == 8 {
        "8"
    } else {
        "9"
    }
}

/// A natural number in decimal.
fn natural_text(n: u64) -> (out: String)
    ensures
        out@ == digits(n as nat),
    decreases n,
{
    if n < 10 {
        String::from_str(digit_text(n))
    } else {
        natural_text(n / 10).concat(digit_text(n % 10))
    }
}

/// An integer in decimal.
pub fn decimal_text(v: i64) -> (out: String)
    ensures
        out@ == decimal(v as int),
{
    if v < 0 {
        let magnitude: u64 = if v == i64::MIN {
            9_223_372_036_854_775_808
        } else {
            (-v) as u64
        };
        proof {
            reveal_strlit("-");
        }
        String::from_str("-").concat(natural_text(magnitude).as_str())
    } else {
        natural_text(v as u64)
    }
}

/// The cell that a time of day becomes: a fraction of a day, for the two
/// granularities that the column's width admits.
pub open spec fn time_cell(wide: bool, unit: TimeUnit, v: i64) -> Option<Cell> {
    match (wide, unit) {
        (false, TimeUnit::Second) => Some(
            Cell::Deferred(NumberSource::DayFraction { value: v, units_per_day: SECONDS_PER_DAY }),
        ),
        (false, TimeUnit::Millisecond) => Some(
            Cell::Deferred(NumberSource::DayFraction { value: v, units_per_day: MILLIS_PER_DAY }),
        ),
        (true, TimeUnit::Microsecond) => Some(
            Cell::Deferred(NumberSource::DayFraction { value: v, units_per_day: MICROS_PER_DAY }),
        ),
        (true, TimeUnit::Nanosecond) => Some(
            Cell::Deferred(NumberSource::DayFraction { value: v, units_per_day: NANOS_PER_DAY }),
        ),
        _ => None,
    }
}

/// The cell that a value of a column of the given type becomes. `None` is a
/// cell that stays untouched: for a null, for a date outside the calendar, and
/// for a time of day in a granularity that its width does not admit.
pub open spec fn render_spec(data_type: LogicalType, value: Option<Value>) -> Option<Cell> {
    match value {
        None => None,
        Some(val) => match data_type {
            LogicalType::Utf8 => match val {
                Value::Text(s) => Some(Cell::Text(s@)),
                _ => None,
            },
            LogicalType::Int8 | LogicalType::Int16 | LogicalType::Int32 | LogicalType::Int64 => match val {
                Value::Int(v) => Some(Cell::Number(widened(v as int))),
                _ => None,
            },
            LogicalType::UInt8 | LogicalType::UInt16 | LogicalType::UInt32 | LogicalType::UInt64 => match val {
                Value::UInt(v) => Some(Cell::Number(widened(v as int))),
                _ => None,
            },
            LogicalType::Float16 | LogicalType::Float32 | LogicalType::Float64 => match val {
                Value::Float(bits) => Some(Cell::Deferred(NumberSource::Bits(bits))),
                _ => None,
            },
            LogicalType::Boolean => match val {
                Value::Bool(b) => Some(Cell::Boolean(b)),
                _ => None,
            },
            LogicalType::Date32 => match val {
                Value::Int(v) => if day_representable(v as int) {
                    Some(Cell::DateTime(v * MILLIS_PER_DAY))
                } else {
                    None
                },
                _ => None,
            },
            LogicalType::Date64 => match val {
                Value::Int(v) => if millis_representable(v as int) {
                    Some(Cell::DateTime(stored_instant(v as int)))
                } else {
                    None
                },
                _ => None,
            },
            LogicalType::Time32(unit) => match val {
                Value::Int(v) => time_cell(false, unit, v),
                _ => None,
            },
            LogicalType::Time64(unit) => match val {
                Value::Int(v) => time_cell(true, unit, v),
                _ => None,
            },
            LogicalType::Timestamp(_) => match val {
                Value::Int(v) => Some(Cell::Text(decimal(v as int))),
                _ => None,
            },
            LogicalType::Other(name) => Some(Cell::Text(placeholder_prefix() + name@)),
        },
    }
}

/// The view of an optional cell value.
pub open spec fn view_of(cell: Option<CellValue>) -> Option<Cell> {
    match cell {
        Some(c) => Some(c@),
        None => None,
    }
}

fn time_value(wide: bool, unit: TimeUnit, v: i64) -> (out: Option<CellValue>)
    ensures
        view_of(out) == time_cell(wide, unit, v),
{
    match unit {
        TimeUnit::Second => if wide {
            None
        } else {
            Some(CellValue::Deferred(NumberSource::DayFraction { value: v, units_per_day: SECONDS_PER_DAY }))
        },
        TimeUnit::Millisecond => if wide {
            None
        } else {
            Some(CellValue::Deferred(NumberSource::DayFraction { value: v, units_per_day: MILLIS_PER_DAY }))
        },
        TimeUnit::Microsecond => if wide {
            Some(CellValue::Deferred(NumberSource::DayFraction { value: v, units_per_day: MICROS_PER_DAY }))
        } else {
            None
        },
        TimeUnit::Nanosecond => if wide {
            Some(CellValue::Deferred(NumberSource::DayFraction { value: v, units_per_day: NANOS_PER_DAY }))
        } else {
            None
        },
    }
}

/// Renders one value by the rule of its column's type. An integer is handed on
/// as it is.
pub fn render(data_type: &LogicalType, value: &Option<Value>) -> (out: Option<CellValue>)
    requires
        entry_fits(*data_type, *value),
    ensures
        view_of(out) == render_spec(*data_type, *value),
        out matches Some(cell) ==> crate::sheet::plain(cell),
        crate::model::is_integer_type(*data_type) ==> (*value matches Some(Value::Int(v)) ==> out
            == Some(CellValue::Integer(v))),
        crate::model::is_integer_type(*data_type) ==> (*value matches Some(Value::UInt(v)) ==> out
            == Some(CellValue::Unsigned(v))),
{
    let val = match value {
        None => {
            return None;
        },
        Some(val) => val,
    };
    match data_type {
        LogicalType::Utf8 => match val {
            Value::Text(s) => Some(CellValue::Text(s.clone())),
            _ => None,
        },
        LogicalType::Int8 | LogicalType::Int16 | LogicalType::Int32 | LogicalType::Int64 => match val {
            Value::Int(v) => Some(CellValue::Integer(*v)),
            _ => None,
        },
        LogicalType::UInt8 | LogicalType::UInt16 | LogicalType::UInt32 | LogicalType::UInt64 => match val {
            Value::UInt(v) => Some(CellValue::Unsigned(*v)),
            _ => None,
        },
        LogicalType::Float16 | LogicalType::Float32 | LogicalType::Float64 => match val {
            Value::Float(bits) => Some(CellValue::Deferred(NumberSource::Bits(*bits))),
            _ => None,
        },
        LogicalType::Boolean => match val {
            Value::Bool(b) => Some(CellValue::Boolean(*b)),
            _ => None,
        },
        LogicalType::Date32 => match val {
            Value::Int(v) => match date_from_epoch_days(*v as i32) {
                Some(date) => Some(CellValue::Date(date)),
                None => None,
            },
            _ => None,
        },
        LogicalType::Date64 => match val {
            Value::Int(v) => match datetime_from_epoch_millis(*v) {
                Some(moment) => Some(CellValue::DateTime(moment)),
                None => None,
            },
            _ => None,
        },
        LogicalType::Time32(unit) => match val {
            Value::Int(v) => time_value(false, *unit, *v),
            _ => None,
        },
        LogicalType::Time64(unit) => match val {
            Value::Int(v) => time_value(true, *unit, *v),
            _ => None,
        },
        LogicalType::Timestamp(_) => match val {
            Value::Int(v) => Some(CellValue::Text(decimal_text(*v))),
            _ => None,
        },
        LogicalType::Other(name) => {
            let text = String::from_str("unsupported data type: ").concat(name.as_str());
            Some(CellValue::Text(text))
        },
    }
}

} // verus!
