//! The data that arrives: batches of typed columns.

use vstd::prelude::*;

verus! {

/// Granularity of a time-of-day or timestamp column.
#[derive(Clone, Copy, Debug, PartialEq, Eq)]
pub enum TimeUnit {
    Second,
    Millisecond,
    Microsecond,
    Nanosecond,
}

/// Declared type of a column.
#[derive(Clone, Debug, PartialEq, Eq)]
pub enum LogicalType {
    Utf8,
    Int8,
    Int16,
    Int32,
    Int64,
    UInt8,
    UInt16,
    UInt32,
    UInt64,
    Float16,
    Float32,
    Float64,
    Boolean,
    /// Days since 1970-01-01.
    Date32,
    /// Milliseconds since 1970-01-01T00:00:00Z.
    Date64,
    /// Time of day in a 32-bit column.
    Time32(TimeUnit),
    /// Time of day in a 64-bit column.
    Time64(TimeUnit),
    /// Offset from the epoch in the given unit; a time zone, if any, is dropped.
    Timestamp(TimeUnit),
    /// Any other type, with the name under which it is reported.
    Other(String),
}

/// One non-null value of a column, in the storage class of its type.
#[derive(Clone, Debug, PartialEq, Eq)]
pub enum Value {
    Text(String),
    /// Signed integers, dates, times and timestamps.
    Int(i64),
    /// Unsigned integers.
    UInt(u64),
    /// A floating-point number widened to binary64, as its IEEE 754 bit pattern.
    Float(u64),
    Bool(bool),
    /// A value of a type that has no rendering of its own.
    Opaque,
}

/// A named, typed, nullable sequence of values. `None` is a null.
#[derive(Clone, Debug, PartialEq, Eq)]
pub struct Column {
    pub name: String,
    pub data_type: LogicalType,
    pub values: Vec<Option<Value>>,
}

/// Columns of equal length.
#[derive(Clone, Debug, PartialEq, Eq)]
pub struct Batch {
    columns: Vec<Column>,
    num_rows: usize,
}

/// The type is one of the eight integer types.
pub open spec fn is_integer_type(data_type: LogicalType) -> bool {
    data_type is Int8 || data_type is Int16 || data_type is Int32 || data_type is Int64
        || data_type is UInt8 || data_type is UInt16 || data_type is UInt32 || data_type is UInt64
}

/// The type is one of the three floating-point types.
pub open spec fn is_float_type(data_type: LogicalType) -> bool {
    data_type is Float16 || data_type is Float32 || data_type is Float64
}

/// The value belongs to the storage class and the width of the type. A column
/// of another type takes any value.
pub open spec fn value_fits(data_type: LogicalType, value: Value) -> bool {
    match data_type {
        LogicalType::Utf8 => value is Text,
        LogicalType::Int8 => value matches Value::Int(v) && -128 <= v <= 127,
        LogicalType::Int16 => value matches Value::Int(v) && -32_768 <= v <= 32_767,
        LogicalType::Int32 | LogicalType::Date32 | LogicalType::Time32(_) => value matches Value::Int(v)
            && -2_147_483_648 <= v <= 2_147_483_647,
        LogicalType::Int64 | LogicalType::Date64 | LogicalType::Time64(_) | LogicalType::Timestamp(
            _,
        ) => value is Int,
        LogicalType::UInt8 => value matches Value::UInt(v) && v <= 255,
        LogicalType::UInt16 => value matches Value::UInt(v) && v <= 65_535,
        LogicalType::UInt32 => value matches Value::UInt(v) && v <= 4_294_967_295,
        LogicalType::UInt64 => value is UInt,
        LogicalType::Float16 | LogicalType::Float32 | LogicalType::Float64 => value is Float,
        LogicalType::Boolean => value is Bool,
        LogicalType::Other(_) => true,
    }
}

/// A null, or a value that fits the type.
pub open spec fn entry_fits(data_type: LogicalType, entry: Option<Value>) -> bool {
    entry matches Some(value) ==> value_fits(data_type, value)
}

/// Each of the first `n` entries of the column fits the column's type.
pub open spec fn column_fits(column: Column, n: int) -> bool {
    forall|r: int| 0 <= r < n ==> entry_fits(column.data_type, #[trigger] column.values@[r])
}

/// Each of the first `n` columns holds only entries that fit its type.
pub open spec fn columns_fit(columns: Seq<Column>, n: int) -> bool {
    forall|c: int| 0 <= c < n ==> column_fits(#[trigger] columns[c], columns[c].values@.len() as int)
}

/// Tells whether a value fits a type.
pub fn fits(data_type: &LogicalType, value: &Value) -> (out: bool)
    ensures
        out == value_fits(*data_type, *value),
{
    match data_type {
        LogicalType::Utf8 => matches!(value, Value::Text(_)),
        LogicalType::Int8 => match value {
            Value::Int(v) => -128 <= *v && *v <= 127,
            _ => false,
        },
        LogicalType::Int16 => match value {
            Value::Int(v) => -32_768 <= *v && *v <= 32_767,
            _ => false,
        },
        LogicalType::Int32 | LogicalType::Date32 | LogicalType::Time32(_) => match value {
            Value::Int(v) => -2_147_483_648 <= *v && *v <= 2_147_483_647,
            _ => false,
        },
        LogicalType::Int64 | LogicalType::Date64 | LogicalType::Time64(_) | LogicalType::Timestamp(
            _,
        ) => matches!(value, Value::Int(_)),
        LogicalType::UInt8 => match value {
            Value::UInt(v) => *v <= 255,
            _ => false,
        },
        LogicalType::UInt16 => match value {
            Value::UInt(v) => *v <= 65_535,
            _ => false,
        },
        LogicalType::UInt32 => match value {
            Value::UInt(v) => *v <= 4_294_967_295,
            _ => false,
        },
        LogicalType::UInt64 => matches!(value, Value::UInt(_)),
        LogicalType::Float16 | LogicalType::Float32 | LogicalType::Float64 => matches!(
            value,
            Value::Float(_)
        ),
        LogicalType::Boolean => matches!(value, Value::Bool(_)),
        LogicalType::Other(_) => true,
    }
}

/// Every one of the first `n` columns holds exactly `rows` values.
pub open spec fn lengths_agree(columns: Seq<Column>, rows: int, n: int) -> bool {
    forall|c: int| 0 <= c < n ==> (#[trigger] columns[c]).values@.len() == rows
}

impl Batch {
    /// The columns, in schema order.
    pub closed spec fn cols(self) -> Seq<Column> {
        self.columns@
    }

    /// The number of rows.
    pub closed spec fn rows(self) -> int {
        self.num_rows as int
    }

    /// All columns have `rows()` values, and these fit their types.
    pub open spec fn wf(self) -> bool {
        &&& self.rows() >= 0
        &&& lengths_agree(self.cols(), self.rows(), self.cols().len() as int)
        &&& columns_fit(self.cols(), self.cols().len() as int)
    }

    /// The value at a position, `None` for a null.
    pub open spec fn value_at(self, row: int, col: int) -> Option<Value> {
        self.cols()[col].values@[row]
    }

    /// Builds a batch of `num_rows` rows, or `None` where a column has another
    /// length or a value does not fit the type of its column.
    pub fn new(columns: Vec<Column>, num_rows: usize) -> (out: Option<Batch>)
        ensures
            out.is_some() <==> (lengths_agree(
                columns@,
                num_rows as int,
                columns@.len() as int,
            ) && columns_fit(columns@, columns@.len() as int)),
            out matches Some(b) ==> b.wf() && b.cols() == columns@ && b.rows() == num_rows,
    {
        let mut c: usize = 0;
        while c < columns.len()
            invariant
                c <= columns@.len(),
                lengths_agree(columns@, num_rows as int, c as int),
                columns_fit(columns@, c as int),
            decreases columns@.len() - c,
        {
            let column = &columns[c];
            if column.values.len() != num_rows {
                return None;
            }
            let mut r: usize = 0;
            while r < column.values.len()
                invariant
                    c < columns@.len(),
                    *column == columns@[c as int],
                    r <= column.values@.len(),
                    column_fits(*column, r as int),
                decreases column.values@.len() - r,
            {
                match &column.values[r] {
                    Some(value) => {
                        if !fits(&column.data_type, value) {
                            return None;
                        }
                    },
                    None => {},
                }
                r += 1;
            }
            c += 1;
        }
        Some(Batch { columns, num_rows })
    }

    pub fn num_rows(&self) -> (n: usize)
        ensures
            n == self.rows(),
    {
        self.num_rows
    }

    pub fn num_columns(&self) -> (n: usize)
        ensures
            n == self.cols().len(),
    {
        self.columns.len()
    }

    /// The column at an index.
    pub fn column(&self, col: usize) -> (out: &Column)
        requires
            col < self.cols().len(),
        ensures
            *out == self.cols()[col as int],
    {
        &self.columns[col]
    }
}

} // verus!
